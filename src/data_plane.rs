use vstd::prelude::*;
use crate::config::{CollectorConfig, DataPlaneConfig, ExporterConfig};
use crate::error::AgentError;
use crate::metrics::single_label;
use crate::platform::SystemMetrics;
use crate::text::{join2, same_text, split_words, words};
use crate::types::{Labels, LogData, MetricData, MetricValue};

verus! {

/// Items waiting to be sent together; a batch leaves once it holds `batch_size` items.
pub struct Batch<T> {
    pub items: Vec<T>,
    pub batch_size: usize,
}

impl<T> Batch<T> {
    pub fn new(batch_size: usize) -> (r: Self)
        ensures
            r.items@.len() == 0,
            r.batch_size == batch_size,
    {
        Batch { items: Vec::new(), batch_size }
    }

    /// Appends `item`; once the buffer reaches the batch size the whole buffer, in arrival
    /// order, is handed back for sending and the buffer starts empty.
    pub fn push(&mut self, item: T) -> (r: Option<Vec<T>>)
        ensures
            final(self).batch_size == old(self).batch_size,
            old(self).items@.len() + 1 >= old(self).batch_size ==> r is Some && r->0@ == old(self).items@.push(item)
                && final(self).items@.len() == 0,
            old(self).items@.len() + 1 < old(self).batch_size ==> r is None && final(self).items@ == old(self).items@.push(item),
    {
        self.items.push(item);
        if self.items.len() >= self.batch_size {
            let mut full: Vec<T> = Vec::new();
            std::mem::swap(&mut full, &mut self.items);
            Some(full)
        } else {
            None
        }
    }

    /// Hands back whatever is buffered, in arrival order, if anything is.
    pub fn flush(&mut self) -> (r: Option<Vec<T>>)
        ensures
            final(self).batch_size == old(self).batch_size,
            final(self).items@.len() == 0,
            old(self).items@.len() == 0 ==> r is None,
            old(self).items@.len() > 0 ==> r is Some && r->0@ == old(self).items@,
    {
        if self.items.len() == 0 {
            None
        } else {
            let mut full: Vec<T> = Vec::new();
            std::mem::swap(&mut full, &mut self.items);
            Some(full)
        }
    }
}

/// The buffers of an HTTP exporter: metrics go to `endpoint`, logs to `endpoint/logs`.
pub struct HttpExporter {
    pub config: ExporterConfig,
    pub metrics: Batch<MetricData>,
    pub logs: Batch<LogData>,
}

impl HttpExporter {
    pub fn new(config: ExporterConfig) -> (r: Self)
        ensures
            r.metrics.items@.len() == 0,
            r.logs.items@.len() == 0,
            r.metrics.batch_size == config.batch_size,
            r.logs.batch_size == config.batch_size,
            r.config == config,
    {
        let size = config.batch_size;
        HttpExporter { config, metrics: Batch::new(size), logs: Batch::new(size) }
    }

    /// Where metric batches are posted.
    pub fn metrics_endpoint(&self) -> (r: String)
        ensures
            r@ == self.config.endpoint@,
    {
        self.config.endpoint.clone()
    }

    /// Where log batches are posted: `<endpoint>/logs`.
    pub fn logs_endpoint(&self) -> (r: String)
        ensures
            r@ == self.config.endpoint@ + "/logs"@,
    {
        join2(self.config.endpoint.as_str(), "/logs")
    }

    /// A metric arrived; a full batch, if this completes one, is handed back for posting.
    pub fn on_metric(&mut self, metric: MetricData) -> (r: Option<Vec<MetricData>>)
        ensures
            final(self).config == old(self).config,
            final(self).logs == old(self).logs,
            final(self).metrics.batch_size == old(self).metrics.batch_size,
            old(self).metrics.items@.len() + 1 >= old(self).metrics.batch_size ==> r is Some
                && r->0@ == old(self).metrics.items@.push(metric) && final(self).metrics.items@.len() == 0,
            old(self).metrics.items@.len() + 1 < old(self).metrics.batch_size ==> r is None
                && final(self).metrics.items@ == old(self).metrics.items@.push(metric),
    {
        self.metrics.push(metric)
    }

    /// A log record arrived; a full batch, if this completes one, is handed back for posting.
    pub fn on_log(&mut self, log: LogData) -> (r: Option<Vec<LogData>>)
        ensures
            final(self).config == old(self).config,
            final(self).metrics == old(self).metrics,
            final(self).logs.batch_size == old(self).logs.batch_size,
            old(self).logs.items@.len() + 1 >= old(self).logs.batch_size ==> r is Some
                && r->0@ == old(self).logs.items@.push(log) && final(self).logs.items@.len() == 0,
            old(self).logs.items@.len() + 1 < old(self).logs.batch_size ==> r is None
                && final(self).logs.items@ == old(self).logs.items@.push(log),
    {
        self.logs.push(log)
    }

    /// The flush timer fired: whatever is buffered leaves, metrics and logs separately.
    pub fn on_flush_tick(&mut self) -> (r: (Option<Vec<MetricData>>, Option<Vec<LogData>>))
        ensures
            final(self).config == old(self).config,
            final(self).metrics.items@.len() == 0,
            final(self).logs.items@.len() == 0,
            final(self).metrics.batch_size == old(self).metrics.batch_size,
            final(self).logs.batch_size == old(self).logs.batch_size,
            old(self).metrics.items@.len() == 0 ==> r.0 is None,
            old(self).metrics.items@.len() > 0 ==> r.0 is Some && r.0->0@ == old(self).metrics.items@,
            old(self).logs.items@.len() == 0 ==> r.1 is None,
            old(self).logs.items@.len() > 0 ==> r.1 is Some && r.1->0@ == old(self).logs.items@,
    {
        let m = self.metrics.flush();
        let l = self.logs.flush();
        (m, l)
    }
}

/// Writes each sample as one line: metrics to `endpoint`, logs to `endpoint.log`.
pub struct FileExporter {
    pub config: ExporterConfig,
}

impl FileExporter {
    pub fn new(config: ExporterConfig) -> (r: Self)
        ensures
            r.config == config,
    {
        FileExporter { config }
    }

    /// The file that receives metrics.
    pub fn metrics_path(&self) -> (r: String)
        ensures
            r@ == self.config.endpoint@,
    {
        self.config.endpoint.clone()
    }

    /// The file that receives logs: `<endpoint>.log`.
    pub fn logs_path(&self) -> (r: String)
        ensures
            r@ == self.config.endpoint@ + ".log"@,
    {
        join2(self.config.endpoint.as_str(), ".log")
    }
}

/// One record per line: the serialised sample followed by a line break.
pub fn frame_line(record: &str) -> (r: String)
    ensures
        r@ == record@ + "\n"@,
{
    join2(record, "\n")
}

/// The kinds of collector.
#[derive(Clone, Copy, Debug, PartialEq, Eq, Structural)]
pub enum CollectorKind {
    System,
    Log,
    Custom,
}

/// The kinds of exporter.
#[derive(Clone, Copy, Debug, PartialEq, Eq, Structural)]
pub enum ExporterKind {
    Http,
    File,
}

/// The collector kind a configuration names.
pub fn collector_kind(config: &CollectorConfig) -> (r: Result<CollectorKind, AgentError>)
    ensures
        config.collector_type@ == "system"@ ==> r == Ok::<CollectorKind, AgentError>(CollectorKind::System),
        config.collector_type@ == "log"@ ==> r == Ok::<CollectorKind, AgentError>(CollectorKind::Log),
        config.collector_type@ == "custom"@ ==> r == Ok::<CollectorKind, AgentError>(CollectorKind::Custom),
        config.collector_type@ != "system"@ && config.collector_type@ != "log"@ && config.collector_type@ != "custom"@
            ==> (r matches Err(AgentError::DataPlaneError(m)) && m@ == "Unknown collector type: "@ + config.collector_type@),
{
    let t = config.collector_type.as_str();
    proof {
        reveal_strlit("system");
        reveal_strlit("log");
        reveal_strlit("custom");
        assert("system"@[0] != "log"@[0] && "system"@[0] != "custom"@[0] && "log"@[0] != "custom"@[0]);
    }
    if same_text(t, "system") {
        Ok(CollectorKind::System)
    } else if same_text(t, "log") {
        Ok(CollectorKind::Log)
    } else if same_text(t, "custom") {
        Ok(CollectorKind::Custom)
    } else {
        Err(AgentError::DataPlaneError(join2("Unknown collector type: ", t)))
    }
}

/// The exporter kind a configuration names.
pub fn exporter_kind(config: &ExporterConfig) -> (r: Result<ExporterKind, AgentError>)
    ensures
        config.exporter_type@ == "http"@ ==> r == Ok::<ExporterKind, AgentError>(ExporterKind::Http),
        config.exporter_type@ == "file"@ ==> r == Ok::<ExporterKind, AgentError>(ExporterKind::File),
        config.exporter_type@ != "http"@ && config.exporter_type@ != "file"@
            ==> (r matches Err(AgentError::DataPlaneError(m)) && m@ == "Unknown exporter type: "@ + config.exporter_type@),
{
    let t = config.exporter_type.as_str();
    proof {
        reveal_strlit("http");
        reveal_strlit("file");
        assert("http"@[0] != "file"@[0]);
    }
    if same_text(t, "http") {
        Ok(ExporterKind::Http)
    } else if same_text(t, "file") {
        Ok(ExporterKind::File)
    } else {
        Err(AgentError::DataPlaneError(join2("Unknown exporter type: ", t)))
    }
}

/// Seconds between two runs of a collector: its `interval` setting, else `default`.
pub fn collector_interval(config: &CollectorConfig, default: u64) -> (r: u64)
    ensures
        r == match config.config.interval { Some(n) => n, None => default },
{
    match config.config.interval {
        Some(n) => n,
        None => default,
    }
}

/// Seconds between two runs of a system collector without an `interval` setting.
pub const SYSTEM_DEFAULT_INTERVAL_SECS: u64 = 30;
/// Seconds between two runs of a custom collector without an `interval` setting.
pub const CUSTOM_DEFAULT_INTERVAL_SECS: u64 = 60;

/// The program and arguments of a custom collector's `command` setting, split at white
/// space; `None` when the setting has no word.
pub fn custom_command(command: &str) -> (r: Option<(String, Vec<String>)>)
    ensures
        words(command@).len() == 0 ==> r is None,
        words(command@).len() > 0 ==> (r matches Some((program, args)) && program@ == words(command@)[0]
            && args@.map_values(|w: String| w@) == words(command@).drop_first()),
{
    let mut parts = split_words(command);
    proof {
        assert(parts@.map_values(|w: String| w@).len() == parts@.len());
    }
    if parts.len() == 0 {
        return None;
    }
    let program = parts.remove(0);
    proof {
        let before = words(command@);
        assert(parts@.map_values(|w: String| w@) =~= before.drop_first());
    }
    Some((program, parts))
}

/// The `command` setting of a custom collector (empty when missing).
pub fn custom_command_setting(config: &CollectorConfig) -> (r: String)
    ensures
        r@ == match config.config.command { Some(c) => c@, None => Seq::<char>::empty() },
{
    match &config.config.command {
        Some(c) => c.clone(),
        None => String::new(),
    }
}

/// Seconds between two synthetic log records.
pub const LOG_INTERVAL_SECS: u64 = 10;

/// The three samples of one system probe, labelled with the collector's name and sharing
/// one timestamp: CPU, memory and disk usage, in that order.
pub fn system_samples(collector: &str, probe: SystemMetrics, timestamp: i64) -> (r: Vec<MetricData>)
    ensures
        r@.len() == 3,
        r@[0].name@ == "system_cpu_usage"@ && r@[0].value == MetricValue::Float(probe.cpu_usage),
        r@[1].name@ == "system_memory_usage"@ && r@[1].value == MetricValue::Float(probe.memory_usage),
        r@[2].name@ == "system_disk_usage"@ && r@[2].value == MetricValue::Float(probe.disk_usage),
        forall|i: int| 0 <= i < 3 ==> {
            &&& (#[trigger] r@[i]).timestamp == timestamp
            &&& r@[i].labels.wf()
            &&& r@[i].labels.view_map().dom() == set!["collector"@]
            &&& r@[i].labels.view_map()["collector"@]@ == collector@
        },
{
    let mut out: Vec<MetricData> = Vec::new();
    out.push(MetricData {
        name: "system_cpu_usage".to_owned(),
        value: MetricValue::Float(probe.cpu_usage),
        labels: single_label("collector", collector),
        timestamp,
    });
    out.push(MetricData {
        name: "system_memory_usage".to_owned(),
        value: MetricValue::Float(probe.memory_usage),
        labels: single_label("collector", collector),
        timestamp,
    });
    out.push(MetricData {
        name: "system_disk_usage".to_owned(),
        value: MetricValue::Float(probe.disk_usage),
        labels: single_label("collector", collector),
        timestamp,
    });
    out
}

/// The record a log collector emits on each tick (a stand-in until files are followed).
pub fn sample_log(collector: &str, timestamp: i64) -> (r: LogData)
    ensures
        r.level@ == "INFO"@,
        r.message@ == "Sample log message"@,
        r.source@ == collector@,
        r.timestamp == timestamp,
        r.labels.wf(),
        r.labels.view_map().dom().len() == 0,
{
    LogData {
        level: "INFO".to_owned(),
        message: "Sample log message".to_owned(),
        source: collector.to_owned(),
        timestamp,
        labels: Labels::new(),
    }
}

/// The metric a custom collector emits for a reading: `custom_<collector>`, without labels.
pub fn custom_sample(collector: &str, value: u64, timestamp: i64) -> (r: MetricData)
    ensures
        r.name@ == "custom_"@ + collector@,
        r.value == MetricValue::Float(value),
        r.timestamp == timestamp,
        r.labels.wf(),
        r.labels.view_map().dom().len() == 0,
{
    MetricData { name: join2("custom_", collector), value: MetricValue::Float(value), labels: Labels::new(), timestamp }
}

/// The indices of the entries of `flags` that are set, in order.
pub open spec fn set_indices(flags: Seq<bool>) -> Seq<usize>
    decreases flags.len(),
{
    if flags.len() == 0 {
        Seq::empty()
    } else if flags.last() {
        set_indices(flags.drop_last()).push((flags.len() - 1) as usize)
    } else {
        set_indices(flags.drop_last())
    }
}

/// The telemetry pipeline's configuration and its choice of what to start.
pub struct DataPlane {
    pub config: DataPlaneConfig,
}

impl DataPlane {
    pub fn new(config: DataPlaneConfig) -> (r: Self)
        ensures
            r.config == config,
    {
        DataPlane { config }
    }

    /// The capacity of each channel between collectors and exporters.
    pub fn channel_capacity(&self) -> (r: usize)
        ensures
            r == self.config.buffer_size,
    {
        self.config.buffer_size
    }

    /// The collectors to start: the enabled ones, in configuration order.
    pub fn enabled_collectors(&self) -> (r: Vec<usize>)
        ensures
            r@ == set_indices(self.config.collectors@.map_values(|c: CollectorConfig| c.enabled)),
    {
        let ghost flags = self.config.collectors@.map_values(|c: CollectorConfig| c.enabled);
        let mut out: Vec<usize> = Vec::new();
        let mut i: usize = 0;
        while i < self.config.collectors.len()
            invariant
                i <= self.config.collectors@.len(),
                flags == self.config.collectors@.map_values(|c: CollectorConfig| c.enabled),
                out@ == set_indices(flags.subrange(0, i as int)),
            decreases self.config.collectors@.len() - i,
        {
            proof {
                assert(flags.subrange(0, i + 1).drop_last() =~= flags.subrange(0, i as int));
            }
            if self.config.collectors[i].enabled {
                out.push(i);
            }
            i = i + 1;
        }
        proof {
            assert(flags.subrange(0, i as int) =~= flags);
        }
        out
    }

    /// The exporters to start: the enabled ones, in configuration order. Each needs its own
    /// channels: a receiver serves exactly one exporter.
    pub fn enabled_exporters(&self) -> (r: Vec<usize>)
        ensures
            r@ == set_indices(self.config.exporters@.map_values(|c: ExporterConfig| c.enabled)),
    {
        let ghost flags = self.config.exporters@.map_values(|c: ExporterConfig| c.enabled);
        let mut out: Vec<usize> = Vec::new();
        let mut i: usize = 0;
        while i < self.config.exporters.len()
            invariant
                i <= self.config.exporters@.len(),
                flags == self.config.exporters@.map_values(|c: ExporterConfig| c.enabled),
                out@ == set_indices(flags.subrange(0, i as int)),
            decreases self.config.exporters@.len() - i,
        {
            proof {
                assert(flags.subrange(0, i + 1).drop_last() =~= flags.subrange(0, i as int));
            }
            if self.config.exporters[i].enabled {
                out.push(i);
            }
            i = i + 1;
        }
        proof {
            assert(flags.subrange(0, i as int) =~= flags);
        }
        out
    }
}

} // verus!
