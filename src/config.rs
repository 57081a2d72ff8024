use vstd::prelude::*;
use crate::control_plane::copy_texts;
use crate::json::{member_str, member_texts, member_u64};

verus! {

/// The agent's whole configuration.
pub struct AgentConfig {
    pub agent: AgentSettings,
    pub control_plane: ControlPlaneConfig,
    pub data_plane: DataPlaneConfig,
}

/// Settings of the agent itself. `id` is a UUID as a 128-bit integer.
pub struct AgentSettings {
    pub id: Option<u128>,
    pub name: String,
    pub tags: Vec<String>,
    pub heartbeat_interval: u64,
    pub command_timeout: u64,
    pub enable_http_server: Option<bool>,
    pub http_port: Option<u16>,
    pub log_level: Option<String>,
    pub max_log_files: Option<u32>,
    pub log_file_size_mb: Option<u32>,
}

/// Where the control server is and how to talk to it.
pub struct ControlPlaneConfig {
    pub enabled: bool,
    pub server_url: String,
    pub api_key: Option<String>,
    pub poll_interval: u64,
    pub max_concurrent_commands: usize,
}

/// Telemetry pipeline settings: the collectors, the exporters, the channel capacity.
pub struct DataPlaneConfig {
    pub enabled: bool,
    pub collectors: Vec<CollectorConfig>,
    pub exporters: Vec<ExporterConfig>,
    pub buffer_size: usize,
    pub flush_interval: u64,
}

/// One collector: its name, its kind (`system`, `log` or `custom`) and kind-specific settings.
pub struct CollectorConfig {
    pub name: String,
    pub collector_type: String,
    pub config: CollectorSettings,
    pub enabled: bool,
}

/// The kind-specific settings of a collector: seconds between runs, the command of a
/// custom collector, and the figures a system collector reports.
pub struct CollectorSettings {
    pub interval: Option<u64>,
    pub command: Option<String>,
    pub metrics: Vec<String>,
}

impl CollectorSettings {
    /// An independent copy.
    pub fn copied(&self) -> (r: Self)
        ensures
            r.interval == self.interval,
            r.command == self.command,
            r.metrics@ == self.metrics@,
    {
        CollectorSettings {
            interval: self.interval,
            command: match &self.command {
                Some(c) => Some(c.clone()),
                None => None,
            },
            metrics: copy_texts(&self.metrics),
        }
    }
}

/// The settings found in a collector's JSON settings document: `interval` when it is a
/// non-negative integer, `command` when it is a string, the string elements of `metrics`.
pub fn read_collector_settings(v: &serde_json::Value) -> (r: CollectorSettings) {
    CollectorSettings {
        interval: member_u64(v, "interval"),
        command: member_str(v, "command"),
        metrics: member_texts(v, "metrics"),
    }
}

/// One exporter: its name, its kind (`http` or `file`), its destination and batch size.
pub struct ExporterConfig {
    pub name: String,
    pub exporter_type: String,
    pub endpoint: String,
    pub headers: Vec<(String, String)>,
    pub batch_size: usize,
    pub enabled: bool,
}

/// Relies on uuid's `Uuid::new_v4` and `as_u128`: a fresh random UUID as a 128-bit integer.
#[verifier::external_body]
fn fresh_id() -> (r: u128) {
    uuid::Uuid::new_v4().as_u128()
}

impl Default for AgentConfig {
    /// A configuration that runs everything locally: control server and HTTP exporter on
    /// localhost, one system collector every 30 seconds.
    fn default() -> (r: Self)
        ensures
            r.agent.id is Some,
            r.agent.name@ == "default-agent"@,
            r.agent.heartbeat_interval == 30,
            r.agent.command_timeout == 300,
            r.agent.enable_http_server == Some(true),
            r.agent.http_port == Some(8080u16),
            r.control_plane.enabled,
            r.control_plane.server_url@ == "http://localhost:8080"@,
            r.control_plane.api_key is None,
            r.control_plane.poll_interval == 10,
            r.control_plane.max_concurrent_commands == 5,
            r.data_plane.enabled,
            r.data_plane.collectors@.len() == 1,
            r.data_plane.collectors@[0].name@ == "system_metrics"@,
            r.data_plane.collectors@[0].collector_type@ == "system"@,
            r.data_plane.collectors@[0].enabled,
            r.data_plane.collectors@[0].config.interval == Some(30u64),
            r.data_plane.collectors@[0].config.command is None,
            r.data_plane.collectors@[0].config.metrics@.len() == 3,
            r.data_plane.collectors@[0].config.metrics@[0]@ == "cpu"@,
            r.data_plane.collectors@[0].config.metrics@[1]@ == "memory"@,
            r.data_plane.collectors@[0].config.metrics@[2]@ == "disk"@,
            r.data_plane.exporters@.len() == 1,
            r.data_plane.exporters@[0].name@ == "http_exporter"@,
            r.data_plane.exporters@[0].exporter_type@ == "http"@,
            r.data_plane.exporters@[0].endpoint@ == "http://localhost:8081/metrics"@,
            r.data_plane.exporters@[0].batch_size == 100,
            r.data_plane.exporters@[0].enabled,
            r.data_plane.buffer_size == 1000,
            r.data_plane.flush_interval == 60,
    {
        let mut headers: Vec<(String, String)> = Vec::new();
        headers.push(("Content-Type".to_owned(), "application/json".to_owned()));
        let mut tags: Vec<String> = Vec::new();
        tags.push("production".to_owned());
        let mut metrics: Vec<String> = Vec::new();
        metrics.push("cpu".to_owned());
        metrics.push("memory".to_owned());
        metrics.push("disk".to_owned());
        let collector_settings = CollectorSettings { interval: Some(30), command: None, metrics };
        let mut collectors: Vec<CollectorConfig> = Vec::new();
        collectors.push(CollectorConfig {
            name: "system_metrics".to_owned(),
            collector_type: "system".to_owned(),
            config: collector_settings,
            enabled: true,
        });
        let mut exporters: Vec<ExporterConfig> = Vec::new();
        exporters.push(ExporterConfig {
            name: "http_exporter".to_owned(),
            exporter_type: "http".to_owned(),
            endpoint: "http://localhost:8081/metrics".to_owned(),
            headers,
            batch_size: 100,
            enabled: true,
        });
        AgentConfig {
            agent: AgentSettings {
                id: Some(fresh_id()),
                name: "default-agent".to_owned(),
                tags,
                heartbeat_interval: 30,
                command_timeout: 300,
                enable_http_server: Some(true),
                http_port: Some(8080),
                log_level: Some("info".to_owned()),
                max_log_files: Some(10),
                log_file_size_mb: Some(100),
            },
            control_plane: ControlPlaneConfig {
                enabled: true,
                server_url: "http://localhost:8080".to_owned(),
                api_key: None,
                poll_interval: 10,
                max_concurrent_commands: 5,
            },
            data_plane: DataPlaneConfig {
                enabled: true,
                collectors,
                exporters,
                buffer_size: 1000,
                flush_interval: 60,
            },
        }
    }
}

impl ControlPlaneConfig {
    /// An independent copy.
    pub fn copied(&self) -> (r: Self)
        ensures
            r == *self,
    {
        ControlPlaneConfig {
            enabled: self.enabled,
            server_url: self.server_url.clone(),
            api_key: match &self.api_key {
                Some(k) => Some(k.clone()),
                None => None,
            },
            poll_interval: self.poll_interval,
            max_concurrent_commands: self.max_concurrent_commands,
        }
    }
}

impl CollectorConfig {
    /// An independent copy.
    pub fn copied(&self) -> (r: Self)
        ensures
            r.name == self.name,
            r.collector_type == self.collector_type,
            r.enabled == self.enabled,
            r.config.interval == self.config.interval,
            r.config.command == self.config.command,
            r.config.metrics@ == self.config.metrics@,
    {
        CollectorConfig {
            name: self.name.clone(),
            collector_type: self.collector_type.clone(),
            config: self.config.copied(),
            enabled: self.enabled,
        }
    }
}

impl ExporterConfig {
    /// Whether `o` holds the same settings.
    pub open spec fn same_as(&self, o: &ExporterConfig) -> bool {
        &&& self.name == o.name
        &&& self.exporter_type == o.exporter_type
        &&& self.endpoint == o.endpoint
        &&& self.headers@ == o.headers@
        &&& self.batch_size == o.batch_size
        &&& self.enabled == o.enabled
    }

    /// An independent copy.
    pub fn copied(&self) -> (r: Self)
        ensures
            r.same_as(self),
    {
        let mut headers: Vec<(String, String)> = Vec::new();
        let mut i: usize = 0;
        while i < self.headers.len()
            invariant
                i <= self.headers@.len(),
                headers@ == self.headers@.subrange(0, i as int),
            decreases self.headers@.len() - i,
        {
            headers.push((self.headers[i].0.clone(), self.headers[i].1.clone()));
            assert(headers@ =~= self.headers@.subrange(0, i + 1));
            i = i + 1;
        }
        assert(headers@ =~= self.headers@);
        ExporterConfig {
            name: self.name.clone(),
            exporter_type: self.exporter_type.clone(),
            endpoint: self.endpoint.clone(),
            headers,
            batch_size: self.batch_size,
            enabled: self.enabled,
        }
    }
}

impl DataPlaneConfig {
    /// An independent copy.
    pub fn copied(&self) -> (r: Self)
        ensures
            r.enabled == self.enabled,
            r.exporters@.len() == self.exporters@.len(),
            forall|i: int| 0 <= i < r.exporters@.len() ==> (#[trigger] r.exporters@[i]).same_as(&self.exporters@[i]),
            r.collectors@.len() == self.collectors@.len(),
            forall|i: int| 0 <= i < r.collectors@.len() ==> {
                &&& (#[trigger] r.collectors@[i]).name == self.collectors@[i].name
                &&& r.collectors@[i].collector_type == self.collectors@[i].collector_type
                &&& r.collectors@[i].enabled == self.collectors@[i].enabled
            },
            r.buffer_size == self.buffer_size,
            r.flush_interval == self.flush_interval,
    {
        let mut collectors: Vec<CollectorConfig> = Vec::new();
        let mut i: usize = 0;
        while i < self.collectors.len()
            invariant
                i <= self.collectors@.len(),
                collectors@.len() == i,
                forall|j: int| 0 <= j < i ==> {
                    &&& (#[trigger] collectors@[j]).name == self.collectors@[j].name
                    &&& collectors@[j].collector_type == self.collectors@[j].collector_type
                    &&& collectors@[j].enabled == self.collectors@[j].enabled
                },
            decreases self.collectors@.len() - i,
        {
            collectors.push(self.collectors[i].copied());
            i = i + 1;
        }
        let mut exporters: Vec<ExporterConfig> = Vec::new();
        let mut k: usize = 0;
        while k < self.exporters.len()
            invariant
                k <= self.exporters@.len(),
                exporters@.len() == k,
                forall|j: int| 0 <= j < k ==> (#[trigger] exporters@[j]).same_as(&self.exporters@[j]),
            decreases self.exporters@.len() - k,
        {
            exporters.push(self.exporters[k].copied());
            k = k + 1;
        }
        DataPlaneConfig {
            enabled: self.enabled,
            collectors,
            exporters,
            buffer_size: self.buffer_size,
            flush_interval: self.flush_interval,
        }
    }
}

} // verus!
