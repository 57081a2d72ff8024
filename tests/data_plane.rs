use host_agent::config::{read_collector_settings, AgentConfig, CollectorConfig, DataPlaneConfig, ExporterConfig};
use host_agent::data_plane::{
    collector_interval, collector_kind, custom_command, custom_command_setting, custom_sample, exporter_kind, frame_line, sample_log,
    system_samples, Batch, CollectorKind, DataPlane, ExporterKind, FileExporter, HttpExporter,
};
use host_agent::error::AgentError;
use host_agent::platform::SystemMetrics;
use host_agent::types::{Labels, MetricData, MetricValue};

fn exporter(kind: &str, batch: usize, enabled: bool) -> ExporterConfig {
    ExporterConfig {
        name: "e".to_string(),
        exporter_type: kind.to_string(),
        endpoint: "http://sink/metrics".to_string(),
        headers: vec![],
        batch_size: batch,
        enabled,
    }
}

fn collector(kind: &str, settings: &str, enabled: bool) -> CollectorConfig {
    CollectorConfig {
        name: "c".to_string(),
        collector_type: kind.to_string(),
        config: read_collector_settings(&serde_json::from_str(settings).unwrap()),
        enabled,
    }
}

fn sample(v: u64) -> MetricData {
    MetricData { name: "v".to_string(), value: MetricValue::Integer(v), labels: Labels::new(), timestamp: 0 }
}

#[test]
fn exporter_posts_full_batches_then_flushes_the_rest() {
    let mut e = HttpExporter::new(exporter("http", 3, true));
    assert!(e.on_metric(sample(1)).is_none());
    assert!(e.on_metric(sample(2)).is_none());
    let batch = e.on_metric(sample(3)).expect("third sample completes a batch");
    let values: Vec<MetricValue> = batch.iter().map(|m| m.value).collect();
    assert_eq!(values, vec![MetricValue::Integer(1), MetricValue::Integer(2), MetricValue::Integer(3)]);
    assert!(e.on_metric(sample(4)).is_none());
    let (metrics, logs) = e.on_flush_tick();
    let rest = metrics.expect("the fourth sample is flushed by the timer");
    assert_eq!(rest.len(), 1);
    assert_eq!(rest[0].value, MetricValue::Integer(4));
    assert!(logs.is_none());
    let (m2, l2) = e.on_flush_tick();
    assert!(m2.is_none() && l2.is_none());
    assert_eq!(e.logs_endpoint(), "http://sink/metrics/logs");
    assert_eq!(e.metrics_endpoint(), "http://sink/metrics");
}

#[test]
fn logs_batch_separately() {
    let mut e = HttpExporter::new(exporter("http", 2, true));
    assert!(e.on_log(sample_log("c", 1)).is_none());
    assert!(e.on_metric(sample(1)).is_none());
    let logs = e.on_log(sample_log("c", 2)).unwrap();
    assert_eq!(logs.len(), 2);
    assert_eq!(logs[1].timestamp, 2);
}

#[test]
fn batch_of_one_leaves_at_once() {
    let mut b: Batch<u8> = Batch::new(1);
    assert_eq!(b.push(7), Some(vec![7]));
    assert!(b.items.is_empty());
    assert_eq!(b.flush(), None);
}

#[test]
fn file_exporter_paths_and_lines() {
    let f = FileExporter::new(exporter("file", 1, true));
    assert_eq!(f.metrics_path(), "http://sink/metrics");
    assert_eq!(f.logs_path(), "http://sink/metrics.log");
    assert_eq!(frame_line("{}"), "{}\n");
}

#[test]
fn kinds_are_recognised() {
    assert_eq!(collector_kind(&collector("system", "{}", true)).ok(), Some(CollectorKind::System));
    assert_eq!(collector_kind(&collector("log", "{}", true)).ok(), Some(CollectorKind::Log));
    assert_eq!(collector_kind(&collector("custom", "{}", true)).ok(), Some(CollectorKind::Custom));
    match collector_kind(&collector("gpu", "{}", true)) {
        Err(AgentError::DataPlaneError(m)) => assert_eq!(m, "Unknown collector type: gpu"),
        _ => panic!("expected an error"),
    }
    assert_eq!(exporter_kind(&exporter("http", 1, true)).ok(), Some(ExporterKind::Http));
    assert_eq!(exporter_kind(&exporter("file", 1, true)).ok(), Some(ExporterKind::File));
    match exporter_kind(&exporter("kafka", 1, true)) {
        Err(AgentError::DataPlaneError(m)) => assert_eq!(m, "Unknown exporter type: kafka"),
        _ => panic!("expected an error"),
    }
}

#[test]
fn intervals_and_custom_commands() {
    assert_eq!(collector_interval(&collector("system", r#"{"interval": 5}"#, true), 30), 5);
    assert_eq!(collector_interval(&collector("system", r#"{"interval": "5"}"#, true), 30), 30);
    assert_eq!(collector_interval(&collector("system", "{}", true), 30), 30);
    let (program, args) = custom_command("  df  -h\t/ ").unwrap();
    assert_eq!(program, "df");
    assert_eq!(args, vec!["-h".to_string(), "/".to_string()]);
    assert!(custom_command(" \n ").is_none());
    assert!(custom_command("").is_none());
    let custom = collector("custom", r#"{"command": "uptime -p", "interval": 7}"#, true);
    assert_eq!(custom_command_setting(&custom), "uptime -p");
    assert_eq!(collector_interval(&custom, 60), 7);
    assert_eq!(custom_command_setting(&collector("custom", "{}", true)), "");
    let m = custom_sample("load", 2.5f64.to_bits(), 9);
    assert_eq!(m.name, "custom_load");
    assert_eq!(m.value, MetricValue::Float(2.5f64.to_bits()));
}

#[test]
fn system_probe_gives_three_samples_with_one_timestamp() {
    let probe = SystemMetrics { cpu_usage: 1.0f64.to_bits(), memory_usage: 2.0f64.to_bits(), disk_usage: 3.0f64.to_bits() };
    let s = system_samples("sys", probe, 123);
    assert_eq!(s.len(), 3);
    assert_eq!(s[0].name, "system_cpu_usage");
    assert_eq!(s[1].name, "system_memory_usage");
    assert_eq!(s[2].name, "system_disk_usage");
    assert!(s.iter().all(|m| m.timestamp == 123));
    assert_eq!(s[2].labels.entries, vec![("collector".to_string(), "sys".to_string())]);
}

#[test]
fn only_enabled_parts_start() {
    let dp = DataPlane::new(DataPlaneConfig {
        enabled: true,
        collectors: vec![collector("system", "{}", true), collector("log", "{}", false), collector("custom", "{}", true)],
        exporters: vec![exporter("http", 1, false), exporter("file", 1, true)],
        buffer_size: 1000,
        flush_interval: 60,
    });
    assert_eq!(dp.enabled_collectors(), vec![0, 2]);
    assert_eq!(dp.enabled_exporters(), vec![1]);
    assert_eq!(dp.channel_capacity(), 1000);
}

#[test]
fn default_configuration() {
    let c = AgentConfig::default();
    assert!(c.agent.id.is_some());
    assert_eq!(c.control_plane.server_url, "http://localhost:8080");
    assert_eq!(c.data_plane.collectors.len(), 1);
    assert_eq!(collector_interval(&c.data_plane.collectors[0], 99), 30);
    assert_eq!(c.data_plane.collectors[0].config.metrics, vec!["cpu".to_string(), "memory".to_string(), "disk".to_string()]);
    assert_eq!(c.data_plane.exporters[0].batch_size, 100);
}
