use host_agent::metrics::{AgentMetrics, MetricRegistry, SystemMetricsCollector};
use host_agent::platform::SystemMetrics;
use host_agent::types::{Labels, MetricValue};

fn labels(k: &str, v: &str) -> Labels {
    let mut l = Labels::new();
    l.insert(k.to_string(), v.to_string());
    l
}

fn one() -> MetricValue {
    MetricValue::Float(1.0f64.to_bits())
}

#[test]
fn eviction_after_max_age() {
    let mut r = MetricRegistry::new();
    r.record_metric("m", one(), Labels::new(), 0);
    assert_eq!(r.get_metric_count(), 1);
    r.cleanup_old_metrics(3_600_000, 3_700_000);
    assert_eq!(r.get_metric_count(), 0);
}

#[test]
fn eviction_keeps_younger_entries() {
    let mut r = MetricRegistry::new();
    r.record_metric("old", one(), Labels::new(), 1_000);
    r.record_metric("edge", one(), Labels::new(), 2_000);
    r.record_metric("young", one(), Labels::new(), 2_001);
    r.cleanup_old_metrics(1_000, 3_000);
    let all = r.get_all_metrics(0);
    assert_eq!(all.len(), 1);
    assert_eq!(all[0].name, "young");
}

#[test]
fn eviction_with_age_beyond_now_keeps_everything() {
    let mut r = MetricRegistry::new();
    r.record_metric("a", one(), Labels::new(), 0);
    r.cleanup_old_metrics(10_000, 5_000);
    assert_eq!(r.get_metric_count(), 1);
}

#[test]
fn recording_twice_equals_recording_once() {
    let mut once = MetricRegistry::new();
    once.record_metric("n", one(), labels("k", "v"), 5);
    let mut twice = MetricRegistry::new();
    twice.record_metric("n", one(), labels("k", "v"), 5);
    twice.record_metric("n", one(), labels("k", "v"), 5);
    assert_eq!(once.get_metric_count(), twice.get_metric_count());
    assert_eq!(twice.entries[0].0, "n");
    assert_eq!(twice.entries[0].1.value, once.entries[0].1.value);
    assert_eq!(twice.entries[0].1.last_updated, once.entries[0].1.last_updated);
    assert_eq!(twice.entries[0].1.labels.entries, once.entries[0].1.labels.entries);
}

#[test]
fn one_entry_per_name_last_writer_wins() {
    let mut r = MetricRegistry::new();
    r.record_metric("cpu", MetricValue::Integer(1), Labels::new(), 1);
    r.record_metric("mem", MetricValue::Integer(2), Labels::new(), 2);
    r.record_metric("cpu", MetricValue::Integer(3), Labels::new(), 3);
    assert_eq!(r.get_metric_count(), 2);
    let all = r.get_all_metrics(42);
    assert_eq!(all[0].name, "cpu");
    assert_eq!(all[0].value, MetricValue::Integer(3));
    assert!(all.iter().all(|m| m.timestamp == 42));
}

#[test]
fn stamp_never_moves_back() {
    let mut r = MetricRegistry::new();
    r.record_metric("a", one(), Labels::new(), 100);
    r.record_metric("a", one(), Labels::new(), 50);
    assert_eq!(r.entries[0].1.last_updated, 100);
}

#[test]
fn host_figures_are_recorded() {
    let mut r = MetricRegistry::new();
    let probe = SystemMetrics { cpu_usage: 50.0f64.to_bits(), memory_usage: 20.5f64.to_bits(), disk_usage: 0 };
    SystemMetricsCollector::new().collect_all(&mut r, probe, 10);
    assert_eq!(r.get_metric_count(), 5);
    let names: Vec<String> = r.get_all_metrics(0).into_iter().map(|m| m.name).collect();
    assert_eq!(
        names,
        vec!["cpu_usage_percent", "memory_usage_percent", "disk_usage_percent", "network_bytes_sent", "network_bytes_received"]
    );
    assert_eq!(r.entries[1].1.value, MetricValue::Float(20.5f64.to_bits()));
    assert_eq!(r.entries[0].1.labels.entries, vec![("type".to_string(), "system".to_string())]);
}

#[test]
fn agent_figures_are_recorded() {
    let mut r = MetricRegistry::new();
    let a = AgentMetrics::new(1_000);
    a.record_uptime(&mut r, 62_500);
    a.record_command_execution(&mut r, 250, false, 62_500);
    a.record_data_export(&mut r, 7, "http_exporter", 62_500);
    a.record_memory_usage(&mut r, 62_500);
    let all = r.get_all_metrics(0);
    assert_eq!(all[0].name, "agent_uptime_seconds");
    assert_eq!(all[0].value, MetricValue::Integer(61));
    assert_eq!(all[1].value, MetricValue::Integer(250));
    assert_eq!(
        all[1].labels.entries,
        vec![("type".to_string(), "command".to_string()), ("success".to_string(), "false".to_string())]
    );
    assert_eq!(all[2].labels.entries, vec![("exporter".to_string(), "http_exporter".to_string())]);
    assert_eq!(all[3].name, "agent_memory_bytes");
}

#[test]
fn labels_replace_duplicate_keys() {
    let mut l = Labels::new();
    l.insert("a".to_string(), "1".to_string());
    l.insert("b".to_string(), "2".to_string());
    l.insert("a".to_string(), "3".to_string());
    assert_eq!(l.len(), 2);
    assert_eq!(l.entries[0], ("a".to_string(), "3".to_string()));
}
