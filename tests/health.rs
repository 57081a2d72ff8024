use host_agent::health::{
    classify_usage, usage_hundredths, CheckResult, CheckRun, ControlPlaneHealthCheck,
    DiskSpaceHealthCheck, HealthChecker, HealthState, MemoryHealthCheck,
};
use host_agent::server::status_code_for;
use host_agent::types::AgentInfo;

fn info() -> AgentInfo {
    AgentInfo {
        id: 7,
        hostname: "h".to_string(),
        platform: "linux".to_string(),
        arch: "x86_64".to_string(),
        version: "1.2.3".to_string(),
        last_heartbeat: 0,
    }
}

fn ok_run(name: &str, status: HealthState) -> CheckRun {
    CheckRun {
        name: name.to_string(),
        outcome: Ok(CheckResult { status, message: "m".to_string(), last_check: 5, duration_ms: 0 }),
        duration_ms: 3,
        finished_at: 9,
    }
}

#[test]
fn usage_bands_at_the_edges() {
    assert_eq!(classify_usage(8000, 8000), HealthState::Degraded);
    assert_eq!(classify_usage(9510, 8000), HealthState::Unhealthy);
    assert_eq!(classify_usage(7990, 8000), HealthState::Healthy);
    assert_eq!(classify_usage(9500, 8000), HealthState::Degraded);
}

#[test]
fn disk_and_memory_messages() {
    let disk = DiskSpaceHealthCheck::new("/".to_string(), 8000);
    let r = disk.evaluate(8150, 11);
    assert_eq!(r.status, HealthState::Degraded);
    assert_eq!(r.message, "Disk usage high: 81.5%");
    assert_eq!(r.last_check, 11);
    let mem = MemoryHealthCheck::new(8500);
    assert_eq!(mem.evaluate(9612, 0).message, "Memory usage critical: 96.1%");
    assert_eq!(mem.evaluate(1204, 0).message, "Memory usage normal: 12.0%");
    assert_eq!(disk.name(), "disk_space");
    assert_eq!(mem.name(), "memory_usage");
}

#[test]
fn usage_from_totals() {
    assert_eq!(usage_hundredths(1000, 250), Some(7500));
    assert_eq!(usage_hundredths(3, 2), Some(3333));
    assert_eq!(usage_hundredths(0, 0), None);
    assert_eq!(usage_hundredths(5, 6), None);
}

#[test]
fn control_plane_probe_results() {
    let c = ControlPlaneHealthCheck::new("http://server".to_string());
    assert_eq!(c.health_url(), "http://server/health");
    let ok = c.evaluate(Ok((204, "204 No Content".to_string())), 1);
    assert_eq!(ok.status, HealthState::Healthy);
    assert_eq!(ok.message, "Control plane is reachable");
    let bad = c.evaluate(Ok((500, "500 Internal Server Error".to_string())), 1);
    assert_eq!(bad.status, HealthState::Degraded);
    assert_eq!(bad.message, "Control plane returned status: 500 Internal Server Error");
    let down = c.evaluate(Err("refused".to_string()), 1);
    assert_eq!(down.status, HealthState::Unhealthy);
    assert_eq!(down.message, "Cannot reach control plane: refused");
}

#[test]
fn health_aggregation_flips_with_the_worst_check() {
    let mut checker: HealthChecker<u8> = HealthChecker::new(&info(), 1000);
    checker.register_check("a".to_string(), 1);
    checker.register_check("b".to_string(), 2);
    checker.register_check("c".to_string(), 3);
    let s = checker.get_health_status(
        vec![ok_run("a", HealthState::Healthy), ok_run("b", HealthState::Degraded), ok_run("c", HealthState::Healthy)],
        4500,
        77,
    );
    assert_eq!(s.status, HealthState::Degraded);
    assert_eq!(status_code_for(s.status), 200);
    assert_eq!(s.uptime, 3);
    assert_eq!(s.version, "1.2.3");
    assert_eq!(s.timestamp, 77);
    let s2 = checker.get_health_status(
        vec![ok_run("a", HealthState::Healthy), ok_run("b", HealthState::Unhealthy), ok_run("c", HealthState::Healthy)],
        4500,
        78,
    );
    assert_eq!(s2.status, HealthState::Unhealthy);
    assert_eq!(status_code_for(s2.status), 503);
}

#[test]
fn snapshot_has_one_result_per_registered_check() {
    let mut checker: HealthChecker<u8> = HealthChecker::new(&info(), 0);
    checker.register_check("disk_space".to_string(), 1);
    checker.register_check("memory_usage".to_string(), 2);
    let s = checker.get_health_status(
        vec![ok_run("disk_space", HealthState::Healthy), ok_run("memory_usage", HealthState::Degraded)],
        0,
        0,
    );
    let names: Vec<&str> = s.checks.iter().map(|(n, _)| n.as_str()).collect();
    assert_eq!(names, vec!["disk_space", "memory_usage"]);
    assert_eq!(s.status, HealthState::Degraded);
}

#[test]
fn empty_checker_is_healthy() {
    let checker: HealthChecker<u8> = HealthChecker::new(&info(), 0);
    let s = checker.get_health_status(Vec::new(), 0, 0);
    assert_eq!(s.status, HealthState::Healthy);
    assert!(s.checks.is_empty());
}

#[test]
fn failing_check_becomes_unhealthy() {
    let mut checker: HealthChecker<u8> = HealthChecker::new(&info(), 0);
    checker.register_check("x".to_string(), 0);
    let run = CheckRun { name: "x".to_string(), outcome: Err("boom".to_string()), duration_ms: 4, finished_at: 12 };
    let s = checker.get_health_status(vec![run], 10, 0);
    assert_eq!(s.status, HealthState::Unhealthy);
    assert_eq!(s.checks.len(), 1);
    assert_eq!(s.checks[0].0, "x");
    assert_eq!(s.checks[0].1.message, "Check failed: boom");
    assert_eq!(s.checks[0].1.duration_ms, 4);
    assert_eq!(s.checks[0].1.last_check, 12);
}

#[test]
fn registering_a_name_again_replaces_it() {
    let mut checker: HealthChecker<u8> = HealthChecker::new(&info(), 0);
    checker.register_check("disk_space".to_string(), 1);
    checker.register_check("memory_usage".to_string(), 2);
    checker.register_check("disk_space".to_string(), 9);
    assert_eq!(checker.checks().len(), 2);
    assert_eq!(checker.checks()[0].1, 9);
}
