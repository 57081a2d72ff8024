use host_agent::config::ControlPlaneConfig;
use host_agent::control_plane::{ControlPlane, TickAction};
use host_agent::security::{SecurityConfig, SecurityValidator};
use host_agent::types::AgentInfo;
use host_agent::error::{ErrorRecovery, RetryManager, RetryStep};

#[test]
fn defaults() {
    let c = ErrorRecovery::default();
    assert_eq!(c.max_retries, 3);
    assert_eq!(c.retry_delay_ms, 1000);
    assert!(c.exponential_backoff);
    assert_eq!(c.circuit_breaker_threshold, 5);
}

#[test]
fn gives_up_after_max_retries_with_doubling_delays() {
    let mut m = RetryManager::new(ErrorRecovery::default());
    let mut a = m.begin();
    let mut runs = 0;
    let mut delays = Vec::new();
    loop {
        runs += 1;
        match m.record_failure(&mut a) {
            RetryStep::RetryAfter(d) => delays.push(d),
            RetryStep::GiveUp => break,
        }
    }
    assert_eq!(runs, 3);
    assert_eq!(delays, vec![1000, 2000]);
    assert_eq!(m.failure_count, 3);
}

#[test]
fn fixed_delay_without_backoff() {
    let config = ErrorRecovery { max_retries: 4, retry_delay_ms: 10, exponential_backoff: false, circuit_breaker_threshold: 5 };
    let mut m = RetryManager::new(config);
    let mut a = m.begin();
    assert_eq!(m.record_failure(&mut a), RetryStep::RetryAfter(10));
    assert_eq!(m.record_failure(&mut a), RetryStep::RetryAfter(10));
    assert_eq!(m.record_failure(&mut a), RetryStep::RetryAfter(10));
    assert_eq!(m.record_failure(&mut a), RetryStep::GiveUp);
}

#[test]
fn circuit_opens_at_threshold_and_success_closes_it() {
    let config = ErrorRecovery { max_retries: 3, retry_delay_ms: 1, exponential_backoff: true, circuit_breaker_threshold: 3 };
    let mut m = RetryManager::new(config);
    let mut a = m.begin();
    m.record_failure(&mut a);
    m.record_failure(&mut a);
    assert!(!m.is_circuit_open());
    m.record_failure(&mut a);
    assert!(m.is_circuit_open());
    m.record_success();
    assert_eq!(m.failure_count, 0);
    assert!(!m.is_circuit_open());
}

#[test]
fn reset_closes_the_circuit() {
    let config = ErrorRecovery { max_retries: 1, retry_delay_ms: 1, exponential_backoff: true, circuit_breaker_threshold: 1 };
    let mut m = RetryManager::new(config);
    let mut a = m.begin();
    assert_eq!(m.record_failure(&mut a), RetryStep::GiveUp);
    assert!(m.is_circuit_open());
    m.reset_circuit();
    assert!(!m.is_circuit_open());
}

#[test]
fn failing_server_opens_the_circuit_and_the_next_tick_cools_off() {
    let config = ErrorRecovery { max_retries: 3, retry_delay_ms: 1, exponential_backoff: true, circuit_breaker_threshold: 3 };
    let mut m = RetryManager::new(config);
    let cp = ControlPlane::new(
        ControlPlaneConfig { enabled: true, server_url: "http://s".to_string(), api_key: None, poll_interval: 1, max_concurrent_commands: 1 },
        AgentInfo {
            id: 1,
            hostname: "h".to_string(),
            platform: "linux".to_string(),
            arch: "x86_64".to_string(),
            version: "v".to_string(),
            last_heartbeat: 0,
        },
        SecurityValidator::new(SecurityConfig::default()),
    );
    assert_eq!(cp.tick_action(m.is_circuit_open()), TickAction::Work);
    let mut a = m.begin();
    while let RetryStep::RetryAfter(_) = m.record_failure(&mut a) {}
    assert!(m.failure_count >= 3);
    assert_eq!(cp.tick_action(m.is_circuit_open()), TickAction::CoolOff(30_000));
}
