use host_agent::config::ControlPlaneConfig;
use host_agent::control_plane::{
    command_result, complete_deploy, complete_execute, read_payload, CommandPlan, ControlPlane, Outcome,
    ProcessOutput, TickAction, WorkResult,
};
use host_agent::security::{SecurityConfig, SecurityValidator};
use host_agent::types::{AgentInfo, Command, CommandType};

fn plane(allowed: &[&str], platform: &str, api_key: Option<&str>) -> ControlPlane {
    let mut sec = SecurityConfig::default();
    sec.allowed_commands = allowed.iter().map(|s| s.to_string()).collect();
    ControlPlane::new(
        ControlPlaneConfig {
            enabled: true,
            server_url: "http://ctl".to_string(),
            api_key: api_key.map(|k| k.to_string()),
            poll_interval: 1,
            max_concurrent_commands: 1,
        },
        AgentInfo {
            id: 0x0123_4567_89ab_cdef_0011_2233_4455_6677,
            hostname: "h".to_string(),
            platform: platform.to_string(),
            arch: "x86_64".to_string(),
            version: "0.1.0".to_string(),
            last_heartbeat: 0,
        },
        SecurityValidator::new(sec),
    )
}

fn command(kind: CommandType, payload: &str) -> Command {
    Command { id: 5, command_type: kind, payload: serde_json::from_str(payload).unwrap(), timeout: None }
}

#[test]
fn disallowed_command_is_rejected_before_running() {
    let cp = plane(&["ls"], "linux", None);
    let cmd = command(CommandType::Execute, r#"{"command": "rm", "args": ["-rf", "/"]}"#);
    let plan = cp.plan_command(cmd.command_type, &read_payload(&cmd.payload));
    let outcome = match plan {
        CommandPlan::Done(o) => o,
        _ => panic!("a rejected command must not run"),
    };
    let result = command_result(cmd.id, outcome, 3);
    assert!(!result.success);
    assert!(result.error.as_ref().unwrap().starts_with("Security validation failed"));
    assert_eq!(result.command_id, 5);
    assert_eq!(result.execution_time, 3);
}

#[test]
fn allowed_command_runs_with_its_arguments() {
    let cp = plane(&["ls"], "linux", None);
    let cmd = command(CommandType::Execute, r#"{"command": "ls", "args": ["-l", 3, "/tmp"]}"#);
    match cp.plan_command(cmd.command_type, &read_payload(&cmd.payload)) {
        CommandPlan::Run { program, args } => {
            assert_eq!(program, "ls");
            assert_eq!(args, vec!["-l".to_string(), "/tmp".to_string()]);
        }
        _ => panic!("expected a run"),
    }
    let done = cp.finish_command(
        cmd.command_type,
        &read_payload(&cmd.payload),
        CommandPlan::Run { program: "ls".to_string(), args: vec![] },
        WorkResult::Process(Ok(ProcessOutput { success: true, stdout: "a\n".to_string(), stderr: String::new() })),
    );
    assert!(done.success);
    assert_eq!(done.output, "a\n");
}

#[test]
fn failed_process_always_has_an_error() {
    let o = complete_execute(Ok(ProcessOutput { success: false, stdout: "partial".to_string(), stderr: String::new() }));
    assert!(!o.success);
    assert_eq!(o.output, "partial");
    assert!(!o.error.unwrap().is_empty());
    let o2 = complete_execute(Ok(ProcessOutput { success: false, stdout: String::new(), stderr: "bad".to_string() }));
    assert_eq!(o2.error.unwrap(), "bad");
    let o3 = complete_execute(Err(String::new()));
    assert!(!o3.error.unwrap().is_empty());
}

#[test]
fn deploy_checks_both_paths() {
    let cp = plane(&["ls"], "linux", None);
    match cp.plan_command(CommandType::Deploy, &read_payload(&serde_json::from_str(r#"{"source": "/etc/shadow", "destination": "/tmp/x"}"#).unwrap())) {
        CommandPlan::Done(o) => assert_eq!(
            o.error.unwrap(),
            "Source path validation failed: Security error: Path '/etc/shadow' is not allowed"
        ),
        _ => panic!("expected a rejection"),
    }
    match cp.plan_command(CommandType::Deploy, &read_payload(&serde_json::from_str(r#"{"source": "/tmp/a", "destination": "/root/b"}"#).unwrap())) {
        CommandPlan::Done(o) => assert!(o.error.unwrap().starts_with("Destination path validation failed")),
        _ => panic!("expected a rejection"),
    }
    match cp.plan_command(CommandType::Deploy, &read_payload(&serde_json::from_str(r#"{"source": "/tmp/a", "destination": "/var/log/b"}"#).unwrap())) {
        CommandPlan::Copy { source, destination } => {
            assert_eq!(source, "/tmp/a");
            assert_eq!(destination, "/var/log/b");
        }
        _ => panic!("expected a copy"),
    }
    let o = complete_deploy("/tmp/a", "/var/log/b", Ok(()));
    assert_eq!(o.output, "File deployed from /tmp/a to /var/log/b");
}

#[test]
fn configure_writes_pretty_json() {
    let cp = plane(&["ls"], "linux", None);
    match cp.plan_command(CommandType::Configure, &read_payload(&serde_json::from_str(r#"{"path": "/tmp/c.json", "config": {"a": 1}}"#).unwrap())) {
        CommandPlan::Write { path, contents } => {
            assert_eq!(path, "/tmp/c.json");
            assert_eq!(contents, "{\n  \"a\": 1\n}");
        }
        _ => panic!("expected a write"),
    }
}

#[test]
fn monitor_and_stop() {
    let cp = plane(&["ls"], "linux", None);
    match cp.plan_command(CommandType::Monitor, &read_payload(&serde_json::from_str("{}").unwrap())) {
        CommandPlan::Done(o) => {
            assert!(o.success);
            assert_eq!(o.output, "Monitoring configuration updated");
        }
        _ => panic!("expected an acknowledgement"),
    }
    match cp.plan_command(CommandType::Stop, &read_payload(&serde_json::from_str(r#"{"process": "nginx"}"#).unwrap())) {
        CommandPlan::Run { program, args } => {
            assert_eq!(program, "pkill");
            assert_eq!(args, vec!["nginx".to_string()]);
        }
        _ => panic!("expected a kill"),
    }
    let win = plane(&["ls"], "windows", None);
    match win.plan_command(CommandType::Stop, &read_payload(&serde_json::from_str(r#"{"process": "app.exe"}"#).unwrap())) {
        CommandPlan::Run { program, args } => {
            assert_eq!(program, "taskkill");
            assert_eq!(args, vec!["/F".to_string(), "/IM".to_string(), "app.exe".to_string()]);
        }
        _ => panic!("expected a kill"),
    }
}

#[test]
fn addresses_and_headers() {
    let cp = plane(&["ls"], "linux", Some("k1"));
    assert_eq!(cp.register_url(), "http://ctl/api/agents/register");
    assert_eq!(cp.heartbeat_url(), "http://ctl/api/agents/01234567-89ab-cdef-0011-223344556677/heartbeat");
    assert_eq!(cp.commands_url(), "http://ctl/api/agents/01234567-89ab-cdef-0011-223344556677/commands");
    assert_eq!(cp.result_url(1), "http://ctl/api/commands/00000000-0000-0000-0000-000000000001/result");
    assert_eq!(cp.authorization(), Some("Bearer k1".to_string()));
    assert_eq!(plane(&[], "linux", None).authorization(), None);
}

#[test]
fn open_circuit_cools_off() {
    let cp = plane(&["ls"], "linux", None);
    assert_eq!(cp.tick_action(true), TickAction::CoolOff(30_000));
    assert_eq!(cp.tick_action(false), TickAction::Work);
}

#[test]
fn finished_plans_keep_their_outcome_and_work_is_reported() {
    let cp = plane(&["ls"], "linux", None);
    let cmd = command(CommandType::Execute, r#"{"command": "rm"}"#);
    let payload = read_payload(&cmd.payload);
    let plan = cp.plan_command(CommandType::Execute, &payload);
    let outcome = cp.finish_command(CommandType::Execute, &payload, plan, WorkResult::File(Ok(())));
    assert!(!outcome.success);
    assert!(outcome.error.unwrap().starts_with("Security validation failed"));
    let deploy = read_payload(&serde_json::from_str(r#"{"source": "/tmp/a", "destination": "/tmp/b"}"#).unwrap());
    let plan = cp.plan_command(CommandType::Deploy, &deploy);
    let ok = cp.finish_command(CommandType::Deploy, &deploy, plan, WorkResult::File(Ok(())));
    assert!(ok.success);
    assert_eq!(ok.output, "File deployed from /tmp/a to /tmp/b");
    let plan = cp.plan_command(CommandType::Deploy, &deploy);
    let wrong = cp.finish_command(CommandType::Deploy, &deploy, plan, WorkResult::Process(Err("x".to_string())));
    assert!(!wrong.success);
    let stop = read_payload(&serde_json::from_str(r#"{"process": "nginx"}"#).unwrap());
    let plan = cp.plan_command(CommandType::Stop, &stop);
    let out = ProcessOutput { success: true, stdout: String::new(), stderr: String::new() };
    let stopped = cp.finish_command(CommandType::Stop, &stop, plan, WorkResult::Process(Ok(out)));
    assert_eq!(stopped.output, "Process nginx stopped");
}

#[test]
fn successful_outcome_keeps_no_error() {
    let r = command_result(9, Outcome { success: true, output: "x".to_string(), error: None }, 1);
    assert!(r.success);
    assert!(r.error.is_none());
}
