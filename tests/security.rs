use host_agent::error::AgentError;
use host_agent::security::{SecurityConfig, SecurityValidator};

#[test]
fn test_command_validation() {
    let validator = SecurityValidator::new(SecurityConfig::default());

    assert!(validator.validate_command("ls").is_ok());
    assert!(validator.validate_command("rm").is_err());
}

#[test]
fn test_path_validation() {
    let validator = SecurityValidator::new(SecurityConfig::default());

    assert!(validator.validate_path("/tmp/test.txt").is_ok());
    assert!(validator.validate_path("/etc/passwd").is_err());
}

#[test]
fn command_allowlist_is_exact_and_can_be_switched_off() {
    let validator = SecurityValidator::new(SecurityConfig::default());
    assert!(validator.validate_command("ls -la").is_err());
    assert!(validator.validate_command("LS").is_err());
    match validator.validate_command("rm") {
        Err(AgentError::SecurityError(m)) => assert_eq!(m, "Command 'rm' is not allowed"),
        _ => panic!("expected a security error"),
    }
    let mut config = SecurityConfig::default();
    config.enable_command_whitelist = false;
    let open = SecurityValidator::new(config);
    assert!(open.validate_command("rm").is_ok());
}

#[test]
fn path_prefix_is_literal() {
    let validator = SecurityValidator::new(SecurityConfig::default());
    assert!(validator.validate_path("/tmpfoo").is_ok());
    assert!(validator.validate_path("/var/log/syslog").is_ok());
    assert!(validator.validate_path("C:\\temp\\a.txt").is_ok());
    assert!(validator.validate_path("/tm").is_err());
    assert!(validator.validate_path("").is_err());
    match validator.validate_path("/etc/passwd") {
        Err(AgentError::SecurityError(m)) => assert_eq!(m, "Path '/etc/passwd' is not allowed"),
        _ => panic!("expected a security error"),
    }
    let mut config = SecurityConfig::default();
    config.enable_path_restriction = false;
    assert!(SecurityValidator::new(config).validate_path("/etc/passwd").is_ok());
}

#[test]
fn file_size_limit() {
    let validator = SecurityValidator::new(SecurityConfig::default());
    assert!(validator.validate_file_size(104_857_600).is_ok());
    assert!(validator.validate_file_size(0).is_ok());
    match validator.validate_file_size(104_857_601) {
        Err(AgentError::SecurityError(m)) => {
            assert_eq!(m, "File size 104857601 exceeds maximum allowed size 104857600")
        }
        _ => panic!("expected a security error"),
    }
}

#[test]
fn error_message_names_the_kind() {
    assert_eq!(AgentError::ConfigError("bad".to_string()).message(), "Configuration error: bad");
    assert_eq!(AgentError::DataPlaneError("x".to_string()).message(), "Data plane error: x");
    assert_eq!(AgentError::ResourceError(String::new()).message(), "Resource error: ");
}
