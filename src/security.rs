use vstd::prelude::*;
use crate::error::AgentError;
use crate::text::{decimal, decimal_text, has_prefix, join2, join3, same_text, starts_with};

verus! {

/// What the agent may run and touch. Comparisons are exact: no normalisation, no
/// symbolic-link resolution, no canonicalisation of paths.
pub struct SecurityConfig {
    pub allowed_commands: Vec<String>,
    pub allowed_paths: Vec<String>,
    pub max_file_size: u64,
    pub enable_command_whitelist: bool,
    pub enable_path_restriction: bool,
}

/// Whether `c` is one of `allowed`.
pub open spec fn listed(allowed: Seq<String>, c: Seq<char>) -> bool {
    exists|i: int| 0 <= i < allowed.len() && allowed[i]@ == c
}

/// Whether `p` begins with one of `prefixes`.
pub open spec fn under_some(prefixes: Seq<String>, p: Seq<char>) -> bool {
    exists|i: int| 0 <= i < prefixes.len() && has_prefix(p, prefixes[i]@)
}

impl SecurityConfig {
    /// Whether `command` passes the allowlist.
    pub open spec fn command_allowed(&self, command: Seq<char>) -> bool {
        !self.enable_command_whitelist || listed(self.allowed_commands@, command)
    }

    /// Whether `path` passes the path restriction.
    pub open spec fn path_allowed(&self, path: Seq<char>) -> bool {
        !self.enable_path_restriction || under_some(self.allowed_paths@, path)
    }

    /// The default policy: `ls`, `dir`, `ps`, `systemctl`, `service`; the prefixes `/tmp`,
    /// `/var/log`, `C:\temp`, `C:\logs`; files up to 100 MiB; both checks on.
    pub open spec fn is_default(&self) -> bool {
        &&& self.allowed_commands@.len() == 5
        &&& self.allowed_commands@[0]@ == "ls"@
        &&& self.allowed_commands@[1]@ == "dir"@
        &&& self.allowed_commands@[2]@ == "ps"@
        &&& self.allowed_commands@[3]@ == "systemctl"@
        &&& self.allowed_commands@[4]@ == "service"@
        &&& self.allowed_paths@.len() == 4
        &&& self.allowed_paths@[0]@ == "/tmp"@
        &&& self.allowed_paths@[1]@ == "/var/log"@
        &&& self.allowed_paths@[2]@ == "C:\\temp"@
        &&& self.allowed_paths@[3]@ == "C:\\logs"@
        &&& self.max_file_size == 100 * 1024 * 1024
        &&& self.enable_command_whitelist
        &&& self.enable_path_restriction
    }

    /// The default policy: a few read-only commands, temporary and log directories for
    /// POSIX and Windows hosts, files up to 100 MiB, both checks on.
    pub fn default_config() -> (r: Self)
        ensures
            r.is_default(),
    {
        let mut allowed_commands: Vec<String> = Vec::new();
        allowed_commands.push("ls".to_owned());
        allowed_commands.push("dir".to_owned());
        allowed_commands.push("ps".to_owned());
        allowed_commands.push("systemctl".to_owned());
        allowed_commands.push("service".to_owned());
        let mut allowed_paths: Vec<String> = Vec::new();
        allowed_paths.push("/tmp".to_owned());
        allowed_paths.push("/var/log".to_owned());
        allowed_paths.push("C:\\temp".to_owned());
        allowed_paths.push("C:\\logs".to_owned());
        SecurityConfig {
            allowed_commands,
            allowed_paths,
            max_file_size: 100 * 1024 * 1024,
            enable_command_whitelist: true,
            enable_path_restriction: true,
        }
    }
}

impl Default for SecurityConfig {
    fn default() -> (r: Self)
        ensures
            r.is_default(),
    {
        SecurityConfig::default_config()
    }
}

/// Checks commands, paths and sizes against a `SecurityConfig`.
pub struct SecurityValidator {
    pub config: SecurityConfig,
}

impl SecurityValidator {
    pub fn new(config: SecurityConfig) -> (r: Self)
        ensures
            r.config == config,
    {
        SecurityValidator { config }
    }

    /// Accepts `command` (a program name, without arguments) when the allowlist is off or
    /// lists it exactly.
    pub fn validate_command(&self, command: &str) -> (r: Result<(), AgentError>)
        ensures
            r is Ok <==> self.config.command_allowed(command@),
            r matches Err(e) ==> e matches AgentError::SecurityError(m)
                && m@ == "Command '"@ + command@ + "' is not allowed"@,
    {
        if !self.config.enable_command_whitelist {
            return Ok(());
        }
        let mut i: usize = 0;
        while i < self.config.allowed_commands.len()
            invariant
                i <= self.config.allowed_commands@.len(),
                forall|j: int| 0 <= j < i ==> self.config.allowed_commands@[j]@ != command@,
            decreases self.config.allowed_commands@.len() - i,
        {
            if same_text(self.config.allowed_commands[i].as_str(), command) {
                return Ok(());
            }
            i = i + 1;
        }
        Err(AgentError::SecurityError(join3("Command '", command, "' is not allowed")))
    }

    /// Accepts `path` when the restriction is off or the path begins with an allowed prefix.
    pub fn validate_path(&self, path: &str) -> (r: Result<(), AgentError>)
        ensures
            r is Ok <==> self.config.path_allowed(path@),
            r matches Err(e) ==> e matches AgentError::SecurityError(m)
                && m@ == "Path '"@ + path@ + "' is not allowed"@,
    {
        if !self.config.enable_path_restriction {
            return Ok(());
        }
        let mut i: usize = 0;
        while i < self.config.allowed_paths.len()
            invariant
                i <= self.config.allowed_paths@.len(),
                forall|j: int| 0 <= j < i ==> !has_prefix(path@, self.config.allowed_paths@[j]@),
            decreases self.config.allowed_paths@.len() - i,
        {
            if starts_with(path, self.config.allowed_paths[i].as_str()) {
                return Ok(());
            }
            i = i + 1;
        }
        Err(AgentError::SecurityError(join3("Path '", path, "' is not allowed")))
    }

    /// Rejects sizes above the configured maximum.
    pub fn validate_file_size(&self, size: u64) -> (r: Result<(), AgentError>)
        ensures
            r is Ok <==> size <= self.config.max_file_size,
            r matches Err(e) ==> e matches AgentError::SecurityError(m)
                && m@ == "File size "@ + decimal(size as nat) + " exceeds maximum allowed size "@
                + decimal(self.config.max_file_size as nat),
    {
        if size > self.config.max_file_size {
            let given = decimal_text(size);
            let limit = decimal_text(self.config.max_file_size);
            let head = join3("File size ", given.as_str(), " exceeds maximum allowed size ");
            Err(AgentError::SecurityError(join2(head.as_str(), limit.as_str())))
        } else {
            Ok(())
        }
    }
}

} // verus!
