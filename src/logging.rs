use vstd::prelude::*;
use crate::config::AgentSettings;
use crate::text::{decimal, decimal_text, join3, same_text};

verus! {

/// How much the agent logs.
#[derive(Clone, Copy, Debug, PartialEq, Eq, Structural)]
pub enum LogLevel {
    Off,
    Error,
    Warn,
    Info,
    Debug,
    Trace,
}

/// The level a name selects: `trace`, `debug`, `info`, `warn`, `error`, `off`; any other name means `Info`.
pub open spec fn level_named(name: Seq<char>) -> LogLevel {
    if name == "trace"@ {
        LogLevel::Trace
    } else if name == "debug"@ {
        LogLevel::Debug
    } else if name == "warn"@ {
        LogLevel::Warn
    } else if name == "error"@ {
        LogLevel::Error
    } else if name == "off"@ {
        LogLevel::Off
    } else {
        LogLevel::Info
    }
}

/// The level that `name` selects.
pub fn parse_level(name: &str) -> (r: LogLevel)
    ensures
        r == level_named(name@),
{
    if same_text(name, "trace") {
        LogLevel::Trace
    } else if same_text(name, "debug") {
        LogLevel::Debug
    } else if same_text(name, "warn") {
        LogLevel::Warn
    } else if same_text(name, "error") {
        LogLevel::Error
    } else if same_text(name, "off") {
        LogLevel::Off
    } else {
        LogLevel::Info
    }
}

/// Where and how the agent logs.
pub struct LoggingConfig {
    pub level: LogLevel,
    pub file_path: Option<String>,
    pub max_files: u32,
    pub max_file_size_mb: u32,
    pub enable_console: bool,
    pub enable_json: bool,
}

impl LoggingConfig {
    /// The logging set-up the agent's settings ask for: level `info`, 10 files of 100 MiB
    /// unless they say otherwise; console output, plain text, into `agent.log`.
    pub fn from_settings(settings: &AgentSettings) -> (r: Self)
        ensures
            r.level == match settings.log_level {
                Some(n) => level_named(n@),
                None => LogLevel::Info,
            },
            r.file_path is Some && r.file_path->0@ == "agent.log"@,
            r.max_files == match settings.max_log_files { Some(n) => n, None => 10u32 },
            r.max_file_size_mb == match settings.log_file_size_mb { Some(n) => n, None => 100u32 },
            r.enable_console,
            !r.enable_json,
    {
        let level = match &settings.log_level {
            Some(n) => parse_level(n.as_str()),
            None => LogLevel::Info,
        };
        LoggingConfig {
            level,
            file_path: Some("agent.log".to_owned()),
            max_files: match settings.max_log_files {
                Some(n) => n,
                None => 10,
            },
            max_file_size_mb: match settings.log_file_size_mb {
                Some(n) => n,
                None => 100,
            },
            enable_console: true,
            enable_json: false,
        }
    }
}

/// Whether a log file of `size_bytes` bytes has reached `max_size_mb` whole mebibytes.
pub fn needs_rotation(size_bytes: u64, max_size_mb: u32) -> (r: bool)
    ensures
        r == (size_bytes as int / 1048576 >= max_size_mb as int),
{
    size_bytes / (1024 * 1024) >= max_size_mb as u64
}

/// The name of rotated file number `i` of `base`: `base` itself for 0, else `base.i`.
pub open spec fn rotated_name(base: Seq<char>, i: nat) -> Seq<char> {
    if i == 0 { base } else { base + "."@ + decimal(i) }
}

fn rotated_path(base: &str, i: u32) -> (r: String)
    ensures
        r@ == rotated_name(base@, i as nat),
{
    if i == 0 {
        base.to_owned()
    } else {
        let n = decimal_text(i as u64);
        join3(base, ".", n.as_str())
    }
}

/// The renames that rotate the files of `base`, to be done in order (each only where its
/// source exists): `base.(i-1)` to `base.i` for `i` from `max_files - 1` down to 1, where
/// `base.0` is `base` itself.
pub fn rotation_moves(base: &str, max_files: u32) -> (r: Vec<(String, String)>)
    ensures
        r@.len() == (if max_files >= 1 { max_files - 1 } else { 0 }),
        forall|j: int| 0 <= j < r@.len() ==> {
            let i = (max_files - 1 - j) as nat;
            &&& (#[trigger] r@[j]).0@ == rotated_name(base@, (i - 1) as nat)
            &&& r@[j].1@ == rotated_name(base@, i)
        },
{
    let mut out: Vec<(String, String)> = Vec::new();
    if max_files <= 1 {
        return out;
    }
    let mut i: u32 = max_files - 1;
    while i >= 1
        invariant
            max_files >= 2,
            i <= max_files - 1,
            out@.len() == max_files - 1 - i,
            forall|j: int| 0 <= j < out@.len() ==> {
                let k = (max_files - 1 - j) as nat;
                &&& (#[trigger] out@[j]).0@ == rotated_name(base@, (k - 1) as nat)
                &&& out@[j].1@ == rotated_name(base@, k)
            },
        decreases i,
    {
        let from = rotated_path(base, i - 1);
        let to = rotated_path(base, i);
        out.push((from, to));
        i = i - 1;
    }
    out
}

/// Appends security events to a file.
pub struct AuditLogger {
    pub file_path: String,
}

impl AuditLogger {
    pub fn new(file_path: String) -> (r: Self)
        ensures
            r.file_path == file_path,
    {
        AuditLogger { file_path }
    }
}

} // verus!
