use vstd::prelude::*;
use crate::keyed::{keys_distinct, key_map, upsert};

verus! {

/// Identity of this agent as reported to the control server.
/// `id` is the UUID as a 128-bit integer; `last_heartbeat` is in milliseconds since the Unix epoch.
pub struct AgentInfo {
    pub id: u128,
    pub hostname: String,
    pub platform: String,
    pub arch: String,
    pub version: String,
    pub last_heartbeat: i64,
}

impl AgentInfo {
    /// An independent copy.
    pub fn copied(&self) -> (r: Self)
        ensures
            r == *self,
    {
        AgentInfo {
            id: self.id,
            hostname: self.hostname.clone(),
            platform: self.platform.clone(),
            arch: self.arch.clone(),
            version: self.version.clone(),
            last_heartbeat: self.last_heartbeat,
        }
    }
}

/// Kinds of work the control server can ask for.
#[derive(Clone, Copy, Debug, PartialEq, Eq, Structural)]
pub enum CommandType {
    Execute,
    Deploy,
    Configure,
    Monitor,
    Stop,
}

/// A unit of work received from the control server; `id` is the UUID as a 128-bit integer.
pub struct Command {
    pub id: u128,
    pub command_type: CommandType,
    pub payload: serde_json::Value,
    pub timeout: Option<u64>,
}

/// The fields a command's payload may carry, read out of its JSON document.
pub struct CommandPayload {
    pub command: String,
    pub args: Vec<String>,
    pub source: String,
    pub destination: String,
    pub path: String,
    pub config: serde_json::Value,
    pub process: String,
}

/// The outcome of one command, as reported back to the control server.
pub struct CommandResult {
    pub command_id: u128,
    pub success: bool,
    pub output: String,
    pub error: Option<String>,
    pub execution_time: u64,
}

impl CommandResult {
    /// A failed command always carries a non-empty error text.
    pub open spec fn wf(&self) -> bool {
        !self.success ==> (self.error is Some && self.error->0@.len() > 0)
    }
}

/// String labels of a sample; each key occurs at most once.
pub struct Labels {
    pub entries: Vec<(String, String)>,
}

impl Labels {
    pub open spec fn wf(&self) -> bool {
        keys_distinct(self.entries@)
    }

    /// The labels as a map from key to value.
    pub open spec fn view_map(&self) -> Map<Seq<char>, String> {
        key_map(self.entries@)
    }

    pub fn new() -> (r: Labels)
        ensures
            r.wf(),
            r.view_map() == Map::<Seq<char>, String>::empty(),
    {
        Labels { entries: Vec::new() }
    }

    /// Sets `key` to `value`, replacing an earlier value of the same key.
    pub fn insert(&mut self, key: String, value: String)
        requires
            old(self).wf(),
        ensures
            final(self).wf(),
            final(self).view_map() == old(self).view_map().insert(key@, value),
    {
        upsert(&mut self.entries, key, value);
    }

    /// An independent copy holding the same entries.
    pub fn copied(&self) -> (r: Labels)
        ensures
            r.entries@ == self.entries@,
    {
        let mut out: Vec<(String, String)> = Vec::new();
        let mut i: usize = 0;
        while i < self.entries.len()
            invariant
                i <= self.entries@.len(),
                out@ == self.entries@.subrange(0, i as int),
            decreases self.entries@.len() - i,
        {
            let k = self.entries[i].0.clone();
            let v = self.entries[i].1.clone();
            out.push((k, v));
            assert(out@ =~= self.entries@.subrange(0, i + 1));
            i = i + 1;
        }
        assert(out@ =~= self.entries@);
        Labels { entries: out }
    }

    pub fn len(&self) -> (r: usize)
        requires
            self.wf(),
        ensures
            r == self.view_map().len(),
    {
        proof {
            lemma_distinct_len(self.entries@);
        }
        self.entries.len()
    }

    pub fn is_empty(&self) -> (r: bool)
        ensures
            r == (self.entries@.len() == 0),
    {
        self.entries.len() == 0
    }
}

/// With distinct keys the map has one key per entry.
pub proof fn lemma_distinct_len<V>(s: Seq<(String, V)>)
    requires
        keys_distinct(s),
    ensures
        key_map(s).len() == s.len(),
        key_map(s).dom().finite(),
    decreases s.len(),
{
    if s.len() > 0 {
        let t = s.drop_last();
        assert(keys_distinct(t));
        lemma_distinct_len(t);
        crate::keyed::lemma_key_map_dom(t);
        assert(!key_map(t).contains_key(s.last().0@)) by {
            if key_map(t).contains_key(s.last().0@) {
                let i = choose|i: int| 0 <= i < t.len() && t[i].0@ == s.last().0@;
                assert(s[i].0@ == s[s.len() - 1].0@);
            }
        }
    }
}

/// The value of a sample: a floating-point reading, held as the IEEE-754 bit pattern of its
/// `f64`, or a whole number (a count, a duration, an uptime).
#[derive(Clone, Copy, Debug, PartialEq, Eq, Structural)]
pub enum MetricValue {
    Float(u64),
    Integer(u64),
}

/// One numeric sample; `timestamp` is in milliseconds since the Unix epoch, set when the
/// sample was produced.
pub struct MetricData {
    pub name: String,
    pub value: MetricValue,
    pub labels: Labels,
    pub timestamp: i64,
}

/// One log record; `timestamp` is in milliseconds since the Unix epoch.
pub struct LogData {
    pub level: String,
    pub message: String,
    pub source: String,
    pub timestamp: i64,
    pub labels: Labels,
}

/// What a Monitor command may configure.
pub struct MonitorConfig {
    pub metrics: Vec<MetricConfig>,
    pub logs: Vec<LogConfig>,
    pub interval: u64,
}

pub struct MetricConfig {
    pub name: String,
    pub metric_type: MetricType,
    pub command: Option<String>,
    pub file_path: Option<String>,
    pub labels: Labels,
}

#[derive(Clone, Copy, Debug, PartialEq, Eq, Structural)]
pub enum MetricType {
    SystemCpu,
    SystemMemory,
    SystemDisk,
    SystemNetwork,
    ProcessCount,
    Custom,
}

pub struct LogConfig {
    pub name: String,
    pub source_type: LogSourceType,
    pub path: String,
    pub pattern: Option<String>,
    pub labels: Labels,
}

#[derive(Clone, Copy, Debug, PartialEq, Eq, Structural)]
pub enum LogSourceType {
    File,
    Command,
    SystemLog,
}

} // verus!
