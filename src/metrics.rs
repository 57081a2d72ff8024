use vstd::prelude::*;
use crate::keyed::{
    find_key, key_map, keys_distinct, lemma_key_map_dom, lemma_key_map_index, lemma_key_map_push,
    lemma_key_map_update,
};
use crate::platform::SystemMetrics;
use crate::types::{Labels, MetricData, MetricValue};

verus! {

/// The latest sample of one metric; `last_updated` is a monotonic instant in milliseconds.
pub struct MetricEntry {
    pub value: MetricValue,
    pub labels: Labels,
    pub last_updated: u64,
}

/// The registry after recording `value` with `labels` under `name` at instant `now`:
/// the entry is replaced, and its instant never moves back.
pub open spec fn recorded(
    m: Map<Seq<char>, MetricEntry>,
    name: Seq<char>,
    value: MetricValue,
    labels: Labels,
    now: u64,
) -> Map<Seq<char>, MetricEntry> {
    let stamp = if m.contains_key(name) && m[name].last_updated > now {
        m[name].last_updated
    } else {
        now
    };
    m.insert(name, MetricEntry { value, labels, last_updated: stamp })
}

/// The entries of `m` updated after `cutoff`.
pub open spec fn unexpired(m: Map<Seq<char>, MetricEntry>, cutoff: int) -> Map<Seq<char>, MetricEntry> {
    Map::new(|k: Seq<char>| m.contains_key(k) && m[k].last_updated as int > cutoff, |k: Seq<char>| m[k])
}

/// Recording the same sample twice at the same instant leaves the registry as one recording does.
pub proof fn lemma_record_twice(m: Map<Seq<char>, MetricEntry>, name: Seq<char>, value: MetricValue, labels: Labels, now: u64)
    ensures
        recorded(recorded(m, name, value, labels, now), name, value, labels, now) == recorded(m, name, value, labels, now),
{
    let once = recorded(m, name, value, labels, now);
    assert(once.contains_key(name));
    assert(recorded(once, name, value, labels, now) =~= once);
}

/// Latest sample per metric name; at most one entry per name.
pub struct MetricRegistry {
    pub entries: Vec<(String, MetricEntry)>,
}

impl MetricRegistry {
    /// At most one entry per name.
    pub open spec fn wf(&self) -> bool {
        keys_distinct(self.entries@)
    }

    /// The registry as a map from metric name to its entry.
    pub open spec fn view_map(&self) -> Map<Seq<char>, MetricEntry> {
        key_map(self.entries@)
    }

    pub fn new() -> (r: Self)
        ensures
            r.wf(),
            r.view_map() == Map::<Seq<char>, MetricEntry>::empty(),
    {
        MetricRegistry { entries: Vec::new() }
    }

    /// Inserts or replaces the entry of `name`, stamped with the monotonic instant `now`
    /// (or the entry's earlier instant, should `now` lie before it).
    pub fn record_metric(&mut self, name: &str, value: MetricValue, labels: Labels, now: u64)
        requires
            old(self).wf(),
        ensures
            final(self).wf(),
            final(self).view_map() == recorded(old(self).view_map(), name@, value, labels, now),
    {
        match find_key(&self.entries, name) {
            Some(i) => {
                let prev = self.entries[i].1.last_updated;
                let stamp = if prev > now { prev } else { now };
                proof {
                    lemma_key_map_index(self.entries@, i as int);
                }
                let entry = MetricEntry { value, labels, last_updated: stamp };
                let key = name.to_owned();
                proof {
                    lemma_key_map_update(self.entries@, i as int, (key, entry));
                }
                self.entries.set(i, (key, entry));
            },
            None => {
                proof {
                    lemma_key_map_dom(self.entries@);
                }
                let entry = MetricEntry { value, labels, last_updated: now };
                let key = name.to_owned();
                proof {
                    lemma_key_map_push(self.entries@, (key, entry));
                }
                self.entries.push((key, entry));
            },
        }
    }

    /// One sample per entry, in registry order, all stamped with the same `timestamp`.
    pub fn get_all_metrics(&self, timestamp: i64) -> (r: Vec<MetricData>)
        ensures
            r@.len() == self.entries@.len(),
            forall|i: int|
                0 <= i < r@.len() ==> {
                    &&& #[trigger] r@[i].name@ == self.entries@[i].0@
                    &&& r@[i].value == self.entries@[i].1.value
                    &&& r@[i].labels.entries@ == self.entries@[i].1.labels.entries@
                    &&& r@[i].timestamp == timestamp
                },
    {
        let mut out: Vec<MetricData> = Vec::new();
        let mut i: usize = 0;
        while i < self.entries.len()
            invariant
                i <= self.entries@.len(),
                out@.len() == i,
                forall|j: int|
                    0 <= j < i ==> {
                        &&& #[trigger] out@[j].name@ == self.entries@[j].0@
                        &&& out@[j].value == self.entries@[j].1.value
                        &&& out@[j].labels.entries@ == self.entries@[j].1.labels.entries@
                        &&& out@[j].timestamp == timestamp
                    },
            decreases self.entries@.len() - i,
        {
            let (name, entry) = (&self.entries[i].0, &self.entries[i].1);
            out.push(MetricData {
                name: name.clone(),
                value: entry.value,
                labels: entry.labels.copied(),
                timestamp,
            });
            i = i + 1;
        }
        out
    }

    /// Deletes exactly the entries last updated at or before `now - max_age`
    /// (both in milliseconds); younger entries stay as they were.
    pub fn cleanup_old_metrics(&mut self, max_age: u64, now: u64)
        requires
            old(self).wf(),
        ensures
            final(self).wf(),
            final(self).view_map() == unexpired(old(self).view_map(), now as int - max_age as int),
    {
        let ghost cutoff: int = now as int - max_age as int;
        let mut rest: Vec<(String, MetricEntry)> = Vec::new();
        std::mem::swap(&mut rest, &mut self.entries);
        let ghost all = rest@;
        let n = rest.len();
        let mut i: usize = 0;
        while i < n
            invariant
                n == all.len(),
                i <= n,
                cutoff == now as int - max_age as int,
                keys_distinct(all),
                rest@ == all.subrange(i as int, n as int),
                keys_distinct(self.entries@),
                key_map(self.entries@) == unexpired(key_map(all.subrange(0, i as int)), cutoff),
                forall|j: int| 0 <= j < self.entries@.len() ==>
                    exists|m: int| 0 <= m < i && all[m].0@ == #[trigger] self.entries@[j].0@,
            decreases n - i,
        {
            let entry = rest.remove(0);
            proof {
                assert(entry == all[i as int]);
                assert(all.subrange(0, i + 1).drop_last() =~= all.subrange(0, i as int));
                assert(rest@ =~= all.subrange(i + 1, n as int));
            }
            let ghost before = self.entries@;
            let keep = if now >= max_age { entry.1.last_updated > now - max_age } else { true };
            proof {
                if now >= max_age {
                    assert((now - max_age) as int == cutoff);
                } else {
                    assert(cutoff < 0);
                }
                assert(keep == (entry.1.last_updated as int > cutoff));
            }
            if keep {
                proof {
                    assert forall|j: int| 0 <= j < before.len() implies before[j].0@ != entry.0@ by {
                        let m = choose|m: int| 0 <= m < i && all[m].0@ == before[j].0@;
                        assert(m != i);
                    }
                    lemma_key_map_push(before, entry);
                }
                self.entries.push(entry);
                proof {
                    assert(key_map(self.entries@) =~= unexpired(key_map(all.subrange(0, i + 1)), cutoff));
                    assert forall|j: int| 0 <= j < self.entries@.len() implies
                        exists|m: int| 0 <= m < i + 1 && all[m].0@ == #[trigger] self.entries@[j].0@ by {
                        if j < before.len() {
                            assert(self.entries@[j] == before[j]);
                            let m = choose|m: int| 0 <= m < i && all[m].0@ == before[j].0@;
                            assert(all[m].0@ == self.entries@[j].0@);
                        } else {
                            assert(all[i as int].0@ == self.entries@[j].0@);
                        }
                    }
                }
            } else {
                proof {
                    lemma_key_map_dom(before);
                    assert(!key_map(before).contains_key(all[i as int].0@)) by {
                        if key_map(before).contains_key(all[i as int].0@) {
                            let j = choose|j: int| 0 <= j < before.len() && before[j].0@ == all[i as int].0@;
                            let m = choose|m: int| 0 <= m < i && all[m].0@ == before[j].0@;
                            assert(m != i);
                        }
                    }
                    assert(key_map(self.entries@) =~= unexpired(key_map(all.subrange(0, i + 1)), cutoff));
                }
            }
            i = i + 1;
        }
        proof {
            assert(all.subrange(0, n as int) =~= all);
        }
    }

    /// The number of metrics held.
    pub fn get_metric_count(&self) -> (r: usize)
        requires
            self.wf(),
        ensures
            r == self.view_map().len(),
            r == self.entries@.len(),
    {
        proof {
            crate::types::lemma_distinct_len(self.entries@);
        }
        self.entries.len()
    }
}

/// Labels with the single pair `key = value`.
pub fn single_label(key: &str, value: &str) -> (r: Labels)
    ensures
        r.wf(),
        r.view_map().dom() == set![key@],
        r.view_map()[key@]@ == value@,
{
    let mut l = Labels::new();
    l.insert(key.to_owned(), value.to_owned());
    proof {
        assert(l.view_map().dom() =~= set![key@]);
    }
    l
}

/// `m` holds under `name` the value `value` with the single label `key = val`.
pub open spec fn holds_sample(
    m: Map<Seq<char>, MetricEntry>,
    name: Seq<char>,
    value: MetricValue,
    key: Seq<char>,
    val: Seq<char>,
) -> bool {
    &&& m.contains_key(name)
    &&& m[name].value == value
    &&& m[name].labels.wf()
    &&& m[name].labels.view_map().dom() == set![key]
    &&& m[name].labels.view_map()[key]@ == val
}

/// Records the host's usage figures into a registry.
pub struct SystemMetricsCollector {}

impl SystemMetricsCollector {
    pub fn new() -> (r: Self) {
        SystemMetricsCollector {}
    }

    /// Records the probe's CPU, memory and disk usage (labelled `type = system`) and zero
    /// network counters (labelled `type = network`), at monotonic instant `now`.
    pub fn collect_all(&self, registry: &mut MetricRegistry, probe: SystemMetrics, now: u64)
        requires
            old(registry).wf(),
        ensures
            final(registry).wf(),
            holds_sample(final(registry).view_map(), "cpu_usage_percent"@, MetricValue::Float(probe.cpu_usage), "type"@, "system"@),
            holds_sample(final(registry).view_map(), "memory_usage_percent"@, MetricValue::Float(probe.memory_usage), "type"@, "system"@),
            holds_sample(final(registry).view_map(), "disk_usage_percent"@, MetricValue::Float(probe.disk_usage), "type"@, "system"@),
            holds_sample(final(registry).view_map(), "network_bytes_sent"@, MetricValue::Float(0), "type"@, "network"@),
            holds_sample(final(registry).view_map(), "network_bytes_received"@, MetricValue::Float(0), "type"@, "network"@),
            forall|k: Seq<char>|
                k != "cpu_usage_percent"@ && k != "memory_usage_percent"@ && k != "disk_usage_percent"@
                && k != "network_bytes_sent"@ && k != "network_bytes_received"@ ==> (
                #[trigger] final(registry).view_map().contains_key(k) == old(registry).view_map().contains_key(k)
                && (old(registry).view_map().contains_key(k) ==> final(registry).view_map()[k] == old(registry).view_map()[k])),
    {
        proof {
            reveal_strlit("cpu_usage_percent");
            reveal_strlit("memory_usage_percent");
            reveal_strlit("disk_usage_percent");
            reveal_strlit("network_bytes_sent");
            reveal_strlit("network_bytes_received");
            assert("cpu_usage_percent"@[0] != "memory_usage_percent"@[0]);
            assert("cpu_usage_percent"@[0] != "disk_usage_percent"@[0]);
            assert("cpu_usage_percent"@[0] != "network_bytes_sent"@[0]);
            assert("cpu_usage_percent"@[0] != "network_bytes_received"@[0]);
            assert("memory_usage_percent"@[0] != "disk_usage_percent"@[0]);
            assert("memory_usage_percent"@[0] != "network_bytes_sent"@[0]);
            assert("memory_usage_percent"@[0] != "network_bytes_received"@[0]);
            assert("disk_usage_percent"@[0] != "network_bytes_sent"@[0]);
            assert("disk_usage_percent"@[0] != "network_bytes_received"@[0]);
            assert("network_bytes_sent"@[14] != "network_bytes_received"@[14]);
        }
        registry.record_metric("cpu_usage_percent", MetricValue::Float(probe.cpu_usage), single_label("type", "system"), now);
        registry.record_metric("memory_usage_percent", MetricValue::Float(probe.memory_usage), single_label("type", "system"), now);
        registry.record_metric("disk_usage_percent", MetricValue::Float(probe.disk_usage), single_label("type", "system"), now);
        // 0u64 is the bit pattern of 0.0
        registry.record_metric("network_bytes_sent", MetricValue::Float(0), single_label("type", "network"), now);
        registry.record_metric("network_bytes_received", MetricValue::Float(0), single_label("type", "network"), now);
    }
}

/// Figures about the agent itself. `start_time` is a monotonic instant in milliseconds.
pub struct AgentMetrics {
    pub start_time: u64,
}

impl AgentMetrics {
    pub fn new(now: u64) -> (r: Self)
        ensures
            r.start_time == now,
    {
        AgentMetrics { start_time: now }
    }

    /// Records how long a command took, labelled with `type = command` and its success.
    pub fn record_command_execution(&self, registry: &mut MetricRegistry, duration_ms: u64, success: bool, now: u64)
        requires
            old(registry).wf(),
        ensures
            final(registry).wf(),
            final(registry).view_map().contains_key("command_execution_duration_ms"@),
            final(registry).view_map()["command_execution_duration_ms"@].value == MetricValue::Integer(duration_ms),
            final(registry).view_map()["command_execution_duration_ms"@].labels.view_map().dom()
                == set!["type"@, "success"@],
            final(registry).view_map()["command_execution_duration_ms"@].labels.view_map()["type"@]@ == "command"@,
            final(registry).view_map()["command_execution_duration_ms"@].labels.view_map()["success"@]@
                == (if success { "true"@ } else { "false"@ }),
    {
        let mut labels = Labels::new();
        labels.insert("type".to_owned(), "command".to_owned());
        let flag = if success { "true" } else { "false" };
        labels.insert("success".to_owned(), flag.to_owned());
        proof {
            reveal_strlit("type");
            reveal_strlit("success");
            assert("type"@[0] != "success"@[0]);
            assert(labels.view_map().dom() =~= set!["type"@, "success"@]);
        }
        registry.record_metric("command_execution_duration_ms", MetricValue::Integer(duration_ms), labels, now);
    }

    /// Records how many samples an exporter sent, labelled with the exporter's name.
    pub fn record_data_export(&self, registry: &mut MetricRegistry, count: usize, exporter: &str, now: u64)
        requires
            old(registry).wf(),
        ensures
            final(registry).wf(),
            holds_sample(final(registry).view_map(), "data_exported_count"@, MetricValue::Integer(count as u64), "exporter"@, exporter@),
    {
        registry.record_metric("data_exported_count", MetricValue::Integer(count as u64), single_label("exporter", exporter), now);
    }

    /// Records whole seconds since the agent started, without labels.
    pub fn record_uptime(&self, registry: &mut MetricRegistry, now: u64)
        requires
            old(registry).wf(),
        ensures
            final(registry).wf(),
            final(registry).view_map().contains_key("agent_uptime_seconds"@),
            final(registry).view_map()["agent_uptime_seconds"@].value == MetricValue::Integer(
                if now >= self.start_time { ((now - self.start_time) / 1000) as u64 } else { 0 }),
            final(registry).view_map()["agent_uptime_seconds"@].labels.view_map().dom().len() == 0,
    {
        let uptime = if now >= self.start_time { (now - self.start_time) / 1000 } else { 0 };
        registry.record_metric("agent_uptime_seconds", MetricValue::Integer(uptime), Labels::new(), now);
    }

    /// Records the agent's own memory use; no probe for it exists yet, so the figure is zero.
    pub fn record_memory_usage(&self, registry: &mut MetricRegistry, now: u64)
        requires
            old(registry).wf(),
        ensures
            final(registry).wf(),
            holds_sample(final(registry).view_map(), "agent_memory_bytes"@, MetricValue::Float(0), "type"@, "agent"@),
    {
        registry.record_metric("agent_memory_bytes", MetricValue::Float(0), single_label("type", "agent"), now);
    }
}

} // verus!
