use vstd::prelude::*;
use vstd::string::*;
use crate::health::HealthState;
use crate::text::{join3, signed_decimal, signed_decimal_text};
use crate::types::Labels;

verus! {

/// The local read-only HTTP surface: where it listens.
pub struct AgentServer {
    pub port: u16,
}

impl AgentServer {
    pub fn new(port: u16) -> (r: Self)
        ensures
            r.port == port,
    {
        AgentServer { port }
    }
}

/// Status code of `/health` and `/status`: 200 while healthy or degraded, 503 when unhealthy.
pub fn status_code_for(state: HealthState) -> (r: u16)
    ensures
        r == (if state == HealthState::Unhealthy { 503u16 } else { 200u16 }),
{
    match state {
        HealthState::Unhealthy => 503,
        _ => 200,
    }
}

/// `k="v"` pairs joined by commas, in order.
pub open spec fn label_pairs(entries: Seq<(String, String)>) -> Seq<char>
    decreases entries.len(),
{
    if entries.len() == 0 {
        Seq::empty()
    } else if entries.len() == 1 {
        entries[0].0@ + "=\""@ + entries[0].1@ + "\""@
    } else {
        label_pairs(entries.drop_last()) + ","@ + entries.last().0@ + "=\""@ + entries.last().1@ + "\""@
    }
}

/// The label block of an exposition line: empty without labels, else `{k="v",...}`.
pub open spec fn label_block(entries: Seq<(String, String)>) -> Seq<char> {
    if entries.len() == 0 { Seq::empty() } else { "{"@ + label_pairs(entries) + "}"@ }
}

/// One line of the Prometheus text format: `name{labels} value timestamp_ms` and a line break.
pub open spec fn exposition_line(name: Seq<char>, entries: Seq<(String, String)>, value: Seq<char>, timestamp_ms: i64) -> Seq<char> {
    name + label_block(entries) + " "@ + value + " "@ + signed_decimal(timestamp_ms as int) + "\n"@
}

fn pair_text(k: &str, v: &str) -> (r: String)
    ensures
        r@ == k@ + "=\""@ + v@ + "\""@,
{
    let mut s = join3(k, "=\"", v);
    s.append("\"");
    s
}

/// The exposition line of one sample; `value` is the sample's value already written out.
pub fn prometheus_line(name: &str, labels: &Labels, value: &str, timestamp_ms: i64) -> (r: String)
    ensures
        r@ == exposition_line(name@, labels.entries@, value@, timestamp_ms),
{
    let entries = &labels.entries;
    let mut block = String::new();
    if entries.len() > 0 {
        let mut pairs = pair_text(entries[0].0.as_str(), entries[0].1.as_str());
        let mut i: usize = 1;
        while i < entries.len()
            invariant
                1 <= i <= entries@.len(),
                pairs@ == label_pairs(entries@.subrange(0, i as int)),
            decreases entries@.len() - i,
        {
            proof {
                assert(entries@.subrange(0, i + 1).drop_last() =~= entries@.subrange(0, i as int));
            }
            let p = pair_text(entries[i].0.as_str(), entries[i].1.as_str());
            pairs.append(",");
            pairs.append(p.as_str());
            i = i + 1;
        }
        proof {
            assert(entries@.subrange(0, entries@.len() as int) =~= entries@);
            assert(entries@.subrange(0, 1) =~= seq![entries@[0]]);
        }
        block = join3("{", pairs.as_str(), "}");
    }
    let ts = signed_decimal_text(timestamp_ms);
    let mut line = join3(name, block.as_str(), " ");
    line.append(value);
    line.append(" ");
    line.append(ts.as_str());
    line.append("\n");
    line
}

} // verus!
