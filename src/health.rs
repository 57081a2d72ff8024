use vstd::prelude::*;
use vstd::string::*;
use crate::keyed::{keys_distinct, key_map, lemma_key_map_dom, upsert};
use crate::text::{decimal, decimal_text, join2, join3};
use crate::types::AgentInfo;

verus! {

/// Aggregate health of the agent or of one check, ordered from best to worst.
#[derive(Clone, Copy, Debug, PartialEq, Eq, Structural)]
pub enum HealthState {
    Healthy,
    Degraded,
    Unhealthy,
}

impl HealthState {
    /// Position of the state in the order `Healthy < Degraded < Unhealthy`.
    pub open spec fn rank(self) -> nat {
        match self {
            HealthState::Healthy => 0,
            HealthState::Degraded => 1,
            HealthState::Unhealthy => 2,
        }
    }

    /// The worse of two states.
    pub open spec fn spec_worst(self, other: HealthState) -> HealthState {
        if self.rank() >= other.rank() {
            self
        } else {
            other
        }
    }

    /// The worse of two states.
    pub fn worst(self, other: HealthState) -> (r: HealthState)
        ensures
            r == self.spec_worst(other),
    {
        match (self, other) {
            (HealthState::Unhealthy, _) => HealthState::Unhealthy,
            (_, HealthState::Unhealthy) => HealthState::Unhealthy,
            (HealthState::Degraded, _) => HealthState::Degraded,
            (_, HealthState::Degraded) => HealthState::Degraded,
            _ => HealthState::Healthy,
        }
    }
}

/// The result of one run of one check. `last_check` is in milliseconds since the Unix epoch.
pub struct CheckResult {
    pub status: HealthState,
    pub message: String,
    pub last_check: i64,
    pub duration_ms: u64,
}

/// The worst state over a list of named results; `Healthy` for an empty list.
pub open spec fn overall_of(checks: Seq<(String, CheckResult)>) -> HealthState
    decreases checks.len(),
{
    if checks.len() == 0 {
        HealthState::Healthy
    } else {
        overall_of(checks.drop_last()).spec_worst(checks.last().1.status)
    }
}

/// The aggregate is the maximum: no check is worse, and it is `Healthy` or the state of some check.
pub proof fn lemma_overall_is_max(checks: Seq<(String, CheckResult)>)
    ensures
        forall|i: int| 0 <= i < checks.len() ==> checks[i].1.status.rank() <= overall_of(checks).rank(),
        overall_of(checks) == HealthState::Healthy || exists|i: int|
            0 <= i < checks.len() && checks[i].1.status == overall_of(checks),
        checks.len() == 0 ==> overall_of(checks) == HealthState::Healthy,
    decreases checks.len(),
{
    if checks.len() > 0 {
        let t = checks.drop_last();
        lemma_overall_is_max(t);
        assert forall|i: int| 0 <= i < checks.len() implies checks[i].1.status.rank() <= overall_of(checks).rank() by {
            if i < checks.len() - 1 {
                assert(t[i] == checks[i]);
            }
        }
        if overall_of(checks) != HealthState::Healthy {
            if overall_of(checks) == checks.last().1.status {
                assert(checks[checks.len() - 1].1.status == overall_of(checks));
            } else {
                let i = choose|i: int| 0 <= i < t.len() && t[i].1.status == overall_of(t);
                assert(checks[i] == t[i]);
            }
        }
    }
}

/// Snapshot of the agent's health. `timestamp` is in milliseconds since the Unix epoch,
/// `uptime` in seconds since the checker was created.
pub struct HealthStatus {
    pub status: HealthState,
    pub timestamp: i64,
    pub checks: Vec<(String, CheckResult)>,
    pub uptime: u64,
    pub version: String,
}

impl HealthStatus {
    /// One result per check name, and the overall state is the worst of them.
    pub open spec fn wf(&self) -> bool {
        &&& keys_distinct(self.checks@)
        &&& self.status == overall_of(self.checks@)
    }
}

/// What one check run handed back: its own result, or the text of the error it raised.
/// `finished_at` (milliseconds since the Unix epoch) and `duration_ms` are measured around the run.
pub struct CheckRun {
    pub name: String,
    pub outcome: Result<CheckResult, String>,
    pub duration_ms: u64,
    pub finished_at: i64,
}

pub open spec fn check_failed_prefix() -> Seq<char> {
    "Check failed: "@
}

/// The result recorded for a run: the check's own result with the measured duration,
/// or an `Unhealthy` result naming the error.
pub open spec fn recorded_as(run: CheckRun, r: CheckResult) -> bool {
    &&& r.duration_ms == run.duration_ms
    &&& match run.outcome {
        Ok(c) => r.status == c.status && r.message@ == c.message@ && r.last_check == c.last_check,
        Err(e) => r.status == HealthState::Unhealthy && r.message@ == check_failed_prefix() + e@
            && r.last_check == run.finished_at,
    }
}

/// The result to record for one run.
pub fn result_of_run(run: &CheckRun) -> (r: CheckResult)
    ensures
        recorded_as(*run, r),
{
    let duration_ms = run.duration_ms;
    match &run.outcome {
        Ok(c) => CheckResult {
            status: c.status,
            message: c.message.clone(),
            last_check: c.last_check,
            duration_ms,
        },
        Err(e) => CheckResult {
            status: HealthState::Unhealthy,
            message: join2("Check failed: ", e.as_str()),
            last_check: run.finished_at,
            duration_ms,
        },
    }
}

/// The worst state over `checks`.
pub fn overall_state(checks: &Vec<(String, CheckResult)>) -> (r: HealthState)
    ensures
        r == overall_of(checks@),
{
    let mut acc = HealthState::Healthy;
    let mut i: usize = 0;
    while i < checks.len()
        invariant
            i <= checks@.len(),
            acc == overall_of(checks@.subrange(0, i as int)),
        decreases checks@.len() - i,
    {
        assert(checks@.subrange(0, i + 1).drop_last() =~= checks@.subrange(0, i as int));
        acc = acc.worst(checks[i].1.status);
        i = i + 1;
    }
    assert(checks@.subrange(0, checks@.len() as int) =~= checks@);
    acc
}

/// Registry of named checks of type `C`; registering a name again replaces the earlier check.
/// `start_time` is a monotonic instant in milliseconds.
pub struct HealthChecker<C> {
    pub checks: Vec<(String, C)>,
    pub start_time: u64,
    pub version: String,
}

impl<C> HealthChecker<C> {
    pub open spec fn wf(&self) -> bool {
        keys_distinct(self.checks@)
    }

    /// The registered checks by name.
    pub open spec fn registered(&self) -> Map<Seq<char>, C> {
        key_map(self.checks@)
    }

    /// A checker with no checks, created at monotonic instant `now_ms`.
    pub fn new(agent_info: &AgentInfo, now_ms: u64) -> (r: HealthChecker<C>)
        ensures
            r.wf(),
            r.registered() == Map::<Seq<char>, C>::empty(),
            r.start_time == now_ms,
            r.version@ == agent_info.version@,
    {
        HealthChecker { checks: Vec::new(), start_time: now_ms, version: agent_info.version.clone() }
    }

    /// Registers `check` under `name`, replacing any check of the same name.
    pub fn register_check(&mut self, name: String, check: C)
        requires
            old(self).wf(),
        ensures
            final(self).wf(),
            final(self).registered() == old(self).registered().insert(name@, check),
            final(self).start_time == old(self).start_time,
            final(self).version == old(self).version,
    {
        upsert(&mut self.checks, name, check);
    }

    /// The registered checks, in registration order.
    pub fn checks(&self) -> (r: &Vec<(String, C)>)
        ensures
            r == &self.checks,
    {
        &self.checks
    }

    /// Whole seconds since the checker was created (zero if `now_ms` is earlier).
    pub fn uptime_seconds(&self, now_ms: u64) -> (r: u64)
        ensures
            r == (if now_ms >= self.start_time { (now_ms - self.start_time) / 1000 } else { 0 }),
    {
        if now_ms >= self.start_time {
            (now_ms - self.start_time) / 1000
        } else {
            0
        }
    }

    /// Assembles the health snapshot from one run of each registered check, in registration
    /// order, taken at monotonic instant `now_ms` and wall-clock `timestamp`: one result per
    /// registered check, and nothing else.
    pub fn get_health_status(&self, runs: Vec<CheckRun>, now_ms: u64, timestamp: i64) -> (r: HealthStatus)
        requires
            self.wf(),
            runs@.len() == self.checks@.len(),
            forall|i: int| 0 <= i < runs@.len() ==> (#[trigger] runs@[i]).name@ == self.checks@[i].0@,
        ensures
            r.wf(),
            r.timestamp == timestamp,
            r.uptime == (if now_ms >= self.start_time { (now_ms - self.start_time) / 1000 } else { 0 }),
            r.version@ == self.version@,
            forall|k: Seq<char>| #[trigger] key_map(r.checks@).contains_key(k) <==> self.registered().contains_key(k),
            forall|i: int|
                0 <= i < runs@.len() ==> recorded_as(runs@[i], #[trigger] key_map(r.checks@)[self.checks@[i].0@]),
    {
        let mut checks: Vec<(String, CheckResult)> = Vec::new();
        let ghost all = runs@;
        let n = runs.len();
        let mut i: usize = 0;
        while i < n
            invariant
                n == all.len(),
                all == runs@,
                i <= n,
                keys_distinct(checks@),
                forall|k: Seq<char>|
                    key_map(checks@).contains_key(k) <==> exists|m: int| 0 <= m < i && all[m].name@ == k,
                forall|m: int|
                    0 <= m < i && (forall|j: int| m < j < i ==> all[j].name@ != all[m].name@)
                    ==> recorded_as(all[m], #[trigger] key_map(checks@)[all[m].name@]),
            decreases n - i,
        {
            let run = &runs[i];
            let name = run.name.clone();
            let result = result_of_run(run);
            let ghost before = key_map(checks@);
            upsert(&mut checks, name, result);
            proof {
                let after = key_map(checks@);
                assert forall|k: Seq<char>|
                    after.contains_key(k) <==> exists|m: int| 0 <= m < i + 1 && all[m].name@ == k by {
                    if after.contains_key(k) && k != all[i as int].name@ {
                        assert(before.contains_key(k));
                    }
                    if k == all[i as int].name@ {
                        assert(all[i as int].name@ == k);
                    }
                }
                assert forall|m: int|
                    0 <= m < i + 1 && (forall|j: int| m < j < i + 1 ==> all[j].name@ != all[m].name@)
                    implies recorded_as(all[m], #[trigger] after[all[m].name@]) by {
                    if m < i {
                        assert(all[i as int].name@ != all[m].name@);
                        assert(after[all[m].name@] == before[all[m].name@]);
                    }
                }
            }
            i = i + 1;
        }
        proof {
            lemma_key_map_dom(self.checks@);
            assert forall|k: Seq<char>| #[trigger] key_map(checks@).contains_key(k) <==> self.registered().contains_key(k) by {
                if key_map(checks@).contains_key(k) {
                    let m = choose|m: int| 0 <= m < n && all[m].name@ == k;
                    assert(self.checks@[m].0@ == k);
                }
                if self.registered().contains_key(k) {
                    let m = choose|m: int| 0 <= m < self.checks@.len() && self.checks@[m].0@ == k;
                    assert(all[m].name@ == k);
                }
            }
            assert forall|m: int| 0 <= m < n implies recorded_as(all[m], #[trigger] key_map(checks@)[self.checks@[m].0@]) by {
                assert forall|j: int| m < j < n implies all[j].name@ != all[m].name@ by {
                    assert(all[j].name@ == self.checks@[j].0@);
                    assert(all[m].name@ == self.checks@[m].0@);
                }
            }
        }
        let status = overall_state(&checks);
        HealthStatus {
            status,
            timestamp,
            checks,
            uptime: self.uptime_seconds(now_ms),
            version: self.version.clone(),
        }
    }
}

/// Usage above this many hundredths of a percent is critical.
pub const CRITICAL_USAGE: u64 = 9500;

/// Band of a usage reading against a threshold, both in hundredths of a percent:
/// `Unhealthy` above 95%, `Degraded` from the threshold up to 95%, `Healthy` below the threshold.
pub open spec fn usage_band(usage: u64, threshold: u64) -> HealthState {
    if usage > CRITICAL_USAGE {
        HealthState::Unhealthy
    } else if usage >= threshold {
        HealthState::Degraded
    } else {
        HealthState::Healthy
    }
}

/// The band of `usage` against `threshold` (both in hundredths of a percent).
pub fn classify_usage(usage: u64, threshold: u64) -> (r: HealthState)
    ensures
        r == usage_band(usage, threshold),
{
    if usage > CRITICAL_USAGE {
        HealthState::Unhealthy
    } else if usage >= threshold {
        HealthState::Degraded
    } else {
        HealthState::Healthy
    }
}

/// Share of `total` that is not `free`, in hundredths of a percent, rounded down;
/// `None` when `total` is zero or `free` exceeds it.
pub fn usage_hundredths(total: u64, free: u64) -> (r: Option<u64>)
    ensures
        r == (if total == 0 || free > total {
            None::<u64>
        } else {
            Some((((total - free) as int * 10000) / total as int) as u64)
        }),
{
    if total == 0 || free > total {
        return None;
    }
    let used = (total - free) as u128;
    let scaled = used * 10000;
    let q = scaled / (total as u128);
    proof {
        assert(used <= total);
        assert(scaled <= total as int * 10000) by (nonlinear_arith)
            requires
                scaled == used * 10000,
                used <= total,
        ;
        let ghost s: int = scaled as int;
        let ghost d: int = total as int;
        assert(s / d <= 10000) by (nonlinear_arith)
            requires
                s <= d * 10000,
                d > 0,
                s >= 0,
        ;
    }
    Some(q as u64)
}

/// A reading in hundredths of a percent, shown in percent with one decimal place
/// (the hundredths digit rounds half up).
pub open spec fn percent_text(usage: u64) -> Seq<char> {
    let tenths = (usage / 10 + (if usage % 10 >= 5 { 1int } else { 0int })) as nat;
    decimal(tenths / 10) + "."@ + decimal(tenths % 10) + "%"@
}

/// The word of the message for each band.
pub open spec fn band_word(state: HealthState) -> Seq<char> {
    match state {
        HealthState::Unhealthy => "critical"@,
        HealthState::Degraded => "high"@,
        HealthState::Healthy => "normal"@,
    }
}

/// `"<subject> usage <word>: <percent>"`, e.g. `Disk usage high: 81.5%`.
pub open spec fn usage_message(subject: Seq<char>, state: HealthState, usage: u64) -> Seq<char> {
    subject + " usage "@ + band_word(state) + ": "@ + percent_text(usage)
}

fn percent_string(usage: u64) -> (r: String)
    ensures
        r@ == percent_text(usage),
{
    let tenths = usage / 10 + if usage % 10 >= 5 { 1 } else { 0 };
    let whole = decimal_text(tenths / 10);
    let frac = decimal_text(tenths % 10);
    let mut s = join3(whole.as_str(), ".", frac.as_str());
    s.append("%");
    s
}

/// The result of a usage check: the band of `usage`, a message, checked at `now`.
pub fn usage_check_result(subject: &str, usage: u64, threshold: u64, now: i64) -> (r: CheckResult)
    ensures
        r.status == usage_band(usage, threshold),
        r.message@ == usage_message(subject@, r.status, usage),
        r.last_check == now,
        r.duration_ms == 0,
{
    let status = classify_usage(usage, threshold);
    let word = match status {
        HealthState::Unhealthy => "critical",
        HealthState::Degraded => "high",
        HealthState::Healthy => "normal",
    };
    let head = join3(subject, " usage ", word);
    let pct = percent_string(usage);
    let message = join3(head.as_str(), ": ", pct.as_str());
    CheckResult { status, message, last_check: now, duration_ms: 0 }
}

/// Disk usage of the file system holding `path`, against `threshold_percent` (hundredths of a percent).
#[derive(Clone, Debug)]
pub struct DiskSpaceHealthCheck {
    pub path: String,
    pub threshold_percent: u64,
}

impl DiskSpaceHealthCheck {
    pub fn new(path: String, threshold_percent: u64) -> (r: Self)
        ensures
            r.path == path,
            r.threshold_percent == threshold_percent,
    {
        DiskSpaceHealthCheck { path, threshold_percent }
    }

    pub fn name(&self) -> (r: &'static str)
        ensures
            r@ == "disk_space"@,
    {
        "disk_space"
    }

    /// The result for a disk usage reading (hundredths of a percent) taken at `now`.
    pub fn evaluate(&self, usage: u64, now: i64) -> (r: CheckResult)
        ensures
            r.status == usage_band(usage, self.threshold_percent),
            r.message@ == usage_message("Disk"@, r.status, usage),
            r.last_check == now,
            r.duration_ms == 0,
    {
        usage_check_result("Disk", usage, self.threshold_percent, now)
    }
}

/// Memory usage of the host, against `threshold_percent` (hundredths of a percent).
#[derive(Clone, Debug)]
pub struct MemoryHealthCheck {
    pub threshold_percent: u64,
}

impl MemoryHealthCheck {
    pub fn new(threshold_percent: u64) -> (r: Self)
        ensures
            r.threshold_percent == threshold_percent,
    {
        MemoryHealthCheck { threshold_percent }
    }

    pub fn name(&self) -> (r: &'static str)
        ensures
            r@ == "memory_usage"@,
    {
        "memory_usage"
    }

    /// The result for a memory usage reading (hundredths of a percent) taken at `now`.
    pub fn evaluate(&self, usage: u64, now: i64) -> (r: CheckResult)
        ensures
            r.status == usage_band(usage, self.threshold_percent),
            r.message@ == usage_message("Memory"@, r.status, usage),
            r.last_check == now,
            r.duration_ms == 0,
    {
        usage_check_result("Memory", usage, self.threshold_percent, now)
    }
}

/// Reachability of the control server's `/health` endpoint.
#[derive(Clone, Debug)]
pub struct ControlPlaneHealthCheck {
    pub server_url: String,
}

/// The state for a probe of the control server: a 2xx status is `Healthy`, another status
/// `Degraded`, no response at all `Unhealthy`.
pub open spec fn reachability_state(response: Result<(u16, String), String>) -> HealthState {
    match response {
        Ok((code, _)) => if 200 <= code <= 299 { HealthState::Healthy } else { HealthState::Degraded },
        Err(_) => HealthState::Unhealthy,
    }
}

impl ControlPlaneHealthCheck {
    pub fn new(server_url: String) -> (r: Self)
        ensures
            r.server_url == server_url,
    {
        ControlPlaneHealthCheck { server_url }
    }

    pub fn name(&self) -> (r: &'static str)
        ensures
            r@ == "control_plane_connectivity"@,
    {
        "control_plane_connectivity"
    }

    /// The address probed: `<server_url>/health`.
    pub fn health_url(&self) -> (r: String)
        ensures
            r@ == self.server_url@ + "/health"@,
    {
        join2(self.server_url.as_str(), "/health")
    }

    /// The result for a probe that returned a status code and its text, or failed with an error text.
    pub fn evaluate(&self, response: Result<(u16, String), String>, now: i64) -> (r: CheckResult)
        ensures
            r.status == reachability_state(response),
            r.message@ == match response {
                Ok((code, text)) => if 200 <= code <= 299 {
                    "Control plane is reachable"@
                } else {
                    "Control plane returned status: "@ + text@
                },
                Err(e) => "Cannot reach control plane: "@ + e@,
            },
            r.last_check == now,
            r.duration_ms == 0,
    {
        let (status, message) = match &response {
            Ok((code, text)) => if 200 <= *code && *code <= 299 {
                (HealthState::Healthy, "Control plane is reachable".to_owned())
            } else {
                (HealthState::Degraded, join2("Control plane returned status: ", text.as_str()))
            },
            Err(e) => (HealthState::Unhealthy, join2("Cannot reach control plane: ", e.as_str())),
        };
        CheckResult { status, message, last_check: now, duration_ms: 0 }
    }
}

/// The checks the agent ships with; each one's probe runs outside the library.
#[derive(Clone, Debug)]
pub enum BuiltinCheck {
    ControlPlane(ControlPlaneHealthCheck),
    DiskSpace(DiskSpaceHealthCheck),
    Memory(MemoryHealthCheck),
}

impl BuiltinCheck {
    pub open spec fn spec_name(&self) -> Seq<char> {
        match self {
            BuiltinCheck::ControlPlane(_) => "control_plane_connectivity"@,
            BuiltinCheck::DiskSpace(_) => "disk_space"@,
            BuiltinCheck::Memory(_) => "memory_usage"@,
        }
    }

    /// The name the check is registered under.
    pub fn name(&self) -> (r: &'static str)
        ensures
            r@ == self.spec_name(),
    {
        match self {
            BuiltinCheck::ControlPlane(c) => c.name(),
            BuiltinCheck::DiskSpace(c) => c.name(),
            BuiltinCheck::Memory(c) => c.name(),
        }
    }
}

impl HealthChecker<BuiltinCheck> {
    /// Registers a built-in check under its own name.
    pub fn register_builtin(&mut self, check: BuiltinCheck)
        requires
            old(self).wf(),
        ensures
            final(self).wf(),
            final(self).registered() == old(self).registered().insert(check.spec_name(), check),
            final(self).start_time == old(self).start_time,
            final(self).version == old(self).version,
    {
        let name = check.name().to_owned();
        self.register_check(name, check);
    }
}

} // verus!
