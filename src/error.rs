use vstd::prelude::*;
use crate::text::join2;

verus! {

/// Error kinds of the agent, each with a description.
pub enum AgentError {
    ConfigError(String),
    NetworkError(String),
    SecurityError(String),
    PlatformError(String),
    CommandError(String),
    DataPlaneError(String),
    ControlPlaneError(String),
    HealthCheckError(String),
    ServerError(String),
    ValidationError(String),
    TimeoutError(String),
    AuthenticationError(String),
    PermissionError(String),
    ResourceError(String),
}

impl AgentError {
    /// The description carried by the error.
    pub open spec fn detail(&self) -> Seq<char> {
        match self {
            AgentError::ConfigError(m) => m@,
            AgentError::NetworkError(m) => m@,
            AgentError::SecurityError(m) => m@,
            AgentError::PlatformError(m) => m@,
            AgentError::CommandError(m) => m@,
            AgentError::DataPlaneError(m) => m@,
            AgentError::ControlPlaneError(m) => m@,
            AgentError::HealthCheckError(m) => m@,
            AgentError::ServerError(m) => m@,
            AgentError::ValidationError(m) => m@,
            AgentError::TimeoutError(m) => m@,
            AgentError::AuthenticationError(m) => m@,
            AgentError::PermissionError(m) => m@,
            AgentError::ResourceError(m) => m@,
        }
    }

    /// The words that introduce the error's kind.
    pub open spec fn kind_text(&self) -> Seq<char> {
        match self {
            AgentError::ConfigError(_) => "Configuration error: "@,
            AgentError::NetworkError(_) => "Network error: "@,
            AgentError::SecurityError(_) => "Security error: "@,
            AgentError::PlatformError(_) => "Platform error: "@,
            AgentError::CommandError(_) => "Command error: "@,
            AgentError::DataPlaneError(_) => "Data plane error: "@,
            AgentError::ControlPlaneError(_) => "Control plane error: "@,
            AgentError::HealthCheckError(_) => "Health check error: "@,
            AgentError::ServerError(_) => "Server error: "@,
            AgentError::ValidationError(_) => "Validation error: "@,
            AgentError::TimeoutError(_) => "Timeout error: "@,
            AgentError::AuthenticationError(_) => "Authentication error: "@,
            AgentError::PermissionError(_) => "Permission error: "@,
            AgentError::ResourceError(_) => "Resource error: "@,
        }
    }

    /// The error as text: its kind, then its description.
    pub fn message(&self) -> (r: String)
        ensures
            r@ == self.kind_text() + self.detail(),
    {
        match self {
            AgentError::ConfigError(m) => join2("Configuration error: ", m.as_str()),
            AgentError::NetworkError(m) => join2("Network error: ", m.as_str()),
            AgentError::SecurityError(m) => join2("Security error: ", m.as_str()),
            AgentError::PlatformError(m) => join2("Platform error: ", m.as_str()),
            AgentError::CommandError(m) => join2("Command error: ", m.as_str()),
            AgentError::DataPlaneError(m) => join2("Data plane error: ", m.as_str()),
            AgentError::ControlPlaneError(m) => join2("Control plane error: ", m.as_str()),
            AgentError::HealthCheckError(m) => join2("Health check error: ", m.as_str()),
            AgentError::ServerError(m) => join2("Server error: ", m.as_str()),
            AgentError::ValidationError(m) => join2("Validation error: ", m.as_str()),
            AgentError::TimeoutError(m) => join2("Timeout error: ", m.as_str()),
            AgentError::AuthenticationError(m) => join2("Authentication error: ", m.as_str()),
            AgentError::PermissionError(m) => join2("Permission error: ", m.as_str()),
            AgentError::ResourceError(m) => join2("Resource error: ", m.as_str()),
        }
    }
}

/// Retry and circuit-breaker settings.
#[derive(Clone, Copy, Debug)]
pub struct ErrorRecovery {
    pub max_retries: u32,
    pub retry_delay_ms: u64,
    pub exponential_backoff: bool,
    pub circuit_breaker_threshold: u32,
}

impl ErrorRecovery {
    /// Three attempts, one second apart at first and doubling, circuit open from five failures.
    pub fn default_config() -> (r: Self)
        ensures
            r.max_retries == 3,
            r.retry_delay_ms == 1000,
            r.exponential_backoff,
            r.circuit_breaker_threshold == 5,
    {
        ErrorRecovery {
            max_retries: 3,
            retry_delay_ms: 1000,
            exponential_backoff: true,
            circuit_breaker_threshold: 5,
        }
    }
}

impl Default for ErrorRecovery {
    fn default() -> (r: Self)
        ensures
            r.max_retries == 3,
            r.retry_delay_ms == 1000,
            r.exponential_backoff,
            r.circuit_breaker_threshold == 5,
    {
        ErrorRecovery::default_config()
    }
}

/// Progress of one retried operation: failed attempts so far, and the wait before the next one.
#[derive(Clone, Copy, Debug, PartialEq, Eq, Structural)]
pub struct RetryAttempt {
    pub attempts: u32,
    pub delay_ms: u64,
}

/// What to do after a failed attempt.
#[derive(Clone, Copy, Debug, PartialEq, Eq, Structural)]
pub enum RetryStep {
    /// Wait `delay_ms` milliseconds, then run the operation again.
    RetryAfter(u64),
    /// Stop and hand the last error to the caller.
    GiveUp,
}

/// `n + 1`, staying at the largest value once there.
pub open spec fn bump(n: u32) -> u32 {
    if n < u32::MAX { (n + 1) as u32 } else { n }
}

/// `2 * d`, staying at the largest value once there.
pub open spec fn doubled(d: u64) -> u64 {
    if d <= u64::MAX / 2 { (2 * d) as u64 } else { u64::MAX }
}

/// The first attempt of an operation under `config`.
pub open spec fn first_attempt(config: ErrorRecovery) -> RetryAttempt {
    RetryAttempt { attempts: 0, delay_ms: config.retry_delay_ms }
}

/// The progress after a failure of attempt `a`.
pub open spec fn after_failure(config: ErrorRecovery, a: RetryAttempt) -> RetryAttempt {
    RetryAttempt {
        attempts: bump(a.attempts),
        delay_ms: if config.exponential_backoff { doubled(a.delay_ms) } else { a.delay_ms },
    }
}

/// The step after a failure of attempt `a`: give up once `max_retries` attempts have failed,
/// else wait the current delay.
pub open spec fn step_after_failure(config: ErrorRecovery, a: RetryAttempt) -> RetryStep {
    if bump(a.attempts) >= config.max_retries {
        RetryStep::GiveUp
    } else {
        RetryStep::RetryAfter(a.delay_ms)
    }
}

/// How many times the operation runs, from attempt `a`, when its runs succeed or fail as
/// `outcomes` says (`true` for success) and the manager's steps are followed.
pub open spec fn invocations(config: ErrorRecovery, a: RetryAttempt, outcomes: Seq<bool>) -> nat
    decreases outcomes.len(),
{
    if outcomes.len() == 0 {
        0
    } else if outcomes[0] {
        1
    } else if step_after_failure(config, a) == RetryStep::GiveUp {
        1
    } else {
        1 + invocations(config, after_failure(config, a), outcomes.drop_first())
    }
}

/// Retry bookkeeping shared by the agent's components: the settings and the count of
/// failures since the last success.
pub struct RetryManager {
    pub config: ErrorRecovery,
    pub failure_count: u32,
}

impl RetryManager {
    /// Whether `failure_count` failures open the circuit under `config`.
    pub open spec fn circuit_open(config: ErrorRecovery, failure_count: u32) -> bool {
        failure_count >= config.circuit_breaker_threshold
    }

    pub fn new(config: ErrorRecovery) -> (r: Self)
        ensures
            r.config == config,
            r.failure_count == 0,
    {
        RetryManager { config, failure_count: 0 }
    }

    /// Whether callers should skip latency-sensitive work for now.
    pub fn is_circuit_open(&self) -> (r: bool)
        ensures
            r == Self::circuit_open(self.config, self.failure_count),
    {
        self.failure_count >= self.config.circuit_breaker_threshold
    }

    /// Closes the circuit by forgetting earlier failures.
    pub fn reset_circuit(&mut self)
        ensures
            final(self).failure_count == 0,
            final(self).config == old(self).config,
    {
        self.failure_count = 0;
    }

    /// The progress of a new operation: no failed attempt yet, the configured first delay.
    pub fn begin(&self) -> (r: RetryAttempt)
        ensures
            r == first_attempt(self.config),
    {
        RetryAttempt { attempts: 0, delay_ms: self.config.retry_delay_ms }
    }

    /// Records that an attempt succeeded: the failure count goes back to zero.
    pub fn record_success(&mut self)
        ensures
            final(self).failure_count == 0,
            final(self).config == old(self).config,
    {
        self.failure_count = 0;
    }

    /// Records that attempt `attempt` failed and says whether to retry, and after how long.
    pub fn record_failure(&mut self, attempt: &mut RetryAttempt) -> (r: RetryStep)
        ensures
            final(self).failure_count == bump(old(self).failure_count),
            final(self).config == old(self).config,
            *final(attempt) == after_failure(old(self).config, *old(attempt)),
            r == step_after_failure(old(self).config, *old(attempt)),
    {
        if self.failure_count < u32::MAX {
            self.failure_count = self.failure_count + 1;
        }
        let delay = attempt.delay_ms;
        if attempt.attempts < u32::MAX {
            attempt.attempts = attempt.attempts + 1;
        }
        if self.config.exponential_backoff {
            attempt.delay_ms = if attempt.delay_ms <= u64::MAX / 2 { attempt.delay_ms * 2 } else { u64::MAX };
        }
        if attempt.attempts >= self.config.max_retries {
            RetryStep::GiveUp
        } else {
            RetryStep::RetryAfter(delay)
        }
    }
}

/// From attempt `a`, with fewer than `max_retries` failures behind it, the operation runs at
/// most `max_retries - a.attempts` more times, whatever its outcomes.
pub proof fn lemma_invocations_from(config: ErrorRecovery, a: RetryAttempt, outcomes: Seq<bool>)
    requires
        a.attempts < config.max_retries,
    ensures
        invocations(config, a, outcomes) <= config.max_retries - a.attempts,
    decreases outcomes.len(),
{
    if outcomes.len() > 0 && !outcomes[0] && step_after_failure(config, a) != RetryStep::GiveUp {
        lemma_invocations_from(config, after_failure(config, a), outcomes.drop_first());
    }
}

/// With `max_retries = N` (at least one), a retried operation runs at most `N` times.
pub proof fn lemma_retry_bound(config: ErrorRecovery, outcomes: Seq<bool>)
    requires
        config.max_retries >= 1,
    ensures
        invocations(config, first_attempt(config), outcomes) <= config.max_retries,
{
    lemma_invocations_from(config, first_attempt(config), outcomes);
}

/// Once the failure count reaches the threshold the circuit is open, and one success closes it
/// again (for any threshold of at least one).
pub proof fn lemma_success_closes_circuit(m: RetryManager, after: RetryManager)
    requires
        m.config.circuit_breaker_threshold >= 1,
        after.config == m.config,
        after.failure_count == 0,
    ensures
        m.failure_count >= m.config.circuit_breaker_threshold ==> RetryManager::circuit_open(m.config, m.failure_count),
        !RetryManager::circuit_open(after.config, after.failure_count),
{
}

} // verus!
