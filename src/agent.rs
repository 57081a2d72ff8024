use vstd::prelude::*;
use crate::config::AgentConfig;
use crate::control_plane::ControlPlane;
use crate::data_plane::DataPlane;
use crate::error::{ErrorRecovery, RetryManager};
use crate::health::{
    BuiltinCheck, ControlPlaneHealthCheck, DiskSpaceHealthCheck, HealthChecker, HealthState, MemoryHealthCheck,
};
use crate::metrics::MetricRegistry;
use crate::platform::PlatformInfo;
use crate::security::{SecurityConfig, SecurityValidator};
use crate::server::AgentServer;
use crate::types::AgentInfo;

verus! {

/// Seconds between two collections of host figures (and registry clean-ups).
pub const SYSTEM_METRICS_INTERVAL_SECS: u64 = 30;
/// Seconds between two records of the agent's own figures.
pub const AGENT_METRICS_INTERVAL_SECS: u64 = 60;
/// Seconds between two sweeps of the health checks.
pub const HEALTH_CHECK_INTERVAL_SECS: u64 = 60;
/// Seconds of inactivity after which a metric is dropped.
pub const METRIC_MAX_AGE_SECS: u64 = 3600;
/// Seconds to wait before restarting a control loop that stopped with an error.
pub const CONTROL_PLANE_RESTART_SECS: u64 = 30;
/// Port of the local HTTP surface when none is configured.
pub const DEFAULT_HTTP_PORT: u16 = 8080;
/// Disk usage threshold of the built-in check, in hundredths of a percent.
pub const DISK_THRESHOLD: u64 = 8000;
/// Memory usage threshold of the built-in check, in hundredths of a percent.
pub const MEMORY_THRESHOLD: u64 = 8500;

/// The identity of this agent: the configured id, or `generated_id` when none is configured.
pub fn agent_info(
    platform: PlatformInfo,
    configured_id: Option<u128>,
    generated_id: u128,
    version: String,
    now: i64,
) -> (r: AgentInfo)
    ensures
        r.id == match configured_id { Some(id) => id, None => generated_id },
        r.hostname == platform.hostname,
        r.platform == platform.os,
        r.arch == platform.arch,
        r.version == version,
        r.last_heartbeat == now,
{
    AgentInfo {
        id: match configured_id {
            Some(id) => id,
            None => generated_id,
        },
        hostname: platform.hostname,
        platform: platform.os,
        arch: platform.arch,
        version,
        last_heartbeat: now,
    }
}

/// Which parts the supervisor builds for a configuration.
pub struct AgentLayout {
    /// The disk check, on the root file system.
    pub disk_check: DiskSpaceHealthCheck,
    /// The memory check.
    pub memory_check: MemoryHealthCheck,
    /// Run the control loop.
    pub control_plane: bool,
    /// Run the telemetry pipeline.
    pub data_plane: bool,
    /// Serve the local HTTP surface on this port.
    pub server_port: Option<u16>,
}

/// The parts to build: the control loop only with the control plane enabled, the pipeline only with the data plane enabled, the HTTP surface only when
/// enabled (on port 8080 unless configured), and always the disk and memory checks.
pub fn agent_layout(config: &AgentConfig) -> (r: AgentLayout)
    ensures
        r.control_plane == config.control_plane.enabled,
        r.data_plane == config.data_plane.enabled,
        r.disk_check.path@ == "/"@,
        r.disk_check.threshold_percent == DISK_THRESHOLD,
        r.memory_check.threshold_percent == MEMORY_THRESHOLD,
        r.server_port == (if config.agent.enable_http_server == Some(true) {
            Some(match config.agent.http_port { Some(p) => p, None => DEFAULT_HTTP_PORT })
        } else {
            None::<u16>
        }),
{
    let serve = match config.agent.enable_http_server {
        Some(b) => b,
        None => false,
    };
    let server_port = if serve {
        Some(match config.agent.http_port {
            Some(p) => p,
            None => DEFAULT_HTTP_PORT,
        })
    } else {
        None
    };
    AgentLayout {
        disk_check: DiskSpaceHealthCheck::new("/".to_owned(), DISK_THRESHOLD),
        memory_check: MemoryHealthCheck::new(MEMORY_THRESHOLD),
        control_plane: config.control_plane.enabled,
        data_plane: config.data_plane.enabled,
        server_port,
    }
}

/// Whether a health sweep with this overall state deserves a warning.
pub fn health_needs_warning(state: HealthState) -> (r: bool)
    ensures
        r == (state != HealthState::Healthy),
{
    match state {
        HealthState::Healthy => false,
        _ => true,
    }
}

/// The agent's library-level state: identity, configuration, and the components the
/// supervisor drives.
pub struct Agent {
    pub config: AgentConfig,
    pub agent_info: AgentInfo,
    pub control_plane: Option<ControlPlane>,
    pub data_plane: Option<DataPlane>,
    pub health_checker: HealthChecker<BuiltinCheck>,
    pub metric_registry: MetricRegistry,
    pub security_validator: SecurityValidator,
    pub retry_manager: RetryManager,
    pub server: Option<AgentServer>,
}

impl Agent {
    /// Builds the agent for `config` on a host described by `platform`, at monotonic
    /// instant `now_ms` and wall-clock `now`: the configured id (else `generated_id`), an
    /// empty registry, default security and retry settings, all three built-in checks, and
    /// each optional part as `agent_layout` says.
    pub fn new(
        config: AgentConfig,
        platform: PlatformInfo,
        generated_id: u128,
        version: String,
        now_ms: u64,
        now: i64,
    ) -> (r: Agent)
        ensures
            r.agent_info.id == match config.agent.id { Some(id) => id, None => generated_id },
            r.agent_info.hostname == platform.hostname,
            r.agent_info.platform == platform.os,
            r.agent_info.arch == platform.arch,
            r.agent_info.version == version,
            r.agent_info.last_heartbeat == now,
            r.config == config,
            r.metric_registry.wf(),
            r.metric_registry.view_map().len() == 0,
            r.retry_manager.failure_count == 0,
            r.retry_manager.config.max_retries == 3,
            r.retry_manager.config.retry_delay_ms == 1000,
            r.retry_manager.config.exponential_backoff,
            r.retry_manager.config.circuit_breaker_threshold == 5,
            r.security_validator.config.is_default(),
            r.control_plane matches Some(cp) ==> cp.security_validator.config.is_default(),
            r.health_checker.wf(),
            r.health_checker.start_time == now_ms,
            r.health_checker.version@ == version@,
            r.health_checker.registered().dom() == set!["control_plane_connectivity"@, "disk_space"@, "memory_usage"@],
            r.health_checker.registered()["disk_space"@] matches BuiltinCheck::DiskSpace(d)
                && d.path@ == "/"@ && d.threshold_percent == DISK_THRESHOLD,
            r.health_checker.registered()["memory_usage"@] matches BuiltinCheck::Memory(m)
                && m.threshold_percent == MEMORY_THRESHOLD,
            r.health_checker.registered()["control_plane_connectivity"@] matches BuiltinCheck::ControlPlane(c)
                && c.server_url == config.control_plane.server_url,
            r.control_plane is Some == config.control_plane.enabled,
            r.control_plane matches Some(cp) ==> cp.config == config.control_plane && cp.agent_info == r.agent_info,
            r.data_plane is Some == config.data_plane.enabled,
            r.data_plane matches Some(dp) ==> dp.config.buffer_size == config.data_plane.buffer_size
                && dp.config.collectors@.len() == config.data_plane.collectors@.len()
                && dp.config.exporters@.len() == config.data_plane.exporters@.len(),
            r.server is Some == (config.agent.enable_http_server == Some(true)),
            r.server matches Some(s) ==> s.port == match config.agent.http_port { Some(p) => p, None => DEFAULT_HTTP_PORT },
    {
        let info = agent_info(platform, config.agent.id, generated_id, version, now);
        let layout = agent_layout(&config);
        let mut checker: HealthChecker<BuiltinCheck> = HealthChecker::new(&info, now_ms);
        proof {
            reveal_strlit("control_plane_connectivity");
            reveal_strlit("disk_space");
            reveal_strlit("memory_usage");
            assert("control_plane_connectivity"@[0] != "disk_space"@[0]);
            assert("control_plane_connectivity"@[0] != "memory_usage"@[0]);
            assert("disk_space"@[0] != "memory_usage"@[0]);
        }
        checker.register_builtin(BuiltinCheck::ControlPlane(
            ControlPlaneHealthCheck::new(config.control_plane.server_url.clone()),
        ));
        checker.register_builtin(BuiltinCheck::DiskSpace(layout.disk_check));
        checker.register_builtin(BuiltinCheck::Memory(layout.memory_check));
        proof {
            assert(checker.registered().dom() =~= set!["control_plane_connectivity"@, "disk_space"@, "memory_usage"@]);
        }
        let control_plane = if layout.control_plane {
            Some(ControlPlane::new(
                config.control_plane.copied(),
                info.copied(),
                SecurityValidator::new(SecurityConfig::default_config()),
            ))
        } else {
            None
        };
        let data_plane = if layout.data_plane {
            Some(DataPlane::new(config.data_plane.copied()))
        } else {
            None
        };
        let server = match layout.server_port {
            Some(p) => Some(AgentServer::new(p)),
            None => None,
        };
        Agent {
            config,
            agent_info: info,
            control_plane,
            data_plane,
            health_checker: checker,
            metric_registry: MetricRegistry::new(),
            security_validator: SecurityValidator::new(SecurityConfig::default_config()),
            retry_manager: RetryManager::new(ErrorRecovery::default_config()),
            server,
        }
    }

    pub fn get_agent_info(&self) -> (r: &AgentInfo)
        ensures
            r == &self.agent_info,
    {
        &self.agent_info
    }

    pub fn get_config(&self) -> (r: &AgentConfig)
        ensures
            r == &self.config,
    {
        &self.config
    }

    pub fn get_health_checker(&self) -> (r: &HealthChecker<BuiltinCheck>)
        ensures
            r == &self.health_checker,
    {
        &self.health_checker
    }

    pub fn get_metric_registry(&self) -> (r: &MetricRegistry)
        ensures
            r == &self.metric_registry,
    {
        &self.metric_registry
    }

    pub fn get_security_validator(&self) -> (r: &SecurityValidator)
        ensures
            r == &self.security_validator,
    {
        &self.security_validator
    }
}

} // verus!
