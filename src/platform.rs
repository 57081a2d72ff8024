use vstd::prelude::*;

verus! {

/// Operating system, architecture and host name of the machine.
pub struct PlatformInfo {
    pub os: String,
    pub arch: String,
    pub hostname: String,
}

/// One probe of the host: each usage is the IEEE-754 bit pattern of an `f64` percentage.
#[derive(Clone, Copy, Debug)]
pub struct SystemMetrics {
    pub cpu_usage: u64,
    pub memory_usage: u64,
    pub disk_usage: u64,
}

} // verus!
