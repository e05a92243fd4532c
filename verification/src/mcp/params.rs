//! The parameters of the tools.
//!
//! One struct per kind of parameterised tool. The ranges of the integers are
//! enforced when a request is built, in [`super`].

use vstd::prelude::*;

verus! {

/// Input of the tools that can be restricted to one interface.
#[derive(Debug, Clone)]
pub struct InterfaceParams {
    /// Restrict output to this interface; omit for all interfaces.
    pub interface: Option<String>,
}

/// Input of the tools that need an interface.
#[derive(Debug, Clone)]
pub struct RequiredInterfaceParams {
    /// Interface to inspect.
    pub interface: String,
}

/// Input of the tools that need a target.
#[derive(Debug, Clone)]
pub struct TargetParams {
    /// IP address or hostname to inspect.
    pub target: String,
}

/// Input of `net.mac_lookup`.
#[derive(Debug, Clone)]
pub struct MacLookupParams {
    /// MAC address to look up, in `aa:bb:cc:dd:ee:ff` form.
    pub mac: String,
}

/// Input of `net.ping`.
#[derive(Debug, Clone)]
pub struct PingParams {
    /// IP address or hostname to ping.
    pub target: String,
    /// Echo requests to send (1-10, default 3).
    pub count: Option<u64>,
    /// Per-reply wait in seconds (1-5, default 2).
    pub timeout_secs: Option<u64>,
}

/// Input of `net.traceroute`.
#[derive(Debug, Clone)]
pub struct TracerouteParams {
    /// IP address or hostname to trace.
    pub target: String,
    /// Maximum hops to probe (1-30, default 12).
    pub max_hops: Option<u64>,
}

/// Input of `net.logs`.
#[derive(Debug, Clone)]
pub struct LogsParams {
    /// Number of recent journal lines to return (1-200, default 50).
    pub lines: Option<u64>,
    /// Restrict to this systemd unit; omit for all units.
    pub unit: Option<String>,
}

/// Input of `sys.service_status`.
#[derive(Debug, Clone)]
pub struct ServiceStatusParams {
    /// Systemd unit to inspect.
    pub unit: String,
    /// Number of status log lines to show (1-200, default 50).
    pub lines: Option<u64>,
}

/// Input of `net.tcpdump_sample`.
#[derive(Debug, Clone)]
pub struct TcpdumpParams {
    /// Interface to capture from.
    pub interface: String,
    /// Packets to capture (1-50, default 10).
    pub count: Option<u64>,
}

/// An optional text by its model.
pub open spec fn text_of(value: Option<String>) -> Option<Seq<char>> {
    match value {
        Some(s) => Some(s@),
        None => None,
    }
}

} // verus!
