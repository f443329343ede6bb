//! Deployment settings the request logic depends on: which backend runs the
//! sessions, and the bare-metal ports.
use vstd::prelude::*;

verus! {

/// Where sessions run: in Kubernetes pods, or as Spur jobs on bare metal.
#[derive(Debug, Clone, Copy, PartialEq, Eq, Structural)]
pub enum Backend {
    K8s,
    BareMetal,
}

/// Ports used on the bare-metal backend.
#[derive(Debug, Clone, Copy)]
pub struct BareMetalSettings {
    pub agent_port: u16,
    pub ssh_port_base: u16,
    pub ssh_port_range: u16,
}

/// Port of the Spur agent on compute nodes: the configured one, 6818 by default.
pub fn agent_port(settings: Option<BareMetalSettings>) -> (port: u16)
    ensures
        port == (match settings {
            Some(s) => s.agent_port,
            None => 6818u16,
        }),
{
    match settings {
        Some(s) => s.agent_port,
        None => 6818,
    }
}

/// First SSH port and size of the SSH port window on bare metal: the
/// configured ones, 10000 and 50000 by default.
pub fn ssh_port_window(settings: Option<BareMetalSettings>) -> (window: (u16, u16))
    ensures
        window == (match settings {
            Some(s) => (s.ssh_port_base, s.ssh_port_range),
            None => (10000u16, 50000u16),
        }),
{
    match settings {
        Some(s) => (s.ssh_port_base, s.ssh_port_range),
        None => (10000, 50000),
    }
}

} // verus!
