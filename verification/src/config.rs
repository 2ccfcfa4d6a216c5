//! What one target's scan is given to work with.

use crate::address::Ipv4Address;
use vstd::prelude::*;

verus! {

/// The lowest source port that a scan session draws.
pub const MIN_SOURCE_PORT: u16 = 10000;

/// The highest source port that a scan session draws.
pub const MAX_SOURCE_PORT: u16 = 65535;

/// The settings of one target's scan. They are fixed before the scan begins
/// and shared, unchanged, by the listener and every sender.
#[derive(Clone, Copy, Debug, PartialEq, Eq, Structural)]
pub struct ScanConfig {
    /// The host whose ports are probed.
    pub target_ip: Ipv4Address,
    /// The operating system's index of the interface that frames are
    /// captured on.
    pub interface_index: u32,
    /// The address that probes are sent from: the first IPv4 address of the
    /// interface.
    pub source_ip: Ipv4Address,
    /// The port that probes are sent from and replies come back to.
    pub source_port: u16,
    /// Whether each discovery is announced as it is made.
    pub verbose: bool,
}

/// What is asked of a scan: one port, or the ports from `start` up to but
/// not including `end`.
#[derive(Clone, Copy, Debug, PartialEq, Eq, Structural)]
pub enum ScanRequest {
    SinglePort(u16),
    PortRange { start: u16, end: u16 },
}

impl ScanRequest {
    /// The destination ports of the request, in the order in which they are
    /// probed.
    pub open spec fn ports(self) -> Seq<u16> {
        match self {
            ScanRequest::SinglePort(port) => seq![port],
            ScanRequest::PortRange { start, end } => {
                if start < end {
                    Seq::new((end - start) as nat, |i: int| (start + i) as u16)
                } else {
                    Seq::empty()
                }
            },
        }
    }

    /// How many ports the request names.
    pub fn port_count(&self) -> (count: usize)
        ensures
            count == self.ports().len(),
    {
        match self {
            ScanRequest::SinglePort(_) => 1,
            ScanRequest::PortRange { start, end } => {
                if *start < *end {
                    (*end - *start) as usize
                } else {
                    0
                }
            },
        }
    }

    /// The port that is probed after `index` others.
    pub fn port_at(&self, index: usize) -> (port: u16)
        requires
            index < self.ports().len(),
        ensures
            port == self.ports()[index as int],
    {
        match self {
            ScanRequest::SinglePort(port) => *port,
            ScanRequest::PortRange { start, end } => (*start as usize + index) as u16,
        }
    }
}

} // verus!
