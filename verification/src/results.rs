//! The outcome of one target's scan.

use vstd::prelude::*;
use vstd::relations::{sorted_by, total_ordering};
use vstd::seq_lib::lemma_sorted_unique;

verus! {

/// The size of the port space that the closed count is taken against,
/// however narrow the range that was asked for.
pub const PORT_SPACE: usize = 65535;

/// Whether ports stand in ascending order; equal ports may follow each
/// other.
pub open spec fn ascending(ports: Seq<u16>) -> bool {
    forall|i: int, j: int| 0 <= i <= j < ports.len() ==> ports[i] <= ports[j]
}

/// The discovered ports of a scan in ascending order. A port that was
/// reported twice stands twice.
#[derive(Debug)]
pub struct ScanResult {
    open_ports: Vec<u16>,
}

impl View for ScanResult {
    type V = Seq<u16>;

    /// The open ports, in the order in which they are presented.
    closed spec fn view(&self) -> Seq<u16> {
        self.open_ports@
    }
}

/// `Vec::sort` on ports: afterwards the same ports stand in ascending order.
#[verifier::external_body]
fn sort_ports(ports: &mut Vec<u16>)
    ensures
        ascending(final(ports)@),
        final(ports)@.to_multiset() == old(ports)@.to_multiset(),
{
    ports.sort();
}

impl ScanResult {
    /// What holds of every result: its ports ascend, and they are no more
    /// than the port space has.
    #[verifier::type_invariant]
    pub open spec fn wf(&self) -> bool {
        &&& ascending(self@)
        &&& self@.len() <= PORT_SPACE
    }

    /// Orders what the listener reported. Nothing is dropped and nothing
    /// added: the result holds each port as often as it was reported.
    pub fn from_discovered(discovered: Vec<u16>) -> (result: ScanResult)
        requires
            discovered@.len() <= PORT_SPACE,
        ensures
            result.wf(),
            result@.to_multiset() == discovered@.to_multiset(),
            result@.len() == discovered@.len(),
    {
        let mut open_ports = discovered;
        sort_ports(&mut open_ports);
        proof {
            discovered@.to_multiset_ensures();
            open_ports@.to_multiset_ensures();
        }
        ScanResult { open_ports }
    }

    /// The open ports in ascending order.
    pub fn open_ports(&self) -> (ports: &Vec<u16>)
        ensures
            ports@ == self@,
            ascending(ports@),
    {
        proof {
            use_type_invariant(self);
        }
        &self.open_ports
    }

    /// How many open ports were discovered.
    pub fn open_count(&self) -> (count: usize)
        ensures
            count == self@.len(),
            count <= PORT_SPACE,
    {
        proof {
            use_type_invariant(self);
        }
        self.open_ports.len()
    }

    /// How many ports of the whole port space were not found open.
    pub fn filtered_or_closed_count(&self) -> (count: usize)
        ensures
            count == PORT_SPACE - self@.len(),
    {
        proof {
            use_type_invariant(self);
        }
        PORT_SPACE - self.open_ports.len()
    }
}

/// The order of a result does not depend on the order in which its ports
/// were reported: two ascending lists of the same ports, each as often as
/// in the other, are the same list.
pub proof fn lemma_result_determined_by_reports(first: Seq<u16>, second: Seq<u16>)
    requires
        ascending(first),
        ascending(second),
        first.to_multiset() == second.to_multiset(),
    ensures
        first == second,
{
    let leq = |x: u16, y: u16| x <= y;
    assert(sorted_by(first, leq));
    assert(sorted_by(second, leq));
    assert(total_ordering(leq));
    lemma_sorted_unique(first, second, leq);
}

} // verus!
