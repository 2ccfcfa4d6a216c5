//! Driving one target's scan: what is done next, and how many sends may be
//! under way.
//!
//! The driver decides; its caller acts. The caller asks for the next action,
//! performs it, and reports each send that has come to its end. Nothing but
//! the driver's own state enters a decision, so the order of the scan and
//! the bound on concurrent sends hold whatever the caller's timing.

use crate::config::ScanRequest;
use vstd::prelude::*;

verus! {

/// How many sends may be under way at once.
pub const MAX_IN_FLIGHT: usize = 20;

/// How far a scan has come.
#[derive(Clone, Copy, Debug, PartialEq, Eq, Structural)]
pub enum ScanPhase {
    /// Nothing has been done yet.
    Created,
    /// The listener runs and probes are being sent.
    Sending,
    /// Every probe has been issued and the listener told to stop.
    StopSignalled,
    /// The producer side of the results channel has been closed.
    ResultsClosed,
    /// The results channel has been emptied.
    Drained,
    /// The report has been handed over.
    Presented,
}

/// What the caller of the driver is to do next.
#[derive(Clone, Copy, Debug, PartialEq, Eq, Structural)]
pub enum ScanAction {
    /// Start the listener in the background, with the stop signal unset.
    StartListener,
    /// Take a permit and start sending a probe to this port.
    Send(u16),
    /// Wait until one send has ended, then report it.
    AwaitSend,
    /// Set the stop signal.
    SignalStop,
    /// Close the producer side of the results channel.
    CloseResults,
    /// Take every buffered result from the channel.
    DrainResults,
    /// Sort the results and present them.
    Present,
    /// The scan is over.
    Finished,
}

/// The state of one target's scan.
#[derive(Debug)]
pub struct ScanDriver {
    request: ScanRequest,
    phase: ScanPhase,
    issued: usize,
    in_flight: usize,
}

impl ScanDriver {
    /// What the scan was asked for.
    pub closed spec fn request(&self) -> ScanRequest {
        self.request
    }

    /// How far the scan has come.
    pub closed spec fn phase(&self) -> ScanPhase {
        self.phase
    }

    /// How many probes have been issued.
    pub closed spec fn issued(&self) -> nat {
        self.issued as nat
    }

    /// How many sends hold a permit.
    pub closed spec fn in_flight(&self) -> nat {
        self.in_flight as nat
    }

    /// The ports that probes have been issued to, in order.
    pub open spec fn issued_ports(&self) -> Seq<u16> {
        self.request().ports().take(self.issued() as int)
    }

    /// What holds of every driver: no more sends are under way than permits
    /// exist or probes were issued; no probe is issued before the listener
    /// runs; and the stop signal is given only when every port has had its
    /// probe.
    #[verifier::type_invariant]
    pub open spec fn wf(&self) -> bool {
        &&& self.in_flight() <= MAX_IN_FLIGHT
        &&& self.in_flight() <= self.issued()
        &&& self.issued() <= self.request().ports().len()
        &&& self.phase() == ScanPhase::Created ==> self.issued() == 0
        &&& self.phase() != ScanPhase::Created && self.phase() != ScanPhase::Sending
            ==> self.issued() == self.request().ports().len()
    }

    /// Whether a sending driver's next turn is to wait for a send to end:
    /// while ports remain, because every permit is taken; once none remains,
    /// because the one probe of a single-port scan is still under way.
    pub open spec fn must_wait(&self) -> bool {
        if self.issued() < self.request().ports().len() {
            self.in_flight() == MAX_IN_FLIGHT
        } else {
            self.request() is SinglePort && self.in_flight() > 0
        }
    }

    /// The action that the driver takes next.
    pub open spec fn next(&self) -> ScanAction {
        match self.phase() {
            ScanPhase::Created => ScanAction::StartListener,
            ScanPhase::Sending => {
                if self.must_wait() {
                    ScanAction::AwaitSend
                } else if self.issued() < self.request().ports().len() {
                    ScanAction::Send(self.request().ports()[self.issued() as int])
                } else {
                    ScanAction::SignalStop
                }
            },
            ScanPhase::StopSignalled => ScanAction::CloseResults,
            ScanPhase::ResultsClosed => ScanAction::DrainResults,
            ScanPhase::Drained => ScanAction::Present,
            ScanPhase::Presented => ScanAction::Finished,
        }
    }

    /// The phase that an action leads to from `phase`.
    pub open spec fn phase_after(phase: ScanPhase, action: ScanAction) -> ScanPhase {
        match action {
            ScanAction::StartListener => ScanPhase::Sending,
            ScanAction::SignalStop => ScanPhase::StopSignalled,
            ScanAction::CloseResults => ScanPhase::ResultsClosed,
            ScanAction::DrainResults => ScanPhase::Drained,
            ScanAction::Present => ScanPhase::Presented,
            ScanAction::Send(_) | ScanAction::AwaitSend | ScanAction::Finished => phase,
        }
    }

    /// A driver for a scan that has not begun.
    pub fn new(request: ScanRequest) -> (driver: ScanDriver)
        ensures
            driver.wf(),
            driver.request() == request,
            driver.phase() == ScanPhase::Created,
            driver.issued() == 0,
            driver.in_flight() == 0,
    {
        ScanDriver { request, phase: ScanPhase::Created, issued: 0, in_flight: 0 }
    }

    /// How many sends hold a permit: never more than `MAX_IN_FLIGHT`.
    pub fn sends_in_flight(&self) -> (count: usize)
        ensures
            count == self.in_flight(),
            count <= MAX_IN_FLIGHT,
    {
        proof {
            use_type_invariant(self);
        }
        self.in_flight
    }

    /// How many probes have been issued.
    pub fn probes_issued(&self) -> (count: usize)
        ensures
            count == self.issued(),
    {
        self.issued
    }

    /// How far the scan has come.
    pub fn current_phase(&self) -> (phase: ScanPhase)
        ensures
            phase == self.phase(),
    {
        self.phase
    }

    /// Decides what is done next and moves on to the state in which it has
    /// been done.
    ///
    /// A probe is issued only while fewer than `MAX_IN_FLIGHT` sends are
    /// under way, and takes a permit; the ports are issued in the order of
    /// the request, each once. The driver asks to wait only while a send is
    /// under way to wait for. The stop signal follows the last probe at
    /// once, except that a single-port scan first waits for its one send.
    pub fn next_action(&mut self) -> (action: ScanAction)
        ensures
            final(self).wf(),
            final(self).in_flight() <= MAX_IN_FLIGHT,
            action == old(self).next(),
            final(self).request() == old(self).request(),
            final(self).phase() == Self::phase_after(old(self).phase(), action),
            action is Send ==> {
                &&& old(self).in_flight() < MAX_IN_FLIGHT
                &&& final(self).in_flight() == old(self).in_flight() + 1
                &&& final(self).issued() == old(self).issued() + 1
                &&& final(self).issued_ports() == old(self).issued_ports().push(action->Send_0)
            },
            !(action is Send) ==> {
                &&& final(self).in_flight() == old(self).in_flight()
                &&& final(self).issued() == old(self).issued()
            },
            action is AwaitSend ==> old(self).in_flight() > 0,
            action is SignalStop ==> final(self).issued_ports() == final(self).request().ports(),
    {
        proof {
            use_type_invariant(&*self);
        }
        let count = self.request.port_count();
        match self.phase {
            ScanPhase::Created => {
                self.phase = ScanPhase::Sending;
                ScanAction::StartListener
            },
            ScanPhase::Sending => {
                if self.issued < count {
                    if self.in_flight == MAX_IN_FLIGHT {
                        ScanAction::AwaitSend
                    } else {
                        let port = self.request.port_at(self.issued);
                        self.issued = self.issued + 1;
                        self.in_flight = self.in_flight + 1;
                        assert(self.issued_ports() =~= old(self).issued_ports().push(port));
                        ScanAction::Send(port)
                    }
                } else if self.single_port() && self.in_flight > 0 {
                    ScanAction::AwaitSend
                } else {
                    self.phase = ScanPhase::StopSignalled;
                    assert(self.issued_ports() =~= self.request().ports());
                    ScanAction::SignalStop
                }
            },
            ScanPhase::StopSignalled => {
                self.phase = ScanPhase::ResultsClosed;
                ScanAction::CloseResults
            },
            ScanPhase::ResultsClosed => {
                self.phase = ScanPhase::Drained;
                ScanAction::DrainResults
            },
            ScanPhase::Drained => {
                self.phase = ScanPhase::Presented;
                ScanAction::Present
            },
            ScanPhase::Presented => ScanAction::Finished,
        }
    }

    /// Takes note that one send has ended and given its permit back. A
    /// report that no send under way answers to changes nothing.
    pub fn send_completed(&mut self)
        ensures
            final(self).wf(),
            final(self).in_flight() <= MAX_IN_FLIGHT,
            final(self).request() == old(self).request(),
            final(self).phase() == old(self).phase(),
            final(self).issued() == old(self).issued(),
            old(self).in_flight() > 0 ==> final(self).in_flight() == old(self).in_flight() - 1,
            old(self).in_flight() == 0 ==> final(self).in_flight() == 0,
    {
        proof {
            use_type_invariant(&*self);
        }
        if self.in_flight > 0 {
            self.in_flight = self.in_flight - 1;
        }
    }

    fn single_port(&self) -> (single: bool)
        ensures
            single == (self.request() is SinglePort),
    {
        match self.request {
            ScanRequest::SinglePort(_) => true,
            ScanRequest::PortRange { .. } => false,
        }
    }
}

} // verus!
