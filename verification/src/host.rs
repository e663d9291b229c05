use vstd::prelude::*;
use crate::fault::{Fault, Outcome};

verus! {

/// Clock rate of the display's serial bus, in kilohertz.
pub const BUS_KILOHERTZ: u32 = 100;

/// What the execution host has to do next.
#[derive(Clone, Copy, Debug, PartialEq, Eq, Structural)]
pub enum HostOp {
    /// Claim the serial bus that the display hangs on.
    ClaimBus,
    /// Claim the output pin of indicator 1.
    ClaimPinA,
    /// Claim the output pin of indicator 2.
    ClaimPinB,
    /// Start the renderer on an execution context of its own.
    StartRenderer,
    /// Schedule the sequencer on the cooperative scheduler.
    StartSequencer,
    /// Block until one of the two loops reports a fault.
    Supervise,
}

/// The startup order and the supervision of the two loops.
///
/// `fault` is the terminal error of the process: the first fault recorded.
#[derive(Clone, Copy, Debug, PartialEq, Eq, Structural)]
pub struct Host {
    pub op: HostOp,
    pub fault: Option<Fault>,
}

impl HostOp {
    /// The operation that follows once this one is done. Supervision has no
    /// successor: the loops run for ever.
    pub open spec fn successor(self) -> HostOp {
        match self {
            HostOp::ClaimBus => HostOp::ClaimPinA,
            HostOp::ClaimPinA => HostOp::ClaimPinB,
            HostOp::ClaimPinB => HostOp::StartRenderer,
            HostOp::StartRenderer => HostOp::StartSequencer,
            HostOp::StartSequencer => HostOp::Supervise,
            HostOp::Supervise => HostOp::Supervise,
        }
    }

    pub fn next(self) -> (op: HostOp)
        ensures
            op == self.successor(),
    {
        match self {
            HostOp::ClaimBus => HostOp::ClaimPinA,
            HostOp::ClaimPinA => HostOp::ClaimPinB,
            HostOp::ClaimPinB => HostOp::StartRenderer,
            HostOp::StartRenderer => HostOp::StartSequencer,
            HostOp::StartSequencer => HostOp::Supervise,
            HostOp::Supervise => HostOp::Supervise,
        }
    }
}

impl Host {
    /// The host before anything was claimed.
    pub open spec fn initial() -> Host {
        Host { op: HostOp::ClaimBus, fault: None }
    }

    /// The operation the host has to perform in this state; `None` once a
    /// fault was recorded.
    pub open spec fn pending_op(self) -> Option<HostOp> {
        if self.fault.is_some() {
            None
        } else {
            Some(self.op)
        }
    }

    /// The state after a startup operation ended with `outcome`. Whatever
    /// cannot be claimed or started is a resource that is not to be had.
    /// While the loops are supervised there is nothing to end: the state stays.
    pub open spec fn after(self, outcome: Outcome) -> Host {
        if self.fault.is_some() || self.op == HostOp::Supervise {
            self
        } else if outcome == Outcome::Failed {
            Host { fault: Some(Fault::ResourceUnavailable), ..self }
        } else {
            Host { op: self.op.successor(), ..self }
        }
    }

    /// The state after one of the loops stopped with `fault`: the first fault
    /// recorded stays the terminal one.
    pub open spec fn after_worker_fault(self, fault: Fault) -> Host {
        if self.fault.is_some() {
            self
        } else {
            Host { fault: Some(fault), ..self }
        }
    }

    pub fn new() -> (h: Host)
        ensures
            h == Host::initial(),
    {
        Host { op: HostOp::ClaimBus, fault: None }
    }

    pub fn pending(&self) -> (op: Option<HostOp>)
        ensures
            op == self.pending_op(),
    {
        match self.fault {
            Some(_) => None,
            None => Some(self.op),
        }
    }

    /// Takes the outcome of the pending startup operation and answers with the
    /// next one, or with the terminal fault.
    pub fn advance(&mut self, outcome: Outcome) -> (next: Result<HostOp, Fault>)
        ensures
            *final(self) == old(self).after(outcome),
            next == (match final(self).fault {
                Some(fault) => Err::<HostOp, Fault>(fault),
                None => Ok(final(self).op),
            }),
    {
        if self.fault.is_none() {
            match (self.op, outcome) {
                (HostOp::Supervise, _) => {},
                (_, Outcome::Failed) => {
                    self.fault = Some(Fault::ResourceUnavailable);
                },
                (_, Outcome::Done) => {
                    self.op = self.op.next();
                },
            }
        }
        match self.fault {
            Some(fault) => Err(fault),
            None => Ok(self.op),
        }
    }

    /// Records that a loop stopped with `fault` and answers with the terminal
    /// fault of the process.
    pub fn worker_failed(&mut self, fault: Fault) -> (terminal: Fault)
        ensures
            *final(self) == old(self).after_worker_fault(fault),
            final(self).fault == Some(terminal),
    {
        match self.fault {
            Some(first) => first,
            None => {
                self.fault = Some(fault);
                fault
            },
        }
    }
}

} // verus!
