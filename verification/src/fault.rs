use vstd::prelude::*;

verus! {

/// Why a component stopped. Every fault is final: nothing is retried.
#[derive(Clone, Copy, Debug, PartialEq, Eq, Structural)]
pub enum Fault {
    /// A peripheral or pin could not be claimed at startup.
    ResourceUnavailable,
    /// A pin write, a buffer operation or a bus transmission failed.
    HardwareIOFailure,
    /// The display could not be configured or did not answer its handshake.
    BusInitFailure,
}

/// How the host reports the operation it was asked to perform.
#[derive(Clone, Copy, Debug, PartialEq, Eq, Structural)]
pub enum Outcome {
    Done,
    Failed,
}

impl Fault {
    /// The process status that goes with this fault; never zero.
    pub open spec fn status(self) -> int {
        match self {
            Fault::ResourceUnavailable => 2,
            Fault::HardwareIOFailure => 3,
            Fault::BusInitFailure => 4,
        }
    }

    pub fn exit_status(self) -> (code: u8)
        ensures
            code as int == self.status(),
            code != 0,
    {
        match self {
            Fault::ResourceUnavailable => 2,
            Fault::HardwareIOFailure => 3,
            Fault::BusInitFailure => 4,
        }
    }
}

} // verus!
