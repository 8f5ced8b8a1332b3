//! The errors of a pipe, and how grave they are.
use vstd::prelude::*;

verus! {

/// What can go wrong with a pipe.
#[derive(Copy, Clone, Debug, PartialEq, Eq)]
pub enum PipeErr {
    ShortPacket,
    InvalidPipe,
    InvalidToken,
    InvalidRequest,
    Stall,
    TransferFail,
    PipeErr,
    Flow,
    HardwareTimeout,
    DataToggle,
    SoftwareTimeout,
    Other(&'static str),
}

impl From<&'static str> for PipeErr {
    fn from(v: &'static str) -> (e: Self)
        ensures
            e == PipeErr::Other(v),
    {
        Self::Other(v)
    }
}

impl vstd::std_specs::convert::FromSpecImpl<&'static str> for PipeErr {
    open spec fn obeys_from_spec() -> bool {
        true
    }

    open spec fn from_spec(v: &'static str) -> Self {
        PipeErr::Other(v)
    }
}

/// Whether a transfer that failed can be tried again.
#[derive(Copy, Clone, Debug, PartialEq, Eq)]
pub enum Failure {
    /// The transfer may succeed when it is tried again
    Transient(&'static str),
    /// The transfer will not succeed
    Permanent(&'static str),
}

impl PipeErr {
    /// How grave the error is, and what it is in words: a failed transfer, a
    /// data flow error and a wrong data toggle are transient, all others are
    /// permanent.
    pub open spec fn spec_failure(self) -> Failure {
        match self {
            PipeErr::TransferFail => Failure::Transient("Transfer failed"),
            PipeErr::Flow => Failure::Transient("Data flow"),
            PipeErr::DataToggle => Failure::Transient("Data toggle"),
            PipeErr::ShortPacket => Failure::Permanent("Short packet"),
            PipeErr::InvalidPipe => Failure::Permanent("Invalid pipe"),
            PipeErr::InvalidToken => Failure::Permanent("Invalid token"),
            PipeErr::Stall => Failure::Permanent("Stall"),
            PipeErr::PipeErr => Failure::Permanent("Pipe error"),
            PipeErr::HardwareTimeout => Failure::Permanent("Hardware timeout"),
            PipeErr::SoftwareTimeout => Failure::Permanent("Software timeout"),
            PipeErr::Other(s) => Failure::Permanent(s),
            PipeErr::InvalidRequest => Failure::Permanent("Invalid request"),
        }
    }

    /// How grave the error is, and what it is in words.
    pub fn failure(self) -> (f: Failure)
        ensures
            f == self.spec_failure(),
    {
        match self {
            PipeErr::TransferFail => Failure::Transient("Transfer failed"),
            PipeErr::Flow => Failure::Transient("Data flow"),
            PipeErr::DataToggle => Failure::Transient("Data toggle"),
            PipeErr::ShortPacket => Failure::Permanent("Short packet"),
            PipeErr::InvalidPipe => Failure::Permanent("Invalid pipe"),
            PipeErr::InvalidToken => Failure::Permanent("Invalid token"),
            PipeErr::Stall => Failure::Permanent("Stall"),
            PipeErr::PipeErr => Failure::Permanent("Pipe error"),
            PipeErr::HardwareTimeout => Failure::Permanent("Hardware timeout"),
            PipeErr::SoftwareTimeout => Failure::Permanent("Software timeout"),
            PipeErr::Other(s) => Failure::Permanent(s),
            PipeErr::InvalidRequest => Failure::Permanent("Invalid request"),
        }
    }
}

} // verus!
