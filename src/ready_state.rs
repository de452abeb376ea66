use vstd::prelude::*;

verus! {

/// The externally visible state of a connection.
#[derive(PartialEq, Eq, Structural, Clone, Copy, Debug)]
pub enum ReadyState {
    Connecting,
    Open,
    Closing,
    Closed,
}

impl ReadyState {
    /// The integer that the consumer reads for this state.
    pub open spec fn spec_code(self) -> u16 {
        match self {
            ReadyState::Connecting => 0,
            ReadyState::Open => 1,
            ReadyState::Closing => 2,
            ReadyState::Closed => 3,
        }
    }

    /// `self` may be followed by `next`: states only move forward.
    pub open spec fn may_advance_to(self, next: ReadyState) -> bool {
        self.spec_code() <= next.spec_code()
    }

    pub fn code(self) -> (r: u16)
        ensures
            r == self.spec_code(),
            r <= 3,
    {
        match self {
            ReadyState::Connecting => 0,
            ReadyState::Open => 1,
            ReadyState::Closing => 2,
            ReadyState::Closed => 3,
        }
    }
}

} // verus!
