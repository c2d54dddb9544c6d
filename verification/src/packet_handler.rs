//! The direction in which a pipe carries packets.

use vstd::prelude::*;

verus! {

/// The direction of a pipe. It selects the handler operation that a packet
/// of that pipe is given to.
#[derive(Clone, Copy, Debug, PartialEq, Eq, Structural)]
pub enum Direction {
    /// From the client to the backend.
    Forward,
    /// From the backend to the client.
    Backward,
}

/// The name of a direction as diagnostics show it.
pub open spec fn direction_name(direction: Direction) -> Seq<char> {
    match direction {
        Direction::Forward => "Forward"@,
        Direction::Backward => "Backward"@,
    }
}

impl Direction {
    /// The name of this direction as diagnostics show it.
    pub fn name(&self) -> (s: &'static str)
        ensures
            s@ == direction_name(*self),
    {
        match self {
            Direction::Forward => "Forward",
            Direction::Backward => "Backward",
        }
    }
}

} // verus!
