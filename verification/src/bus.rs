//! The message bus that agentic workflows and optional modules coordinate
//! over. Nothing travels over it yet: the type marks the place.

use vstd::prelude::*;

verus! {

/// A handle to the message bus.
#[derive(Debug, Clone, Copy, PartialEq, Eq, Structural)]
pub struct Bus;

impl Bus {
    /// A handle to the bus.
    pub fn new() -> (bus: Self)
        ensures
            bus == Bus,
    {
        Bus
    }
}

impl Default for Bus {
    fn default() -> (bus: Self)
        ensures
            bus == Bus,
    {
        Bus
    }
}

} // verus!
