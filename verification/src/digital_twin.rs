//! The digital twin: state that follows the canonical requests and what the
//! adapters answer. Nothing is kept yet: the type marks the place.

use vstd::prelude::*;

verus! {

/// A handle to the digital twin.
#[derive(Debug, Clone, Copy, PartialEq, Eq, Structural)]
pub struct DigitalTwin;

impl DigitalTwin {
    /// A handle to the twin.
    pub fn new() -> (twin: Self)
        ensures
            twin == DigitalTwin,
    {
        DigitalTwin
    }
}

impl Default for DigitalTwin {
    fn default() -> (twin: Self)
        ensures
            twin == DigitalTwin,
    {
        DigitalTwin
    }
}

} // verus!
