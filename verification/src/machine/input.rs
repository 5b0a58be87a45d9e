//! The input devices of the machine.
use vstd::prelude::*;

verus! {

/// The input state of the machine. It holds nothing yet.
#[derive(Debug, Clone, Copy, PartialEq, Eq, Structural)]
pub struct Input {}

impl Default for Input {
    fn default() -> (input: Self) {
        Self {  }
    }
}

} // verus!
