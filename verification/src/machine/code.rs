//! The program held in memory.
use vstd::prelude::*;

verus! {

/// The program text of the machine.
#[derive(Debug, Clone, Copy, PartialEq, Eq)]
pub struct Code {
    /// The characters held.
    pub chars: [char; 1],
}

impl Default for Code {
    fn default() -> (code: Self)
        ensures
            code.chars@ == seq![' '],
    {
        let chars: [char; 1] = [' '];
        assert(chars@ == seq![' ']);
        Self { chars }
    }
}

} // verus!
