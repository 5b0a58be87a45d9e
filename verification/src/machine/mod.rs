//! Machine utilities.
pub mod code;
pub mod input;
pub mod memory;
pub mod ram;
pub mod screen;
pub mod vram;

pub use crate::machine::code::Code;
pub use crate::machine::input::Input;
pub use crate::machine::memory::Memory;
pub use crate::machine::ram::RAM;
pub use crate::machine::screen::{Screen, ScreenPixel};
pub use crate::machine::vram::VRAM;

use vstd::prelude::*;

verus! {

/// Machine states.
#[derive(Debug, Clone, Copy, PartialEq, Eq, Structural)]
pub enum MachineState {
    /// When the machine was just created and no cart was loaded yet.
    Created,
    /// When a cart was loaded but the machine is not running it yet.
    Loaded,
    /// When the machine is running the loaded cart.
    Started,
    /// When the cart execution is paused.
    Paused,
}

/// The machine representation.
#[derive(Debug)]
pub struct Machine<'mem> {
    /// The state of the machine.
    pub state: MachineState,
    /// The memory of the machine.
    pub memory: Memory<'mem>,
}

impl<'mem> Machine<'mem> {
    /// Returns the current state.
    pub fn state(&self) -> (state: MachineState)
        ensures
            state == self.state,
    {
        self.state
    }

    /// Loads a cartridge. The machine is left as it is.
    pub fn load_cartridge(&mut self)
        ensures
            *final(self) == *old(self),
    {
    }

    /// Starts the machine. The machine is left as it is.
    pub fn start(&mut self)
        ensures
            *final(self) == *old(self),
    {
    }

    /// Pauses the machine. The machine is left as it is.
    pub fn pause(&mut self)
        ensures
            *final(self) == *old(self),
    {
    }

    /// Stops the machine. The machine is left as it is.
    pub fn stop(&mut self)
        ensures
            *final(self) == *old(self),
    {
    }
}

impl<'mem> Default for Machine<'mem> {
    /// Creates a new Machine in the `Created` state.
    fn default() -> (machine: Self)
        ensures
            machine.state == MachineState::Created,
            machine.memory.ram.map.wf(),
            machine.memory.vram.screen.wf(),
    {
        Self { state: MachineState::Created, memory: Memory::default() }
    }
}

} // verus!
