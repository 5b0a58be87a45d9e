//! Memory implementation and manipulation.
use crate::machine::ram::RAM;
use crate::machine::vram::VRAM;
use vstd::prelude::*;

verus! {

/// The machine Memory representation.
#[derive(Debug)]
pub struct Memory<'ram> {
    /// The memory of the program.
    pub ram: RAM<'ram>,
    /// The memory of the display.
    pub vram: VRAM,
}

impl<'ram> Memory<'ram> {
    /// Returns a ram reference.
    pub fn ram(&self) -> (ram: &RAM<'ram>)
        ensures
            *ram == self.ram,
    {
        &self.ram
    }

    /// Returns a mutable ram reference.
    pub fn ram_mut(&mut self) -> (ram: &mut RAM<'ram>)
        ensures
            *ram == old(self).ram,
            final(self).ram == *final(ram),
            final(self).vram == old(self).vram,
    {
        &mut self.ram
    }

    /// Returns a vram reference.
    pub fn vram(&self) -> (vram: &VRAM)
        ensures
            *vram == self.vram,
    {
        &self.vram
    }

    /// Returns a mutable vram reference.
    pub fn vram_mut(&mut self) -> (vram: &mut VRAM)
        ensures
            *vram == old(self).vram,
            final(self).vram == *final(vram),
            final(self).ram == old(self).ram,
    {
        &mut self.vram
    }
}

impl<'ram> Default for Memory<'ram> {
    /// Creates a new Memory.
    fn default() -> (memory: Self)
        ensures
            memory.ram.map.wf(),
            memory.vram.screen.wf(),
    {
        Self { ram: RAM::default(), vram: VRAM::default() }
    }
}

} // verus!
