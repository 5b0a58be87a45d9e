//! RAM implementation and manipulation.
use crate::machine::code::Code;
use crate::machine::input::Input;
use crate::map::TileMap;
use vstd::prelude::*;

verus! {

/// The machine RAM representation.
#[derive(Debug)]
pub struct RAM<'map> {
    /// The program.
    pub code: Code,
    /// The tile map.
    pub map: TileMap<'map>,
    /// The input state.
    pub input: Input,
}

impl<'map> RAM<'map> {
    /// Returns a code reference.
    pub fn code(&self) -> (code: &Code)
        ensures
            *code == self.code,
    {
        &self.code
    }

    /// Returns a mutable code reference.
    pub fn code_mut(&mut self) -> (code: &mut Code)
        ensures
            *code == old(self).code,
            final(self).code == *final(code),
            final(self).map == old(self).map,
            final(self).input == old(self).input,
    {
        &mut self.code
    }

    /// Returns a map reference.
    pub fn map(&self) -> (map: &TileMap<'map>)
        ensures
            *map == self.map,
    {
        &self.map
    }

    /// Returns a mutable map reference.
    pub fn map_mut(&mut self) -> (map: &mut TileMap<'map>)
        ensures
            *map == old(self).map,
            final(self).map == *final(map),
            final(self).code == old(self).code,
            final(self).input == old(self).input,
    {
        &mut self.map
    }

    /// Returns an input reference.
    pub fn input(&self) -> (input: &Input)
        ensures
            *input == self.input,
    {
        &self.input
    }

    /// Returns a mutable input reference.
    pub fn input_mut(&mut self) -> (input: &mut Input)
        ensures
            *input == old(self).input,
            final(self).input == *final(input),
            final(self).code == old(self).code,
            final(self).map == old(self).map,
    {
        &mut self.input
    }
}

impl<'map> Default for RAM<'map> {
    /// Creates a new RAM.
    fn default() -> (ram: Self)
        ensures
            ram.map.wf(),
            ram.code.chars@ == seq![' '],
    {
        Self { code: Code::default(), map: TileMap::default(), input: Input::default() }
    }
}

} // verus!
