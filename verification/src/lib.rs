//! A small fantasy-console toolkit: the cartridge container format and the
//! fixed-size containers (glyphs, fonts, palettes, screen, tile map) that a
//! cartridge populates.
pub mod cartridge;
pub mod common;
pub mod graphic;
pub mod machine;
pub mod map;
pub mod player;

use crate::cartridge::CartridgeError;
use crate::common::CommonError;
use vstd::prelude::*;
use vstd::std_specs::convert::FromSpecImpl;

verus! {

/// Internal errors.
#[derive(Debug)]
pub enum Error {
    /// Error to wrap internal Cartridge errors.
    Cartridge(CartridgeError),
    /// Error to wrap internal Common errors.
    Common(CommonError),
}

impl From<CartridgeError> for Error {
    fn from(error: CartridgeError) -> (wrapped: Self) {
        Error::Cartridge(error)
    }
}

impl FromSpecImpl<CartridgeError> for Error {
    open spec fn obeys_from_spec() -> bool {
        true
    }

    open spec fn from_spec(error: CartridgeError) -> Self {
        Error::Cartridge(error)
    }
}

impl From<CommonError> for Error {
    fn from(error: CommonError) -> (wrapped: Self) {
        Error::Common(error)
    }
}

impl FromSpecImpl<CommonError> for Error {
    open spec fn obeys_from_spec() -> bool {
        true
    }

    open spec fn from_spec(error: CommonError) -> Self {
        Error::Common(error)
    }
}

} // verus!
