//! Color implementation and manipulation.
use vstd::prelude::*;
use vstd::std_specs::convert::FromSpecImpl;

verus! {

/// A color representation with red, green and blue values.
#[derive(Debug, Clone, Copy, PartialEq, Eq, Structural)]
pub struct Color {
    /// The red value.
    pub red: u8,
    /// The green value.
    pub green: u8,
    /// The blue value.
    pub blue: u8,
}

impl Color {
    /// The color that a hexadecimal value `0xRRGGBB` stands for. Bits above
    /// the lowest 24 are ignored.
    pub open spec fn of_hex(value: u32) -> Color {
        Color {
            red: ((value / 0x1_0000) % 0x100) as u8,
            green: ((value / 0x100) % 0x100) as u8,
            blue: (value % 0x100) as u8,
        }
    }

    /// Creates a Color with red, green and blue values.
    pub fn new(red: u8, green: u8, blue: u8) -> (color: Self)
        ensures
            color == (Color { red, green, blue }),
    {
        Self { red, green, blue }
    }

    /// Creates a Color from a hexadecimal value.
    pub fn new_from_hex(value: u32) -> (color: Self)
        ensures
            color == Color::of_hex(value),
    {
        let red: u32 = (value & 0x00ff_0000) >> 16;
        let green: u32 = (value & 0x0000_ff00) >> 8;
        let blue: u32 = value & 0x0000_00ff;
        assert(red == (value / 0x1_0000) % 0x100 && green == (value / 0x100) % 0x100 && blue
            == value % 0x100) by (bit_vector)
            requires
                red == (value & 0x00ff_0000) >> 16,
                green == (value & 0x0000_ff00) >> 8,
                blue == value & 0x0000_00ff,
        ;
        Self { red: red as u8, green: green as u8, blue: blue as u8 }
    }

    /// Get red value.
    pub fn red(self) -> (red: u8)
        ensures
            red == self.red,
    {
        self.red
    }

    /// Get green value.
    pub fn green(self) -> (green: u8)
        ensures
            green == self.green,
    {
        self.green
    }

    /// Get blue value.
    pub fn blue(self) -> (blue: u8)
        ensures
            blue == self.blue,
    {
        self.blue
    }
}

impl Default for Color {
    /// Creates a black Color.
    fn default() -> (color: Self)
        ensures
            color == (Color { red: 0, green: 0, blue: 0 }),
    {
        Self { red: 0, green: 0, blue: 0 }
    }
}

impl From<(u8, u8, u8)> for Color {
    fn from(value: (u8, u8, u8)) -> (color: Self) {
        Self::new(value.0, value.1, value.2)
    }
}

impl FromSpecImpl<(u8, u8, u8)> for Color {
    open spec fn obeys_from_spec() -> bool {
        true
    }

    open spec fn from_spec(value: (u8, u8, u8)) -> Self {
        Color { red: value.0, green: value.1, blue: value.2 }
    }
}

impl From<[u8; 3]> for Color {
    fn from(array: [u8; 3]) -> (color: Self) {
        Self::new(array[0], array[1], array[2])
    }
}

impl FromSpecImpl<[u8; 3]> for Color {
    open spec fn obeys_from_spec() -> bool {
        true
    }

    open spec fn from_spec(array: [u8; 3]) -> Self {
        Color { red: array@[0], green: array@[1], blue: array@[2] }
    }
}

} // verus!
