//! The state of the demo player: a checkerboard whose color cycles, frame
//! after frame, until the player is paused or told to leave.
use vstd::prelude::*;

verus! {

/// The width of the window in pixels.
pub const WINDOW_WIDTH: u32 = 640;

/// The height of the window in pixels.
pub const WINDOW_HEIGHT: u32 = 360;

/// The number of bytes of a pixel: red, green, blue and alpha.
pub const COLOR_SIZE: usize = 4;

/// The number of bytes of a frame.
pub const BUFFER_SIZE: usize = 921600;

/// The side of a square of the checkerboard in pixels.
pub const SQUARE_SIDE: usize = 16;

/// A pixel: red, green, blue and alpha.
#[derive(Debug, Clone, Copy, PartialEq, Eq, Structural)]
pub struct Rgba {
    /// The red value.
    pub red: u8,
    /// The green value.
    pub green: u8,
    /// The blue value.
    pub blue: u8,
    /// The alpha value.
    pub alpha: u8,
}

impl Rgba {
    /// The byte of the pixel at `place`, in the order red, green, blue,
    /// alpha.
    pub open spec fn byte(self, place: int) -> u8 {
        if place == 0 {
            self.red
        } else if place == 1 {
            self.green
        } else if place == 2 {
            self.blue
        } else {
            self.alpha
        }
    }

    /// The color after this one: each of red, green and blue goes up by one
    /// and starts over after 255. The alpha value stays.
    pub open spec fn following(self) -> Rgba {
        Rgba {
            red: next_value(self.red),
            green: next_value(self.green),
            blue: next_value(self.blue),
            alpha: self.alpha,
        }
    }

    /// Opaque black.
    pub fn black() -> (color: Rgba)
        ensures
            color == opaque_black(),
    {
        Rgba { red: 0, green: 0, blue: 0, alpha: 0xFF }
    }

    /// Returns the color after this one.
    pub fn next(self) -> (color: Rgba)
        ensures
            color == self.following(),
    {
        Rgba {
            red: next_channel(self.red),
            green: next_channel(self.green),
            blue: next_channel(self.blue),
            alpha: self.alpha,
        }
    }

    /// Returns the four bytes of the pixel.
    pub fn bytes(self) -> (bytes: [u8; 4])
        ensures
            forall|k: int| 0 <= k < 4 ==> bytes@[k] == self.byte(k),
    {
        [self.red, self.green, self.blue, self.alpha]
    }
}

/// Opaque black.
pub open spec fn opaque_black() -> Rgba {
    Rgba { red: 0, green: 0, blue: 0, alpha: 0xFF }
}

/// The value after `value` in the cycle 0, 1, ..., 255, 0.
pub open spec fn next_value(value: u8) -> u8 {
    if value == 0xFF {
        0
    } else {
        (value + 1) as u8
    }
}

/// Returns the value after `value` in the cycle 0, 1, ..., 255, 0.
pub fn next_channel(value: u8) -> (next: u8)
    ensures
        next == next_value(value),
{
    if value == 0xFF {
        0
    } else {
        value + 1
    }
}

/// Whether the pixel at `index`, counted row after row, lies on a colored
/// square of the checkerboard: the squares alternate along rows and columns.
pub open spec fn on_colored_square(index: int) -> bool {
    let x = index % (WINDOW_WIDTH as int);
    let y = index / (WINDOW_WIDTH as int);
    (x / (SQUARE_SIDE as int)) % 2 == (y / (SQUARE_SIDE as int)) % 2
}

/// Whether the pixel at `index` lies on a colored square.
pub fn is_colored(index: usize) -> (colored: bool)
    ensures
        colored == on_colored_square(index as int),
{
    let x: usize = index % (WINDOW_WIDTH as usize);
    let y: usize = index / (WINDOW_WIDTH as usize);
    (x / SQUARE_SIDE) % 2 == (y / SQUARE_SIDE) % 2
}

/// The pixel that the checkerboard of color `color` has at `index`.
pub open spec fn checker_pixel(color: Rgba, index: int) -> Rgba {
    if on_colored_square(index) {
        color
    } else {
        opaque_black()
    }
}

/// Whether the whole pixels of `buffer` show the checkerboard of color
/// `color`.
pub open spec fn shows_checkerboard(buffer: Seq<u8>, color: Rgba) -> bool {
    forall|i: int, k: int|
        0 <= i < buffer.len() / 4 && 0 <= k < 4 ==> #[trigger] buffer[4 * i + k] == checker_pixel(
            color,
            i,
        ).byte(k)
}

/// What a key event means to the player.
#[derive(Debug, Clone, Copy, PartialEq, Eq, Structural)]
pub enum PlayerKey {
    /// The escape key.
    Escape,
    /// The space bar.
    Space,
    /// Any other key.
    Other,
}

/// The state of the player.
#[derive(Debug, Clone, PartialEq)]
pub struct Player {
    /// The frame, four bytes a pixel, row after row.
    pub buffer: Vec<u8>,
    /// The color of the colored squares of the last frame.
    pub last_color: Rgba,
    /// Whether the player was told to leave.
    pub should_exit: bool,
    /// Whether the color stands still.
    pub is_paused: bool,
}

impl Player {
    /// Creates a player with a black frame.
    pub fn new() -> (player: Player)
        ensures
            player.buffer@.len() == BUFFER_SIZE,
            forall|i: int, k: int|
                0 <= i < BUFFER_SIZE / 4 && 0 <= k < 4 ==> #[trigger] player.buffer@[4 * i + k]
                    == opaque_black().byte(k),
            player.last_color == opaque_black(),
            !player.should_exit,
            !player.is_paused,
    {
        let color = Rgba::black();
        let mut buffer: Vec<u8> = Vec::with_capacity(BUFFER_SIZE);
        let mut i: usize = 0;
        while i < BUFFER_SIZE / 4
            invariant
                i <= BUFFER_SIZE / 4,
                color == opaque_black(),
                buffer@.len() == 4 * i,
                forall|j: int, k: int|
                    0 <= j < i && 0 <= k < 4 ==> #[trigger] buffer@[4 * j + k] == color.byte(k),
            decreases BUFFER_SIZE / 4 - i,
        {
            buffer.push(color.red);
            buffer.push(color.green);
            buffer.push(color.blue);
            buffer.push(color.alpha);
            i = i + 1;
        }
        Player { buffer, last_color: color, should_exit: false, is_paused: false }
    }

    /// Moves on to the next color and paints the checkerboard of that color
    /// over the whole pixels of the frame.
    pub fn update(&mut self)
        ensures
            final(self).last_color == old(self).last_color.following(),
            final(self).buffer@.len() == old(self).buffer@.len(),
            shows_checkerboard(final(self).buffer@, final(self).last_color),
            forall|j: int|
                old(self).buffer@.len() / 4 * 4 <= j < old(self).buffer@.len() ==> final(
                    self
                ).buffer@[j] == old(self).buffer@[j],
            final(self).should_exit == old(self).should_exit,
            final(self).is_paused == old(self).is_paused,
    {
        self.last_color = self.last_color.next();
        let color = self.last_color;
        let black = Rgba::black();
        let pixels: usize = self.buffer.len() / COLOR_SIZE;
        let mut i: usize = 0;
        while i < pixels
            invariant
                i <= pixels,
                pixels == old(self).buffer@.len() / 4,
                old(self).buffer@.len() <= usize::MAX,
                black == opaque_black(),
                color == self.last_color,
                self.last_color == old(self).last_color.following(),
                self.should_exit == old(self).should_exit,
                self.is_paused == old(self).is_paused,
                self.buffer@.len() == old(self).buffer@.len(),
                forall|j: int, k: int|
                    0 <= j < i && 0 <= k < 4 ==> #[trigger] self.buffer@[4 * j + k]
                        == checker_pixel(color, j).byte(k),
                forall|j: int| 4 * i <= j < self.buffer@.len() ==> self.buffer@[j] == old(
                    self
                ).buffer@[j],
            decreases pixels - i,
        {
            let pixel = if is_colored(i) {
                color
            } else {
                black
            };
            let at: usize = i * COLOR_SIZE;
            self.buffer.set(at, pixel.red);
            self.buffer.set(at + 1, pixel.green);
            self.buffer.set(at + 2, pixel.blue);
            self.buffer.set(at + 3, pixel.alpha);
            i = i + 1;
        }
    }

    /// Reacts to a key event: a key that goes down, and is not held down,
    /// tells the player to leave if it is the escape key and pauses or
    /// resumes it if it is the space bar.
    pub fn handle_input(&mut self, pressed: bool, repeat: bool, key: PlayerKey)
        ensures
            final(self).buffer == old(self).buffer,
            final(self).last_color == old(self).last_color,
            final(self).should_exit == (old(self).should_exit || (pressed && !repeat && key
                == PlayerKey::Escape)),
            final(self).is_paused == (old(self).is_paused != (pressed && !repeat && key
                == PlayerKey::Space)),
    {
        if pressed && !repeat {
            match key {
                PlayerKey::Escape => {
                    self.should_exit = true;
                },
                PlayerKey::Space => {
                    self.is_paused = !self.is_paused;
                },
                PlayerKey::Other => {},
            }
        }
    }

    /// Updates the frame unless the player is paused.
    pub fn handle_update(&mut self)
        ensures
            old(self).is_paused ==> *final(self) == *old(self),
            !old(self).is_paused ==> {
                &&& final(self).last_color == old(self).last_color.following()
                &&& final(self).buffer@.len() == old(self).buffer@.len()
                &&& shows_checkerboard(final(self).buffer@, final(self).last_color)
                &&& final(self).should_exit == old(self).should_exit
                &&& !final(self).is_paused
            },
    {
        if !self.is_paused {
            self.update();
        }
    }
}

} // verus!
