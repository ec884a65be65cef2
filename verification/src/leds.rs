//! The two pictures the LED matrix can show.

use vstd::prelude::*;

verus! {

/// A picture for the LED matrix: `image[row][col]` is 1 for a lit LED and 0
/// for a dark one, row 0 at the top.
pub type Image = [[u8; 5]; 5];

/// The LEDs can have 1 of 2 states.
///
/// `CenterLED` is the default state and also the state shown while the
/// accelerometer is stable. `ExclamationMark` is shown while the
/// accelerometer reports a fall.
#[derive(Debug, Clone, Copy, PartialEq, Eq, Structural)]
pub enum Leds {
    CenterLED,
    ExclamationMark,
}

impl Leds {
    /// Whether the LED at `row`, `col` is lit in this picture.
    ///
    /// `CenterLED` lights the middle LED only. `ExclamationMark` lights the
    /// middle column in rows 0, 1, 2 and 4, leaving row 3 dark.
    pub open spec fn lit(self, row: int, col: int) -> bool {
        match self {
            Leds::CenterLED => row == 2 && col == 2,
            Leds::ExclamationMark => col == 2 && row != 3,
        }
    }

    /// The value of the cell at `row`, `col` in the image of this picture: 1
    /// where the LED is lit, 0 where it is dark.
    pub open spec fn cell(self, row: int, col: int) -> u8 {
        if self.lit(row, col) {
            1
        } else {
            0
        }
    }

    /// `image` is the image of this picture, cell by cell.
    pub open spec fn drawn_in(self, image: Image) -> bool {
        forall|row: int, col: int|
            0 <= row < 5 && 0 <= col < 5 ==> #[trigger] image[row][col] == self.cell(row, col)
    }

    /// Create LEDs with the default state.
    pub fn new() -> (leds: Leds)
        ensures
            leds == Leds::CenterLED,
    {
        Leds::CenterLED
    }

    /// Image to be displayed when the board is falling.
    pub fn falling_display(&self) -> (image: Image)
        ensures
            Leds::ExclamationMark.drawn_in(image),
    {
        [[0, 0, 1, 0, 0], [0, 0, 1, 0, 0], [0, 0, 1, 0, 0], [0, 0, 0, 0, 0], [0, 0, 1, 0, 0]]
    }

    /// Default image, also the image shown when the board is stable.
    pub fn default_display(&self) -> (image: Image)
        ensures
            Leds::CenterLED.drawn_in(image),
    {
        [[0, 0, 0, 0, 0], [0, 0, 0, 0, 0], [0, 0, 1, 0, 0], [0, 0, 0, 0, 0], [0, 0, 0, 0, 0]]
    }
}

} // verus!
