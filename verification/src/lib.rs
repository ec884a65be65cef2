//! Free-fall detection for a board with a three-axis accelerometer, a 5x5 LED
//! matrix and a speaker.
//!
//! Raw acceleration samples (in milli-g) are summed over a short window, the
//! window is averaged, and the magnitude of the average drives a two-state
//! machine with hysteresis: the board is `Stable` until the magnitude drops
//! below half a g, and `Falling` until it recovers to 0.55 g. Every change of
//! state yields the picture to show and the speaker setting to apply; a
//! caller that owns the hardware carries them out.
//!
//! Everything here is plain computation on integers. Reading the sensor and
//! driving the display and the speaker are left to the caller.

pub mod leds;
pub mod magnitude;
pub mod sampler;
pub mod speaker;
pub mod state;
pub mod window;
