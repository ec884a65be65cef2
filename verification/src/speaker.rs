//! The two settings of the speaker.

use vstd::prelude::*;

verus! {

/// Speaker can have one of two states, on and off.
///
/// While on, the speaker plays a square wave on repeat.
#[derive(Debug, Clone, Copy, PartialEq, Eq, Structural)]
pub enum Speaker {
    On,
    Off,
}

impl Speaker {
    /// The speaker's default state is off.
    pub fn new() -> (speaker: Speaker)
        ensures
            speaker == Speaker::Off,
    {
        Speaker::Off
    }
}

} // verus!
