//! The left half: a split peripheral whose LED shows the reset reason, its
//! battery and the link to the right half.

use vstd::prelude::*;

use crate::status_led::{Display, PeripheralStatusLed, PwmCommand};

verus! {

/// The left half's LED processor at boot, given the reset reason register,
/// the previous run's `GPREGRET2` marker and whether a panic message waits
/// to be repeated; with the first PWM update.
pub fn status_led(resetreas: u32, marker: u8, repeat_panic: bool) -> (res: (
    PeripheralStatusLed,
    PwmCommand,
))
    ensures
        res.0.display.wf(),
        res.0.display == Display::initial(resetreas, marker, repeat_panic).updated(),
        res.1 == Display::initial(resetreas, marker, repeat_panic).update_command(),
{
    PeripheralStatusLed::new(resetreas, marker, repeat_panic)
}

} // verus!
