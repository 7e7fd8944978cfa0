//! The right half: the split central, which owns the trackball and the host
//! link; its LED shows the reset reason, its battery, the host link and the
//! link to the left half.

use vstd::prelude::*;

use crate::pointing_mode::{cursor_mode, PointingModeController};
use crate::status_led::{CentralStatusLed, Display, PwmCommand};

verus! {

/// The trackball's per-layer mode switch, starting in cursor mode.
pub fn pointing_mode() -> (c: PointingModeController)
    ensures
        c.mode == cursor_mode(),
{
    PointingModeController::new()
}

/// The right half's LED processor at boot, given the reset reason register,
/// the previous run's `GPREGRET2` marker and whether a panic message waits
/// to be repeated; with the first PWM update.
pub fn status_led(resetreas: u32, marker: u8, repeat_panic: bool) -> (res: (
    CentralStatusLed,
    PwmCommand,
))
    ensures
        res.0.display.wf(),
        res.0.display == Display::initial(resetreas, marker, repeat_panic).updated(),
        res.0.ble is None,
        res.1 == Display::initial(resetreas, marker, repeat_panic).update_command(),
{
    CentralStatusLed::new(resetreas, marker, repeat_panic)
}

} // verus!
