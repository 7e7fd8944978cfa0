//! Status and pointing logic of the Aerogu34 split keyboard, verified.
//!
//! The firmware's hardware edges (registers, PWM, the event bus) live
//! outside this crate; what they decide is here, as functions from plain
//! values to plain values.

pub mod events;
pub mod hfxo;
pub mod left;
pub mod panic_record;
pub mod pointing_mode;
pub mod right;
pub mod status_led;
