//! What the firmware's event bus reports about the links and the battery,
//! as plain values the status logic can read.

use vstd::prelude::*;

verus! {

/// What the BLE subsystem is doing with the host.
#[derive(Clone, Copy, Debug, PartialEq, Eq, Structural)]
pub enum BleState {
    Advertising,
    Connected,
    /// Not in use: USB mode or sleep.
    Inactive,
}

/// Which BLE profile is active and what the BLE subsystem is doing.
#[derive(Clone, Copy, Debug, PartialEq, Eq, Structural)]
pub struct BleStatus {
    pub profile: u8,
    pub state: BleState,
}

/// Charge state of the battery.
#[derive(Clone, Copy, Debug, PartialEq, Eq, Structural)]
pub enum ChargeState {
    Charging,
    Discharging,
    Unknown,
}

/// A battery reading, as the battery event reports it.
#[derive(Clone, Copy, Debug, PartialEq, Eq, Structural)]
pub enum BatteryStatus {
    Unavailable,
    Available { charge_state: ChargeState, level: Option<u8> },
}

} // verus!
