# aerogu34

The decision logic of the Aerogu34 split keyboard's firmware, verified with
Verus: what the Xiao's RGB status LED shows and when, how the trackball's
mode follows the active layer, how a panic's message survives the reset it
causes, and how long the boot waits for the 32 MHz crystal.

- `src/status_led.rs`: patterns, the reset-reason table, the four-slot
  display, the PWM power decisions, and the central/peripheral processors.
- `src/events.rs`: link and battery reports as plain values.
- `src/pointing_mode.rs`: the per-layer trackball mode and the seed for a
  host-editable configuration.
- `src/panic_record.rs`: writing and reading back the panic record.
- `src/hfxo.rs`: the bounded wait for the crystal.
- `src/left.rs`, `src/right.rs`: what each half registers at boot.
- `app/`: the hardware and event-bus edges (registers, PWM, event
  subscriptions, the panic handler) that hand plain values to the library.
