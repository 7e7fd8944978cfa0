//! Trackball behaviour per layer: cursor by default, the wheel on the scroll
//! layer, and the auto mouse layer leaves the mode alone.
//!
//! | layer | mode |
//! | --- | --- |
//! | 3 (scroll) | `Scroll`, 1/12 per axis |
//! | 4 (mouse) | whatever was already active |
//! | anything else | `Cursor`, 1:1 |
//!
//! The mode is state held by another task, reached only by a published
//! announcement that nothing acknowledges, so the controller also repeats the
//! current mode on every poll: a wrong mode that persists corrects itself,
//! and repeating the current mode changes nothing.

use vstd::prelude::*;

verus! {

/// The trackball's device id.
pub const TRACKBALL_ID: u8 = 0;

/// The scroll layer, where the ball drives the wheel instead of the cursor.
pub const SCROLL_LAYER: u8 = 3;

/// The auto mouse layer: raised by trackball motion rather than by the user,
/// so it carries no opinion about which mode the trackball should be in.
pub const MOUSE_LAYER: u8 = 4;

/// Cursor mode settings.
#[derive(Clone, Copy, Debug, PartialEq, Eq, Structural)]
pub struct CursorConfig {
    pub multiplier_x: u8,
    pub multiplier_y: u8,
    pub invert_x: bool,
    pub invert_y: bool,
}

/// Scroll mode settings: X drives the pan, Y the wheel.
#[derive(Clone, Copy, Debug, PartialEq, Eq, Structural)]
pub struct ScrollConfig {
    pub multiplier_x: u8,
    pub divisor_x: u8,
    pub multiplier_y: u8,
    pub divisor_y: u8,
    pub invert_x: bool,
    pub invert_y: bool,
}

/// How the trackball's motion is interpreted.
#[derive(Clone, Copy, Debug, PartialEq, Eq, Structural)]
pub enum PointingMode {
    Cursor(CursorConfig),
    Scroll(ScrollConfig),
}

/// 1:1 cursor; the 180-degree mounting is undone by the sensor itself.
#[verifier::allow_in_spec]
pub fn cursor_mode() -> PointingMode
    returns
        (PointingMode::Cursor(
            CursorConfig { multiplier_x: 1, multiplier_y: 1, invert_x: false, invert_y: false },
        )),
{
    PointingMode::Cursor(
        CursorConfig { multiplier_x: 1, multiplier_y: 1, invert_x: false, invert_y: false },
    )
}

/// 1/12 per axis on the wheel and the pan, both axes inverted: the sensor
/// flips X and Y for the cursor, and the wheel maps +Y to a negative step,
/// which together would scroll up when the ball rolls down.
#[verifier::allow_in_spec]
pub fn scroll_mode() -> PointingMode
    returns
        (PointingMode::Scroll(
            ScrollConfig {
                multiplier_x: 1,
                divisor_x: 12,
                multiplier_y: 1,
                divisor_y: 12,
                invert_x: true,
                invert_y: true,
            },
        )),
{
    PointingMode::Scroll(
        ScrollConfig {
            multiplier_x: 1,
            divisor_x: 12,
            multiplier_y: 1,
            divisor_y: 12,
            invert_x: true,
            invert_y: true,
        },
    )
}

/// The mode the trackball should be in once `layer` is the top active layer,
/// given the mode it is in now.
pub open spec fn mode_for_layer(layer: u8, current: PointingMode) -> PointingMode {
    if layer == SCROLL_LAYER {
        scroll_mode()
    } else if layer == MOUSE_LAYER {
        current
    } else {
        cursor_mode()
    }
}

/// A mode to publish for a pointing device.
#[derive(Clone, Copy, Debug, PartialEq, Eq, Structural)]
pub struct ModeAnnouncement {
    pub device_id: u8,
    pub mode: PointingMode,
}

/// The announcement of `mode` for the trackball.
pub open spec fn announce(mode: PointingMode) -> ModeAnnouncement {
    ModeAnnouncement { device_id: TRACKBALL_ID, mode }
}

/// Drives the trackball's mode from the top active layer.
#[derive(Clone, Copy, Debug)]
pub struct PointingModeController {
    pub mode: PointingMode,
}

impl PointingModeController {
    /// Starts in cursor mode.
    pub fn new() -> (c: PointingModeController)
        ensures
            c.mode == cursor_mode(),
    {
        PointingModeController { mode: cursor_mode() }
    }

    /// The announcement of the current mode.
    pub fn publish(&self) -> (a: ModeAnnouncement)
        ensures
            a == announce(self.mode),
    {
        ModeAnnouncement { device_id: TRACKBALL_ID, mode: self.mode }
    }

    /// The top active layer changed: follows the layer table, and announces
    /// the new mode only if it differs from the current one.
    pub fn on_layer_change_event(&mut self, layer: u8) -> (a: Option<ModeAnnouncement>)
        ensures
            final(self).mode == mode_for_layer(layer, old(self).mode),
            a == (if mode_for_layer(layer, old(self).mode) == old(self).mode {
                None::<ModeAnnouncement>
            } else {
                Some(announce(mode_for_layer(layer, old(self).mode)))
            }),
    {
        let mode = if layer == SCROLL_LAYER {
            scroll_mode()
        } else if layer == MOUSE_LAYER {
            return None;
        } else {
            cursor_mode()
        };
        if mode == self.mode {
            return None;
        }
        self.mode = mode;
        Some(self.publish())
    }

    /// The periodic repeat: announces the current mode again.
    pub fn poll(&self) -> (a: ModeAnnouncement)
        ensures
            a == announce(self.mode),
    {
        self.publish()
    }
}

/// A runtime pointing configuration to store on a board that has none: the
/// trackball's default mode, and one per-layer override.
#[derive(Clone, Copy, Debug, PartialEq, Eq, Structural)]
pub struct SeedPlan {
    pub device_id: u8,
    pub mode: PointingMode,
    pub override_layer: u8,
    pub override_mode: PointingMode,
    /// The layer count the stored configuration is validated against: one
    /// that admits the override's layer.
    pub layer_count: usize,
}

/// The configuration a board without one receives.
pub open spec fn default_seed() -> SeedPlan {
    SeedPlan {
        device_id: TRACKBALL_ID,
        mode: cursor_mode(),
        override_layer: SCROLL_LAYER,
        override_mode: scroll_mode(),
        layer_count: (SCROLL_LAYER + 1) as usize,
    }
}

/// With a host-editable runtime configuration: a board that already holds a
/// configuration for some device keeps it (nothing to store); one that holds
/// none gets the same policy as the fixed table, cursor by default and the
/// wheel on the scroll layer.
pub fn seed_runtime_config(configured_devices: u8) -> (plan: Option<SeedPlan>)
    ensures
        configured_devices > 0 ==> plan is None,
        configured_devices == 0 ==> plan == Some(default_seed()),
{
    if configured_devices > 0 {
        return None;
    }
    Some(
        SeedPlan {
            device_id: TRACKBALL_ID,
            mode: cursor_mode(),
            override_layer: SCROLL_LAYER,
            override_mode: scroll_mode(),
            layer_count: SCROLL_LAYER as usize + 1,
        },
    )
}

/// A repeated layer change announces nothing new: following the table a
/// second time for the same layer lands on the same mode.
pub proof fn layer_change_is_idempotent(layer: u8, mode: PointingMode)
    ensures
        mode_for_layer(layer, mode_for_layer(layer, mode)) == mode_for_layer(layer, mode),
{
}

/// The auto mouse layer never changes the mode, whatever it was.
pub proof fn mouse_layer_keeps_mode(mode: PointingMode)
    ensures
        mode_for_layer(MOUSE_LAYER, mode) == mode,
{
}

/// The configuration seeded for the host-editable flavour is the fixed
/// table's policy: its default is the mode of every ordinary layer, its
/// override is the scroll layer's mode, and the layer count it is validated
/// against admits that layer.
pub proof fn seed_matches_layer_table(layer: u8, mode: PointingMode)
    requires
        layer != SCROLL_LAYER,
        layer != MOUSE_LAYER,
    ensures
        default_seed().mode == mode_for_layer(layer, mode),
        default_seed().override_mode == mode_for_layer(default_seed().override_layer, mode),
        default_seed().override_layer < default_seed().layer_count,
        default_seed().device_id == TRACKBALL_ID,
{
}

/// With a host-editable runtime configuration the pointing processor follows
/// the stored per-layer policy by itself, and publishing a mode would pin it
/// and shut the host out. This controller only seeds that configuration, on
/// a board that has none yet, retrying on each poll until it is settled, and
/// then stays quiet.
#[derive(Clone, Copy, Debug)]
pub struct SeedingModeController {
    /// Whether the configuration has been seeded or found.
    pub seeded: bool,
}

impl SeedingModeController {
    /// Nothing seeded yet.
    pub fn new() -> (c: SeedingModeController)
        ensures
            !c.seeded,
    {
        SeedingModeController { seeded: false }
    }

    /// Layer changes are the stored configuration's business: nothing is
    /// announced and nothing changes.
    pub fn on_layer_change_event(&self, layer: u8) -> (a: Option<ModeAnnouncement>)
        ensures
            a is None,
    {
        None
    }

    /// Whether this poll should try to seed: until the configuration is
    /// settled.
    pub fn poll(&self) -> (seed: bool)
        ensures
            seed == !self.seeded,
    {
        !self.seeded
    }

    /// The outcome of a seeding attempt that found `configured_devices`
    /// devices configured and, if it stored `seed_runtime_config`'s plan,
    /// whether storing succeeded: the configuration is settled when one was
    /// found or the plan was stored. Once settled, it stays settled.
    pub fn seeded_with(&mut self, configured_devices: u8, stored: bool)
        ensures
            final(self).seeded == (old(self).seeded || configured_devices > 0 || stored),
    {
        self.seeded = self.seeded || configured_devices > 0 || stored;
    }
}

/// The layer table over every layer: layer 3 means the wheel at 1/12 per
/// axis with both axes inverted, layer 4 keeps whatever mode was active, and
/// every other layer means the cursor at 1:1, uninverted.
pub proof fn layer_table(layer: u8, mode: PointingMode)
    ensures
        layer == 3 ==> mode_for_layer(layer, mode) == PointingMode::Scroll(
            ScrollConfig {
                multiplier_x: 1,
                divisor_x: 12,
                multiplier_y: 1,
                divisor_y: 12,
                invert_x: true,
                invert_y: true,
            },
        ),
        layer == 4 ==> mode_for_layer(layer, mode) == mode,
        layer != 3 && layer != 4 ==> mode_for_layer(layer, mode) == PointingMode::Cursor(
            CursorConfig { multiplier_x: 1, multiplier_y: 1, invert_x: false, invert_y: false },
        ),
        announce(mode).device_id == 0 && announce(mode).mode == mode,
{
}

} // verus!
