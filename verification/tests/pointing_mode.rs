use aerogu34::pointing_mode::{
    cursor_mode, scroll_mode, seed_runtime_config, CursorConfig, ModeAnnouncement, PointingMode,
    PointingModeController, ScrollConfig, SeedPlan, SeedingModeController,
};
use aerogu34::right;

#[test]
fn modes_match_the_configuration() {
    assert_eq!(
        cursor_mode(),
        PointingMode::Cursor(CursorConfig { multiplier_x: 1, multiplier_y: 1, invert_x: false, invert_y: false })
    );
    assert_eq!(
        scroll_mode(),
        PointingMode::Scroll(ScrollConfig {
            multiplier_x: 1,
            divisor_x: 12,
            multiplier_y: 1,
            divisor_y: 12,
            invert_x: true,
            invert_y: true,
        })
    );
}

#[test]
fn controller_starts_in_cursor_mode() {
    let c = right::pointing_mode();
    assert_eq!(c.mode, cursor_mode());
    assert_eq!(c.poll(), ModeAnnouncement { device_id: 0, mode: cursor_mode() });
}

#[test]
fn scroll_layer_switches_to_the_wheel_once() {
    let mut c = PointingModeController::new();
    assert_eq!(c.on_layer_change_event(3), Some(ModeAnnouncement { device_id: 0, mode: scroll_mode() }));
    assert_eq!(c.on_layer_change_event(3), None);
    assert_eq!(c.mode, scroll_mode());
}

#[test]
fn mouse_layer_keeps_the_mode() {
    let mut c = PointingModeController::new();
    assert_eq!(c.on_layer_change_event(4), None);
    assert_eq!(c.mode, cursor_mode());
    c.on_layer_change_event(3);
    assert_eq!(c.on_layer_change_event(4), None);
    assert_eq!(c.mode, scroll_mode());
    assert_eq!(c.poll(), ModeAnnouncement { device_id: 0, mode: scroll_mode() });
}

#[test]
fn other_layers_mean_cursor() {
    let mut c = PointingModeController::new();
    assert_eq!(c.on_layer_change_event(0), None);
    assert_eq!(c.on_layer_change_event(1), None);
    c.on_layer_change_event(3);
    assert_eq!(c.on_layer_change_event(2), Some(ModeAnnouncement { device_id: 0, mode: cursor_mode() }));
    c.on_layer_change_event(3);
    assert_eq!(c.on_layer_change_event(7), Some(ModeAnnouncement { device_id: 0, mode: cursor_mode() }));
    assert_eq!(c.publish(), ModeAnnouncement { device_id: 0, mode: cursor_mode() });
}

#[test]
fn seeding_only_fills_an_empty_configuration() {
    assert_eq!(
        seed_runtime_config(0),
        Some(SeedPlan {
            device_id: 0,
            mode: cursor_mode(),
            override_layer: 3,
            override_mode: scroll_mode(),
            layer_count: 4,
        })
    );
    assert_eq!(seed_runtime_config(1), None);
    assert_eq!(seed_runtime_config(8), None);
}

#[test]
fn seeding_flavour_never_announces_and_seeds_until_settled() {
    let mut c = SeedingModeController::new();
    assert!(c.poll());
    assert_eq!(c.on_layer_change_event(3), None);
    assert_eq!(c.on_layer_change_event(0), None);
    // Storage not ready: nothing found, nothing stored; retry next poll.
    c.seeded_with(0, false);
    assert!(c.poll());
    // Plan stored.
    c.seeded_with(0, true);
    assert!(!c.poll());
    assert!(c.seeded);
}

#[test]
fn seeding_flavour_keeps_an_existing_configuration() {
    let mut c = SeedingModeController::new();
    c.seeded_with(2, false);
    assert!(!c.poll());
    c.seeded_with(0, false);
    assert!(c.seeded);
}
