use aerogu34::events::{BatteryStatus, BleState, BleStatus, ChargeState};
use aerogu34::left;
use aerogu34::right;
use aerogu34::status_led::{
    reset_reason, ticks, CentralStatusLed, Display, Kind, LedPower, Pattern, PeripheralStatusLed,
    PwmCommand, Reason, BLUE, GREEN, MAGENTA, OFF, RED, WHITE, YELLOW,
};

fn pattern(rgb: (u16, u16, u16), kind: Kind, start: u32, until: u32) -> Pattern {
    Pattern { rgb, kind, start, until }
}

fn available(level: u8) -> BatteryStatus {
    BatteryStatus::Available { charge_state: ChargeState::Discharging, level: Some(level) }
}

#[test]
fn ticks_round_down_to_whole_periods() {
    assert_eq!(ticks(3000), 75);
    assert_eq!(ticks(2000), 50);
    assert_eq!(ticks(30_000), 750);
    assert_eq!(ticks(100), 2);
    assert_eq!(ticks(500), 12);
    assert_eq!(ticks(39), 0);
    assert_eq!(ticks(79), 1);
}

#[test]
fn solid_pattern_shows_its_colour() {
    let p = pattern(YELLOW, Kind::Solid, 10, 60);
    assert_eq!(p.level(10), (1000, 500, 0));
    assert_eq!(p.level(59), (1000, 500, 0));
}

#[test]
fn blink_alternates_every_half_period() {
    let p = pattern(RED, Kind::Blink { half_ms: 100 }, 75, 825);
    // Sampled every 40 ms: on at 0, 40 and 80 ms, off at 120 and 160 ms,
    // on again at 200 ms.
    assert_eq!(p.level(75), RED);
    assert_eq!(p.level(76), RED);
    assert_eq!(p.level(77), RED);
    assert_eq!(p.level(78), OFF);
    assert_eq!(p.level(79), OFF);
    assert_eq!(p.level(80), RED);
    let c = pattern(MAGENTA, Kind::Blink { half_ms: 500 }, 0, 75);
    assert_eq!(c.level(12), MAGENTA);
    assert_eq!(c.level(13), OFF);
    assert_eq!(c.level(24), OFF);
    assert_eq!(c.level(25), MAGENTA);
}

#[test]
fn blink_counts_across_the_tick_wraparound() {
    let p = pattern(RED, Kind::Blink { half_ms: 100 }, u32::MAX - 1, 10);
    // Three ticks (120 ms) after the start: the second half period, off.
    assert_eq!(p.level(1), OFF);
    // Five ticks (200 ms) after: on again.
    assert_eq!(p.level(3), RED);
}

#[test]
fn breathing_follows_the_squared_triangle() {
    let p = pattern(RED, Kind::Breathe, 0, 750);
    // Bottom of the wave: the floor, 1/40 of the colour.
    assert_eq!(p.level(0), (25, 0, 0));
    // Three ticks in: 120^2 / 1000 = 14, still below the floor.
    assert_eq!(p.level(3), (25, 0, 0));
    // Ten ticks in: (10 * 40)^2 / 1000 = 160.
    assert_eq!(p.level(10), (160, 0, 0));
    // The peak at half a period.
    assert_eq!(p.level(25), (1000, 0, 0));
    // Falling again, symmetric about the peak.
    assert_eq!(p.level(40), (160, 0, 0));
    // One period later the wave repeats.
    assert_eq!(p.level(60), (160, 0, 0));
}

#[test]
fn breathing_scales_every_channel() {
    let p = pattern(YELLOW, Kind::Breathe, 0, 750);
    assert_eq!(p.level(10), (160, 80, 0));
    let w = pattern(WHITE, Kind::Breathe, 100, 850);
    assert_eq!(w.level(100), (25, 25, 25));
}

#[test]
fn reset_reasons_follow_the_table() {
    assert_eq!(reset_reason(0, 0), Reason::Clean);
    assert_eq!(reset_reason(1, 0), Reason::Clean);
    assert_eq!(reset_reason(2, 0), Reason::Watchdog);
    assert_eq!(reset_reason(2, 0xA5), Reason::Watchdog);
    assert_eq!(reset_reason(8 | 2, 0xA5), Reason::Lockup);
    assert_eq!(reset_reason(4, 0xA5), Reason::SoftReboot(0));
    assert_eq!(reset_reason(4, 0xA3), Reason::SoftReboot(3));
    assert_eq!(reset_reason(0, 0xA1), Reason::SoftReboot(1));
    assert_eq!(reset_reason(4, 0xAF), Reason::Panic);
    assert_eq!(reset_reason(4, 0), Reason::SoftwareReset);
    assert_eq!(reset_reason(4, 0x55), Reason::SoftwareReset);
    assert_eq!(reset_reason(0, 0xB0), Reason::Clean);
}

#[test]
fn clean_boot_leaves_the_led_dark() {
    let (d, cmd) = Display::new(1, 0, false);
    assert_eq!(d.boot, None);
    assert_eq!(cmd, PwmCommand::Keep);
    assert!(!d.led.lit);
}

#[test]
fn watchdog_boot_shows_blue_for_three_seconds() {
    let (mut d, cmd) = Display::new(2, 0, false);
    assert_eq!(d.boot, Some(pattern(BLUE, Kind::Solid, 0, 75)));
    assert_eq!(cmd, PwmCommand::Drive { enable: true, rgb: BLUE });
    for _ in 1..75 {
        let (cmd, say) = d.step();
        assert_eq!(cmd, PwmCommand::Drive { enable: false, rgb: BLUE });
        assert!(!say);
    }
    let (cmd, _) = d.step();
    assert_eq!(d.tick, 75);
    assert_eq!(cmd, PwmCommand::Park);
    assert_eq!(d.boot, None);
    assert!(!d.led.lit);
    let (cmd, _) = d.step();
    assert_eq!(cmd, PwmCommand::Keep);
}

#[test]
fn lockup_boot_shows_white() {
    let (d, cmd) = Display::new(8, 0, false);
    assert_eq!(d.boot, Some(pattern(WHITE, Kind::Solid, 0, 75)));
    assert_eq!(cmd, PwmCommand::Drive { enable: true, rgb: WHITE });
}

#[test]
fn soft_reboot_without_reason_is_solid_magenta() {
    let (d, _) = Display::new(4, 0xA5, false);
    assert_eq!(d.boot, Some(pattern(MAGENTA, Kind::Solid, 0, 75)));
    let (d, _) = Display::new(4, 0, false);
    assert_eq!(d.boot, Some(pattern(MAGENTA, Kind::Solid, 0, 75)));
}

#[test]
fn reboot_reason_blinks_its_code() {
    let (mut d, _) = Display::new(4, 0xA3, false);
    assert_eq!(d.boot, Some(pattern(MAGENTA, Kind::Blink { half_ms: 500 }, 0, 75)));
    let mut blinks = 0;
    let mut was_on = true;
    for _ in 1..100 {
        let (cmd, _) = d.step();
        let on = matches!(cmd, PwmCommand::Drive { rgb: MAGENTA, .. });
        if on && !was_on {
            blinks += 1;
        }
        was_on = on;
    }
    // The first blink began at boot.
    assert_eq!(blinks + 1, 3);
    assert_eq!(d.boot, None);
}

#[test]
fn panic_blinks_five_times() {
    let (d, _) = Display::new(0, 0xAF, false);
    assert_eq!(d.boot, Some(pattern(MAGENTA, Kind::Blink { half_ms: 500 }, 0, 125)));
}

#[test]
fn host_connected_waits_for_the_reason_display() {
    let (mut d, _) = Display::new(2, 0, false);
    let cmd = d.host_status(BleStatus { profile: 0, state: BleState::Connected }, false);
    assert_eq!(d.host, Some(pattern(BLUE, Kind::Solid, 75, 125)));
    // The watchdog's blue still shows.
    assert_eq!(cmd, PwmCommand::Drive { enable: false, rgb: BLUE });
}

#[test]
fn host_states_follow_the_table() {
    let (mut d, _) = Display::new(0, 0, false);
    for _ in 0..100 {
        d.step();
    }
    let cmd = d.host_status(BleStatus { profile: 1, state: BleState::Advertising }, true);
    assert_eq!(d.host, Some(pattern(RED, Kind::Breathe, 100, 850)));
    assert_eq!(cmd, PwmCommand::Drive { enable: true, rgb: (25, 0, 0) });
    let cmd = d.host_status(BleStatus { profile: 2, state: BleState::Advertising }, false);
    assert_eq!(d.host, Some(pattern(YELLOW, Kind::Blink { half_ms: 100 }, 100, 850)));
    assert_eq!(cmd, PwmCommand::Drive { enable: false, rgb: YELLOW });
    let cmd = d.host_status(BleStatus { profile: 2, state: BleState::Connected }, true);
    assert_eq!(d.host, Some(pattern(BLUE, Kind::Solid, 100, 150)));
    assert_eq!(cmd, PwmCommand::Drive { enable: false, rgb: BLUE });
    let cmd = d.host_status(BleStatus { profile: 2, state: BleState::Inactive }, true);
    assert_eq!(d.host, None);
    assert_eq!(cmd, PwmCommand::Park);
}

#[test]
fn waiting_patterns_give_up_after_thirty_seconds() {
    let (mut d, _) = Display::new(0, 0, false);
    for _ in 0..75 {
        d.step();
    }
    d.host_status(BleStatus { profile: 0, state: BleState::Advertising }, true);
    for _ in 0..749 {
        let (cmd, _) = d.step();
        assert_ne!(cmd, PwmCommand::Park);
    }
    let (cmd, _) = d.step();
    assert_eq!(d.tick, 825);
    assert_eq!(cmd, PwmCommand::Park);
    assert_eq!(d.host, None);
}

#[test]
fn first_battery_reading_shows_its_band() {
    let (mut d, _) = Display::new(0, 0, false);
    d.battery_status(available(40));
    assert_eq!(d.battery, Some(pattern(GREEN, Kind::Solid, 75, 125)));
    let (mut d, _) = Display::new(0, 0, false);
    d.battery_status(available(39));
    assert_eq!(d.battery, Some(pattern(YELLOW, Kind::Solid, 75, 125)));
    let (mut d, _) = Display::new(0, 0, false);
    d.battery_status(available(20));
    assert_eq!(d.battery, Some(pattern(YELLOW, Kind::Solid, 75, 125)));
    let (mut d, _) = Display::new(0, 0, false);
    d.battery_status(available(19));
    assert_eq!(d.battery, Some(pattern(RED, Kind::Solid, 75, 125)));
    assert_eq!(d.battery_level, Some(19));
}

#[test]
fn later_battery_readings_only_mark_critical_drops() {
    let (mut d, _) = Display::new(0, 0, false);
    for _ in 0..200 {
        d.step();
    }
    d.battery_status(available(50));
    for _ in 0..60 {
        d.step();
    }
    assert_eq!(d.battery, None);
    d.battery_status(available(30));
    assert_eq!(d.battery, None);
    assert_eq!(d.battery_level, Some(30));
    let cmd = d.battery_status(available(9));
    assert_eq!(d.battery, Some(pattern(RED, Kind::Blink { half_ms: 100 }, 260, 275)));
    assert_eq!(cmd, PwmCommand::Drive { enable: true, rgb: RED });
    for _ in 0..20 {
        d.step();
    }
    d.battery_status(available(9));
    assert_eq!(d.battery, None);
    d.battery_status(available(12));
    assert_eq!(d.battery, None);
    d.battery_status(available(8));
    assert_eq!(d.battery, Some(pattern(RED, Kind::Blink { half_ms: 100 }, 280, 295)));
}

#[test]
fn battery_without_a_level_changes_nothing() {
    let (mut d, _) = Display::new(0, 0, false);
    let before = d;
    assert_eq!(d.battery_status(BatteryStatus::Unavailable), PwmCommand::Keep);
    assert_eq!(
        d.battery_status(BatteryStatus::Available { charge_state: ChargeState::Charging, level: None }),
        PwmCommand::Keep
    );
    assert_eq!(d, before);
}

#[test]
fn split_link_is_green_or_red_for_two_seconds() {
    let (mut d, _) = Display::new(0, 0, false);
    for _ in 0..100 {
        d.step();
    }
    let cmd = d.link_status(true);
    assert_eq!(d.link, Some(pattern(GREEN, Kind::Solid, 100, 150)));
    assert_eq!(cmd, PwmCommand::Drive { enable: true, rgb: GREEN });
    let cmd = d.link_status(false);
    assert_eq!(d.link, Some(pattern(RED, Kind::Solid, 100, 150)));
    assert_eq!(cmd, PwmCommand::Drive { enable: false, rgb: RED });
}

#[test]
fn higher_priority_slots_win() {
    let (mut d, _) = Display::new(0, 0, false);
    for _ in 0..100 {
        d.step();
    }
    d.link_status(true);
    d.host_status(BleStatus { profile: 0, state: BleState::Connected }, false);
    let cmd = d.battery_status(available(50));
    assert_eq!(cmd, PwmCommand::Drive { enable: false, rgb: GREEN });
    let (cmd, _) = d.step();
    assert_eq!(cmd, PwmCommand::Drive { enable: false, rgb: GREEN });
}

#[test]
fn led_power_follows_the_colour() {
    let mut p = LedPower::new();
    assert_eq!(p.set(OFF), PwmCommand::Keep);
    assert_eq!(p.set(RED), PwmCommand::Drive { enable: true, rgb: RED });
    assert!(p.lit);
    assert_eq!(p.set(BLUE), PwmCommand::Drive { enable: false, rgb: BLUE });
    assert_eq!(p.set(OFF), PwmCommand::Park);
    assert!(!p.lit);
    assert_eq!(p.set(OFF), PwmCommand::Keep);
}

#[test]
fn panic_reminder_repeats_every_five_seconds_for_a_minute() {
    let (mut d, _) = Display::new(0, 0xAF, true);
    let mut said = Vec::new();
    for _ in 0..3000 {
        let (_, say) = d.step();
        if say {
            said.push(d.tick);
        }
    }
    assert_eq!(said, vec![1, 126, 251, 376, 501, 626, 751, 876, 1001, 1126, 1251, 1376, 1501]);
    assert!(!d.repeat_panic);
}

#[test]
fn no_reminder_without_a_panic_message() {
    let (mut d, _) = Display::new(0, 0xAF, false);
    for _ in 0..200 {
        let (_, say) = d.step();
        assert!(!say);
    }
}

#[test]
fn central_ignores_a_repeated_host_status() {
    let (mut c, _) = right::status_led(0, 0, false);
    for _ in 0..100 {
        c.poll();
    }
    let ble = BleStatus { profile: 0, state: BleState::Connected };
    let cmd = c.on_connection_status_change_event(ble, false);
    assert_eq!(cmd, PwmCommand::Drive { enable: true, rgb: BLUE });
    assert_eq!(c.ble, Some(ble));
    for _ in 0..10 {
        c.poll();
    }
    let before = c;
    assert_eq!(c.on_connection_status_change_event(ble, false), PwmCommand::Keep);
    assert_eq!(c.display, before.display);
    let other = BleStatus { profile: 1, state: BleState::Connected };
    c.on_connection_status_change_event(other, false);
    assert_eq!(c.display.host, Some(pattern(BLUE, Kind::Solid, 110, 160)));
}

#[test]
fn central_shows_the_peripheral_link_and_battery() {
    let (mut c, cmd) = CentralStatusLed::new(2, 0, false);
    assert_eq!(cmd, PwmCommand::Drive { enable: true, rgb: BLUE });
    c.on_peripheral_connected_event(true);
    assert_eq!(c.display.link, Some(pattern(GREEN, Kind::Solid, 75, 125)));
    c.on_battery_status_event(available(5));
    assert_eq!(c.display.battery, Some(pattern(RED, Kind::Solid, 75, 125)));
    assert_eq!(c.ble, None);
}

#[test]
fn peripheral_shows_the_central_link_and_battery() {
    let (mut p, cmd) = PeripheralStatusLed::new(0, 0, false);
    assert_eq!(cmd, PwmCommand::Keep);
    for _ in 0..80 {
        p.poll();
    }
    let cmd = p.on_central_connected_event(false);
    assert_eq!(p.display.link, Some(pattern(RED, Kind::Solid, 80, 130)));
    assert_eq!(cmd, PwmCommand::Drive { enable: true, rgb: RED });
    p.on_battery_status_event(available(100));
    assert_eq!(p.display.battery, Some(pattern(GREEN, Kind::Solid, 80, 130)));
    let (lp, _) = left::status_led(0, 0xA2, false);
    assert_eq!(lp.display.boot, Some(pattern(MAGENTA, Kind::Blink { half_ms: 500 }, 0, 50)));
}
