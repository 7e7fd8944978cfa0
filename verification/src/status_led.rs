//! The status LED: what colour and pattern the Xiao's RGB LED shows, tick by
//! tick, for the reset reason, the battery, the host link and the split link.
//!
//! The colours follow ZMK's rgbled-widget; the pattern says what the colour
//! alone could not (a known host that has not answered yet breathes red, a
//! profile with no host blinks yellow). Every pattern ends, so the LED is dark
//! between indications.

use vstd::prelude::*;

use crate::events::{BatteryStatus, BleState, BleStatus};
use crate::panic_record::PANIC_MARKER;

verus! {

/// Tick period in milliseconds.
pub const POLL_MS: u32 = 40;

/// How long the reset-reason display is held before anything else.
pub const REASON_TICKS: u32 = 3000 / POLL_MS;

/// Solid indications (connected, split link, first battery reading).
pub const SOLID_TICKS: u32 = 2000 / POLL_MS;

/// Waiting patterns (breathing, fast blink) give up after this.
pub const WAIT_TICKS: u32 = 30000 / POLL_MS;

/// Fast blink: 100 ms on, 100 ms off.
pub const FAST_BLINK_MS: u32 = 100;

/// Reset-reason code blinks: 500 ms on, 500 ms off.
pub const CODE_BLINK_MS: u32 = 500;

/// One reset-reason code blink, on and off: one second.
pub const CODE_PERIOD_TICKS: u32 = 2 * CODE_BLINK_MS / POLL_MS;

/// Breathing period.
pub const BREATHE_TICKS: u32 = 2000 / POLL_MS;

/// Length of the short red blink that marks a critical battery drop.
pub const CRITICAL_BLINK_TICKS: u32 = 600 / POLL_MS;

/// Battery bands, in percent: green at or above `BATTERY_HIGH`, yellow at or
/// above `BATTERY_LOW`, red below; a drop below `BATTERY_CRITICAL` blinks.
pub const BATTERY_HIGH: u8 = 40;

pub const BATTERY_LOW: u8 = 20;

pub const BATTERY_CRITICAL: u8 = 10;

/// PWM resolution: full brightness of one channel.
pub const MAX_DUTY: u16 = 1000;

/// The dimmest a breathing pattern gets, so its rhythm never reads as a blink.
pub const BREATHE_FLOOR: u16 = MAX_DUTY / 40;

/// A colour, as the duty of the red, green and blue channels.
pub type Rgb = (u16, u16, u16);

pub const OFF: Rgb = (0, 0, 0);

pub const RED: Rgb = (MAX_DUTY, 0, 0);

pub const GREEN: Rgb = (0, MAX_DUTY, 0);

pub const BLUE: Rgb = (0, 0, MAX_DUTY);

pub const YELLOW: Rgb = (MAX_DUTY, MAX_DUTY / 2, 0);

pub const MAGENTA: Rgb = (MAX_DUTY, 0, MAX_DUTY);

pub const WHITE: Rgb = (MAX_DUTY, MAX_DUTY, MAX_DUTY);

/// Milliseconds to ticks, rounded down.
pub fn ticks(ms: u32) -> (t: u32)
    ensures
        t == ms / POLL_MS,
{
    ms / POLL_MS
}


/// How a pattern modulates its colour over time.
#[derive(Clone, Copy, Debug, PartialEq, Eq, Structural)]
pub enum Kind {
    Solid,
    /// On for `half_ms` milliseconds, off for `half_ms` milliseconds,
    /// sampled at each tick.
    Blink { half_ms: u32 },
    /// A squared triangle wave over `BREATHE_TICKS`, never fully dark.
    Breathe,
}

/// One thing the LED is saying, from tick `start` until tick `until`.
#[derive(Clone, Copy, Debug, PartialEq, Eq)]
pub struct Pattern {
    pub rgb: Rgb,
    pub kind: Kind,
    pub start: u32,
    pub until: u32,
}

/// Ticks since `start`, counted modulo 2^32 as the tick counter wraps.
pub open spec fn elapsed(tick: u32, start: u32) -> int {
    if tick >= start {
        tick - start
    } else {
        tick - start + 0x1_0000_0000
    }
}

/// The triangle wave of the breathing pattern at `t` ticks: rises from 0 to
/// `BREATHE_TICKS / 2` over the first half period and falls back.
pub open spec fn triangle(t: int) -> int {
    let phase = t % (BREATHE_TICKS as int);
    if phase < BREATHE_TICKS / 2 {
        phase
    } else {
        BREATHE_TICKS - phase
    }
}

/// Brightness of the breathing pattern, in duty units: the triangle wave
/// scaled to `MAX_DUTY` and squared (the eye sees brightness roughly
/// logarithmically), with `BREATHE_FLOOR` as its minimum.
pub open spec fn breathe_scale(t: int) -> int {
    let lin = triangle(t) * MAX_DUTY / (BREATHE_TICKS / 2) as int;
    let sq = lin * lin / MAX_DUTY as int;
    if sq < BREATHE_FLOOR {
        BREATHE_FLOOR as int
    } else {
        sq
    }
}

/// Brightness, out of `MAX_DUTY`, of a pattern of `kind` `t` ticks after it
/// started.
pub open spec fn scale_at(kind: Kind, t: int) -> int {
    match kind {
        Kind::Solid => MAX_DUTY as int,
        Kind::Blink { half_ms } => if (t * POLL_MS / half_ms as int) % 2 == 0 {
            MAX_DUTY as int
        } else {
            0
        },
        Kind::Breathe => breathe_scale(t),
    }
}

/// One channel's duty at brightness `scale` out of `MAX_DUTY`.
pub open spec fn dimmed(duty: u16, scale: int) -> u16 {
    (duty * scale / MAX_DUTY as int) as u16
}

/// The colour a pattern shows at `tick`.
pub open spec fn level_at(p: Pattern, tick: u32) -> Rgb {
    let s = scale_at(p.kind, elapsed(tick, p.start));
    (dimmed(p.rgb.0, s), dimmed(p.rgb.1, s), dimmed(p.rgb.2, s))
}

/// A blink has a positive half period; the other kinds have none.
pub open spec fn kind_wf(kind: Kind) -> bool {
    kind matches Kind::Blink { half_ms } ==> half_ms > 0
}

proof fn lemma_breathe_scale_bounds(t: int)
    requires
        t >= 0,
    ensures
        BREATHE_FLOOR <= breathe_scale(t) <= MAX_DUTY,
{
    let tri = triangle(t);
    assert(0 <= tri <= 25);
    let lin = tri * 1000 / 25;
    assert(lin == tri * 40);
    assert(0 <= lin <= 1000);
    assert(0 <= lin * lin <= 1000 * 1000) by (nonlinear_arith)
        requires
            0 <= lin <= 1000,
    ;
}

fn dim(duty: u16, scale: u16) -> (d: u16)
    requires
        scale <= MAX_DUTY,
    ensures
        d == dimmed(duty, scale as int),
        d <= duty,
{
    assert(duty * scale <= duty * 1000) by (nonlinear_arith)
        requires
            scale <= 1000,
    ;
    assert(duty * scale / 1000 <= duty) by (nonlinear_arith)
        requires
            duty * scale <= duty * 1000,
    ;
    (duty as u32 * scale as u32 / MAX_DUTY as u32) as u16
}

impl Pattern {
    /// The colour this pattern shows at `tick`.
    pub fn level(&self, tick: u32) -> (rgb: Rgb)
        requires
            kind_wf(self.kind),
        ensures
            rgb == level_at(*self, tick),
    {
        let t = tick.wrapping_sub(self.start);
        assert(t == elapsed(tick, self.start));
        let scale: u16 = match self.kind {
            Kind::Solid => MAX_DUTY,
            Kind::Blink { half_ms } => {
                assert(t as u64 * POLL_MS as u64 <= 0xFFFF_FFFF * 40) by (nonlinear_arith)
                    requires
                        t <= 0xFFFF_FFFF,
                        POLL_MS == 40,
                ;
                let ms = t as u64 * POLL_MS as u64;
                if (ms / half_ms as u64) % 2 == 0 {
                    MAX_DUTY
                } else {
                    0
                }
            },
            Kind::Breathe => {
                let phase = t % BREATHE_TICKS;
                let half = BREATHE_TICKS / 2;
                let tri = if phase < half {
                    phase
                } else {
                    BREATHE_TICKS - phase
                };
                assert(half == 25 && tri <= 25);
                assert(tri * (MAX_DUTY as u32) <= 25000) by (nonlinear_arith)
                    requires
                        tri <= 25,
                        MAX_DUTY == 1000,
                ;
                let lin = tri * (MAX_DUTY as u32) / half;
                assert(lin * lin <= 1000 * 1000) by (nonlinear_arith)
                    requires
                        lin <= 1000,
                ;
                let sq = lin * lin / (MAX_DUTY as u32);
                proof {
                    lemma_breathe_scale_bounds(t as int);
                }
                let sq = sq as u16;
                if sq < BREATHE_FLOOR {
                    BREATHE_FLOOR
                } else {
                    sq
                }
            },
        };
        (dim(self.rgb.0, scale), dim(self.rgb.1, scale), dim(self.rgb.2, scale))
    }
}

/// `POWER.RESETREAS` bit: reset by the watchdog.
pub const RESETREAS_DOG: u32 = 1 << 1;

/// `POWER.RESETREAS` bit: soft reset requested by the CPU.
pub const RESETREAS_SREQ: u32 = 1 << 2;

/// `POWER.RESETREAS` bit: CPU lockup.
pub const RESETREAS_LOCKUP: u32 = 1 << 3;

/// Written to `GPREGRET2` once this firmware is up; the firmware stack
/// overwrites it with `0xA0 | reason` if it reboots itself.
pub const ALIVE_MARKER: u8 = 0xA5;

/// Why the previous run ended.
#[derive(Clone, Copy, Debug, PartialEq, Eq, Structural)]
pub enum Reason {
    /// Power-on or reset pin: a clean start.
    Clean,
    /// The watchdog recycled a hang.
    Watchdog,
    /// A soft reset with no marker left behind.
    SoftwareReset,
    /// A fault inside a fault.
    Lockup,
    /// The previous run's marker survived: 0 = it was up and ended without
    /// recording why, 1..=15 = the reboot reason it recorded.
    SoftReboot(u8),
    /// The previous run panicked.
    Panic,
}

/// The reason the reset-reason table gives for a `RESETREAS` value and the
/// `GPREGRET2` marker the previous run left: hardware causes first, then the
/// marker, then a plain soft reset.
pub open spec fn reason_of(resetreas: u32, marker: u8) -> Reason {
    if resetreas & RESETREAS_LOCKUP != 0 {
        Reason::Lockup
    } else if resetreas & RESETREAS_DOG != 0 {
        Reason::Watchdog
    } else if marker == ALIVE_MARKER {
        Reason::SoftReboot(0)
    } else if marker == PANIC_MARKER {
        Reason::Panic
    } else if 0xA0 <= marker <= 0xAF {
        Reason::SoftReboot((marker - 0xA0) as u8)
    } else if resetreas & RESETREAS_SREQ != 0 {
        Reason::SoftwareReset
    } else {
        Reason::Clean
    }
}

/// Classifies the cause of the last reset.
pub fn reset_reason(resetreas: u32, marker: u8) -> (r: Reason)
    ensures
        r == reason_of(resetreas, marker),
{
    if resetreas & RESETREAS_LOCKUP != 0 {
        Reason::Lockup
    } else if resetreas & RESETREAS_DOG != 0 {
        Reason::Watchdog
    } else if marker == ALIVE_MARKER {
        Reason::SoftReboot(0)
    } else if marker == PANIC_MARKER {
        Reason::Panic
    } else if marker & 0xF0 == 0xA0 {
        assert(marker & 0xF0 == 0xA0 ==> 0xA0 <= marker <= 0xAF && marker & 0x0F == marker - 0xA0)
            by (bit_vector);
        Reason::SoftReboot(marker & 0x0F)
    } else {
        assert(!(marker & 0xF0 == 0xA0) ==> !(0xA0 <= marker <= 0xAF)) by (bit_vector);
        if resetreas & RESETREAS_SREQ != 0 {
            Reason::SoftwareReset
        } else {
            Reason::Clean
        }
    }
}

/// A pattern from `start` lasting `len` ticks (the end wraps with the tick
/// counter).
pub open spec fn pattern(rgb: Rgb, kind: Kind, start: u32, len: u32) -> Pattern {
    Pattern { rgb, kind, start, until: ((start + len) % 0x1_0000_0000) as u32 }
}

/// What the LED says about the reset reason, from boot: nothing after a
/// clean start; blue for the watchdog; white for a lockup; solid magenta for
/// a soft reset without a reason; magenta blinking N times for reboot reason
/// N, and five times for a panic.
pub open spec fn boot_pattern(reason: Reason) -> Option<Pattern> {
    match reason {
        Reason::Clean => None,
        Reason::Watchdog => Some(pattern(BLUE, Kind::Solid, 0, REASON_TICKS)),
        Reason::Lockup => Some(pattern(WHITE, Kind::Solid, 0, REASON_TICKS)),
        Reason::SoftwareReset => Some(pattern(MAGENTA, Kind::Solid, 0, REASON_TICKS)),
        Reason::SoftReboot(code) => if code == 0 {
            Some(pattern(MAGENTA, Kind::Solid, 0, REASON_TICKS))
        } else {
            Some(
                pattern(
                    MAGENTA,
                    Kind::Blink { half_ms: CODE_BLINK_MS },
                    0,
                    (CODE_PERIOD_TICKS * code) as u32,
                ),
            )
        },
        Reason::Panic => Some(
            pattern(
                MAGENTA,
                Kind::Blink { half_ms: CODE_BLINK_MS },
                0,
                (CODE_PERIOD_TICKS * 5) as u32,
            ),
        ),
    }
}

fn make_pattern(rgb: Rgb, kind: Kind, start: u32, len: u32) -> (p: Pattern)
    ensures
        p == pattern(rgb, kind, start, len),
{
    Pattern { rgb, kind, start, until: start.wrapping_add(len) }
}

fn reason_pattern(reason: Reason) -> (p: Option<Pattern>)
    requires
        reason is SoftReboot ==> reason->SoftReboot_0 <= 15,
    ensures
        p == boot_pattern(reason),
{
    match reason {
        Reason::Clean => None,
        Reason::Watchdog => Some(make_pattern(BLUE, Kind::Solid, 0, REASON_TICKS)),
        Reason::Lockup => Some(make_pattern(WHITE, Kind::Solid, 0, REASON_TICKS)),
        Reason::SoftwareReset => Some(make_pattern(MAGENTA, Kind::Solid, 0, REASON_TICKS)),
        Reason::SoftReboot(code) => {
            if code == 0 {
                Some(make_pattern(MAGENTA, Kind::Solid, 0, REASON_TICKS))
            } else {
                Some(
                    make_pattern(
                        MAGENTA,
                        Kind::Blink { half_ms: CODE_BLINK_MS },
                        0,
                        CODE_PERIOD_TICKS * code as u32,
                    ),
                )
            }
        },
        Reason::Panic => Some(
            make_pattern(MAGENTA, Kind::Blink { half_ms: CODE_BLINK_MS }, 0, CODE_PERIOD_TICKS * 5),
        ),
    }
}

/// What the PWM peripheral is to do for one update of the LED.
#[derive(Clone, Copy, Debug, PartialEq, Eq)]
pub enum PwmCommand {
    /// Nothing changes.
    Keep,
    /// Drive all duties to zero, then disable the PWM: a disabled PWM leaves
    /// the pins at their idle level, which is off on a common-anode LED.
    Park,
    /// Enable the PWM first if `enable`, then set the three duties to `rgb`.
    Drive { enable: bool, rgb: Rgb },
}

/// Whether the PWM is running, so an unlit LED costs no clock.
#[derive(Clone, Copy, Debug, PartialEq, Eq)]
pub struct LedPower {
    pub lit: bool,
}

/// The PWM update that shows `rgb` on an LED that is currently `lit` or not.
pub open spec fn command_for(lit: bool, rgb: Rgb) -> PwmCommand {
    if rgb == OFF {
        if lit {
            PwmCommand::Park
        } else {
            PwmCommand::Keep
        }
    } else {
        PwmCommand::Drive { enable: !lit, rgb }
    }
}

impl LedPower {
    /// An LED whose PWM is disabled.
    pub fn new() -> (p: LedPower)
        ensures
            !p.lit,
    {
        LedPower { lit: false }
    }

    /// Shows `rgb`: the PWM runs exactly while the colour is not off.
    pub fn set(&mut self, rgb: Rgb) -> (cmd: PwmCommand)
        ensures
            cmd == command_for(old(self).lit, rgb),
            final(self).lit == (rgb != OFF),
    {
        if rgb.0 == 0 && rgb.1 == 0 && rgb.2 == 0 {
            if self.lit {
                self.lit = false;
                PwmCommand::Park
            } else {
                PwmCommand::Keep
            }
        } else {
            let enable = !self.lit;
            self.lit = true;
            PwmCommand::Drive { enable, rgb }
        }
    }
}

/// How often, in ticks, a previous run's panic is repeated on the log.
pub const PANIC_REPEAT_TICKS: u32 = 5000 / POLL_MS;

/// After this tick the panic reminder stops.
pub const PANIC_REPEAT_UNTIL: u32 = 60000 / POLL_MS;

/// A slot holds a pattern that is showing at `tick`.
pub open spec fn live(slot: Option<Pattern>, tick: u32) -> bool {
    slot matches Some(p) && p.start <= tick < p.until
}

/// A slot holds a pattern whose time is over at `tick`.
pub open spec fn ended(slot: Option<Pattern>, tick: u32) -> bool {
    slot matches Some(p) && tick >= p.until
}

/// A slot after an update that looked at it: an ended pattern is dropped.
pub open spec fn cleared(slot: Option<Pattern>, tick: u32, looked: bool) -> Option<Pattern> {
    if looked && ended(slot, tick) {
        None
    } else {
        slot
    }
}

/// How many ticks a pattern lasts.
pub open spec fn duration(p: Pattern) -> int {
    elapsed(p.until, p.start)
}

/// A slot is empty or holds a well-formed pattern that lasts at most
/// `WAIT_TICKS`.
pub open spec fn slot_wf(slot: Option<Pattern>) -> bool {
    slot matches Some(p) ==> kind_wf(p.kind) && duration(p) <= WAIT_TICKS
}

/// A slot filled by an event: well formed, and starting only after the
/// reset-reason display.
pub open spec fn event_slot_wf(slot: Option<Pattern>) -> bool {
    slot_wf(slot) && (slot matches Some(p) ==> p.start >= REASON_TICKS)
}

/// The tick after `tick`, wrapping.
pub open spec fn next_tick(tick: u32) -> u32 {
    ((tick + 1) % 0x1_0000_0000) as u32
}

/// The colour for the host link (right half): blue for 2 s once connected;
/// red breathing while waiting up to 30 s for a bonded host; yellow fast
/// blink while open for pairing up to 30 s on a profile with no bond; nothing
/// when BLE is inactive.
pub open spec fn host_pattern(ble: BleStatus, bonded: bool, start: u32) -> Option<Pattern> {
    match ble.state {
        BleState::Connected => Some(pattern(BLUE, Kind::Solid, start, SOLID_TICKS)),
        BleState::Advertising => if bonded {
            Some(pattern(RED, Kind::Breathe, start, WAIT_TICKS))
        } else {
            Some(pattern(YELLOW, Kind::Blink { half_ms: FAST_BLINK_MS }, start, WAIT_TICKS))
        },
        BleState::Inactive => None,
    }
}

/// The colour band of a battery level: green at or above `BATTERY_HIGH`,
/// yellow at or above `BATTERY_LOW`, red below.
pub open spec fn battery_band(level: u8) -> Rgb {
    if level >= BATTERY_HIGH {
        GREEN
    } else if level >= BATTERY_LOW {
        YELLOW
    } else {
        RED
    }
}

/// The battery slot after a reading of `level`: the first reading shows its
/// band for 2 s; later, a drop below `BATTERY_CRITICAL` to a new low blinks
/// red briefly; anything else leaves the slot as it was.
pub open spec fn battery_pattern(
    previous: Option<u8>,
    level: u8,
    slot: Option<Pattern>,
    start: u32,
) -> Option<Pattern> {
    match previous {
        None => Some(pattern(battery_band(level), Kind::Solid, start, SOLID_TICKS)),
        Some(prev) => if level < BATTERY_CRITICAL && level < prev {
            Some(pattern(RED, Kind::Blink { half_ms: FAST_BLINK_MS }, start, CRITICAL_BLINK_TICKS))
        } else {
            slot
        },
    }
}

/// The display shared by both halves: four slots by priority (reset reason,
/// battery, host link, split link), each holding at most one pattern.
#[derive(Clone, Copy, Debug, PartialEq, Eq)]
pub struct Display {
    pub led: LedPower,
    pub tick: u32,
    pub boot: Option<Pattern>,
    pub battery: Option<Pattern>,
    pub host: Option<Pattern>,
    pub link: Option<Pattern>,
    /// The last battery level seen, so only the first reading and later
    /// critical drops light the LED.
    pub battery_level: Option<u8>,
    /// Whether a previous run's panic message is still to be repeated on the
    /// log.
    pub repeat_panic: bool,
}

impl Display {
    /// Every pattern held is well formed.
    pub open spec fn wf(self) -> bool {
        &&& slot_wf(self.boot)
        &&& event_slot_wf(self.battery)
        &&& event_slot_wf(self.host)
        &&& event_slot_wf(self.link)
    }

    /// The display right after boot, before its first update.
    pub open spec fn initial(resetreas: u32, marker: u8, repeat_panic: bool) -> Display {
        Display {
            led: LedPower { lit: false },
            tick: 0,
            boot: boot_pattern(reason_of(resetreas, marker)),
            battery: None,
            host: None,
            link: None,
            battery_level: None,
            repeat_panic,
        }
    }

    /// The colour shown: the first slot, by priority, whose pattern is live.
    pub open spec fn shown(self) -> Rgb {
        let t = self.tick;
        if live(self.boot, t) {
            level_at(self.boot->0, t)
        } else if live(self.battery, t) {
            level_at(self.battery->0, t)
        } else if live(self.host, t) {
            level_at(self.host->0, t)
        } else if live(self.link, t) {
            level_at(self.link->0, t)
        } else {
            OFF
        }
    }

    /// The display after an update: the slots looked at before the one
    /// shown drop their ended patterns, and the LED holds the shown colour.
    pub open spec fn updated(self) -> Display {
        let t = self.tick;
        let past_boot = !live(self.boot, t);
        let past_battery = past_boot && !live(self.battery, t);
        let past_host = past_battery && !live(self.host, t);
        Display {
            led: LedPower { lit: self.shown() != OFF },
            boot: cleared(self.boot, t, true),
            battery: cleared(self.battery, t, past_boot),
            host: cleared(self.host, t, past_battery),
            link: cleared(self.link, t, past_host),
            ..self
        }
    }

    /// The PWM update that goes with `updated`.
    pub open spec fn update_command(self) -> PwmCommand {
        command_for(self.led.lit, self.shown())
    }

    /// The moment a new pattern may start: now, but never inside the
    /// reset-reason display.
    pub open spec fn start_of_next(self) -> u32 {
        if self.tick < REASON_TICKS {
            REASON_TICKS
        } else {
            self.tick
        }
    }

    /// Whether the tick after this one is due to repeat the previous run's
    /// panic on the log: every `PANIC_REPEAT_TICKS`, starting at tick 1.
    pub open spec fn panic_due(self) -> bool {
        self.repeat_panic && next_tick(self.tick) % PANIC_REPEAT_TICKS == 1
    }

    /// The display one tick later, before its update: the reminder stops
    /// after the first repeat past `PANIC_REPEAT_UNTIL`.
    pub open spec fn ticked(self) -> Display {
        let t = next_tick(self.tick);
        Display {
            tick: t,
            repeat_panic: self.repeat_panic && !(self.panic_due() && t > PANIC_REPEAT_UNTIL),
            ..self
        }
    }

    /// The display for a boot after `resetreas` with the previous run's
    /// `GPREGRET2` marker; `repeat_panic` says whether a panic message from
    /// the previous run is waiting to be repeated. Returns the first PWM
    /// update too.
    pub fn new(resetreas: u32, marker: u8, repeat_panic: bool) -> (res: (Display, PwmCommand))
        ensures
            res.0.wf(),
            res.0 == Display::initial(resetreas, marker, repeat_panic).updated(),
            res.1 == Display::initial(resetreas, marker, repeat_panic).update_command(),
    {
        let reason = reset_reason(resetreas, marker);
        assert(marker & 0x0F <= 15) by (bit_vector);
        let mut d = Display {
            led: LedPower::new(),
            tick: 0,
            boot: reason_pattern(reason),
            battery: None,
            host: None,
            link: None,
            battery_level: None,
            repeat_panic,
        };
        let cmd = d.apply();
        (d, cmd)
    }

    fn next_start(&self) -> (s: u32)
        ensures
            s == self.start_of_next(),
    {
        if self.tick < REASON_TICKS {
            REASON_TICKS
        } else {
            self.tick
        }
    }

    /// Updates the LED from the slots.
    pub fn apply(&mut self) -> (cmd: PwmCommand)
        requires
            old(self).wf(),
        ensures
            *final(self) == old(self).updated(),
            cmd == old(self).update_command(),
            final(self).wf(),
    {
        let tick = self.tick;
        let rgb = match check_slot(&mut self.boot, tick) {
            Some(rgb) => rgb,
            None => match check_slot(&mut self.battery, tick) {
                Some(rgb) => rgb,
                None => match check_slot(&mut self.host, tick) {
                    Some(rgb) => rgb,
                    None => match check_slot(&mut self.link, tick) {
                        Some(rgb) => rgb,
                        None => OFF,
                    },
                },
            },
        };
        self.led.set(rgb)
    }

    /// One tick: advance the clock, say whether the previous run's panic is
    /// due on the log, and update the LED.
    pub fn step(&mut self) -> (res: (PwmCommand, bool))
        requires
            old(self).wf(),
        ensures
            res.1 == old(self).panic_due(),
            *final(self) == old(self).ticked().updated(),
            res.0 == old(self).ticked().update_command(),
            final(self).wf(),
    {
        self.tick = self.tick.wrapping_add(1);
        let say = self.repeat_panic && self.tick % PANIC_REPEAT_TICKS == 1;
        if say && self.tick > PANIC_REPEAT_UNTIL {
            self.repeat_panic = false;
        }
        let cmd = self.apply();
        (cmd, say)
    }

    /// Host BLE status (right half); `bonded` says whether the status's
    /// profile has a bond, and matters only while advertising.
    pub fn host_status(&mut self, ble: BleStatus, bonded: bool) -> (cmd: PwmCommand)
        requires
            old(self).wf(),
        ensures
            ({
                let shown = Display {
                    host: host_pattern(ble, bonded, old(self).start_of_next()),
                    ..*old(self)
                };
                &&& *final(self) == shown.updated()
                &&& cmd == shown.update_command()
            }),
            final(self).wf(),
    {
        let start = self.next_start();
        match ble.state {
            BleState::Connected => {
                self.host = Some(make_pattern(BLUE, Kind::Solid, start, SOLID_TICKS));
            },
            BleState::Advertising => {
                if bonded {
                    self.host = Some(make_pattern(RED, Kind::Breathe, start, WAIT_TICKS));
                } else {
                    self.host = Some(
                        make_pattern(
                            YELLOW,
                            Kind::Blink { half_ms: FAST_BLINK_MS },
                            start,
                            WAIT_TICKS,
                        ),
                    );
                }
            },
            BleState::Inactive => {
                self.host = None;
            },
        }
        self.apply()
    }

    /// Own battery: the first reading after boot in its band, then only
    /// critical drops. A reading without a level changes nothing.
    pub fn battery_status(&mut self, status: BatteryStatus) -> (cmd: PwmCommand)
        requires
            old(self).wf(),
        ensures
            match status {
                BatteryStatus::Available { level: Some(level), .. } => {
                    let shown = Display {
                        battery: battery_pattern(
                            old(self).battery_level,
                            level,
                            old(self).battery,
                            old(self).start_of_next(),
                        ),
                        battery_level: Some(level),
                        ..*old(self)
                    };
                    &&& *final(self) == shown.updated()
                    &&& cmd == shown.update_command()
                },
                _ => *final(self) == *old(self) && cmd == PwmCommand::Keep,
            },
            final(self).wf(),
    {
        let level = match status {
            BatteryStatus::Available { level: Some(level), .. } => level,
            _ => {
                return PwmCommand::Keep;
            },
        };
        let start = self.next_start();
        match self.battery_level {
            None => {
                let rgb = if level >= BATTERY_HIGH {
                    GREEN
                } else if level >= BATTERY_LOW {
                    YELLOW
                } else {
                    RED
                };
                self.battery = Some(make_pattern(rgb, Kind::Solid, start, SOLID_TICKS));
            },
            Some(prev) => {
                if level < BATTERY_CRITICAL && level < prev {
                    self.battery = Some(
                        make_pattern(
                            RED,
                            Kind::Blink { half_ms: FAST_BLINK_MS },
                            start,
                            CRITICAL_BLINK_TICKS,
                        ),
                    );
                }
            },
        }
        self.battery_level = Some(level);
        self.apply()
    }

    /// The split link came (`linked`) or went: green or red for 2 s.
    pub fn link_status(&mut self, linked: bool) -> (cmd: PwmCommand)
        requires
            old(self).wf(),
        ensures
            ({
                let rgb = if linked {
                    GREEN
                } else {
                    RED
                };
                let shown = Display {
                    link: Some(pattern(rgb, Kind::Solid, old(self).start_of_next(), SOLID_TICKS)),
                    ..*old(self)
                };
                &&& *final(self) == shown.updated()
                &&& cmd == shown.update_command()
            }),
            final(self).wf(),
    {
        let start = self.next_start();
        let rgb = if linked {
            GREEN
        } else {
            RED
        };
        self.link = Some(make_pattern(rgb, Kind::Solid, start, SOLID_TICKS));
        self.apply()
    }
}

/// Looks at one slot: drops it if its pattern has ended, and returns its
/// colour if its pattern is showing.
fn check_slot(slot: &mut Option<Pattern>, tick: u32) -> (rgb: Option<Rgb>)
    requires
        slot_wf(*old(slot)),
    ensures
        rgb == (if live(*old(slot), tick) {
            Some(level_at(old(slot)->0, tick))
        } else {
            None::<Rgb>
        }),
        *final(slot) == cleared(*old(slot), tick, true),
{
    if let Some(p) = *slot {
        if tick >= p.until {
            *slot = None;
            return None;
        }
        if tick >= p.start {
            return Some(p.level(tick));
        }
    }
    None
}

/// Right half (central): the split link is the peripheral's connection, and
/// the host link is its own.
#[derive(Clone, Copy, Debug)]
pub struct CentralStatusLed {
    pub display: Display,
    /// The last host BLE status seen, so only real changes are announced
    /// (the status event fires for USB transitions too).
    pub ble: Option<BleStatus>,
}

impl CentralStatusLed {
    /// The central's LED right after boot, and its first PWM update; see
    /// `Display::new`.
    pub fn new(resetreas: u32, marker: u8, repeat_panic: bool) -> (res: (CentralStatusLed, PwmCommand))
        ensures
            res.0.display.wf(),
            res.0.display == Display::initial(resetreas, marker, repeat_panic).updated(),
            res.0.ble is None,
            res.1 == Display::initial(resetreas, marker, repeat_panic).update_command(),
    {
        let (display, cmd) = Display::new(resetreas, marker, repeat_panic);
        (CentralStatusLed { display, ble: None }, cmd)
    }

    /// One tick; see `Display::step`.
    pub fn poll(&mut self) -> (res: (PwmCommand, bool))
        requires
            old(self).display.wf(),
        ensures
            final(self).display.wf(),
            final(self).ble == old(self).ble,
            res.1 == old(self).display.panic_due(),
            final(self).display == old(self).display.ticked().updated(),
            res.0 == old(self).display.ticked().update_command(),
    {
        self.display.step()
    }

    /// The peripheral (the left half) connected or disconnected.
    pub fn on_peripheral_connected_event(&mut self, connected: bool) -> (cmd: PwmCommand)
        requires
            old(self).display.wf(),
        ensures
            final(self).display.wf(),
            final(self).ble == old(self).ble,
            ({
                let rgb = if connected {
                    GREEN
                } else {
                    RED
                };
                let shown = Display {
                    link: Some(
                        pattern(rgb, Kind::Solid, old(self).display.start_of_next(), SOLID_TICKS),
                    ),
                    ..old(self).display
                };
                &&& final(self).display == shown.updated()
                &&& cmd == shown.update_command()
            }),
    {
        self.display.link_status(connected)
    }

    /// The host connection status changed: a status equal to the last one
    /// seen is ignored; any other is remembered and shown. `bonded` says
    /// whether `ble.profile` has a bond.
    pub fn on_connection_status_change_event(&mut self, ble: BleStatus, bonded: bool) -> (cmd:
        PwmCommand)
        requires
            old(self).display.wf(),
        ensures
            final(self).display.wf(),
            if old(self).ble == Some(ble) {
                &&& *final(self) == *old(self)
                &&& cmd == PwmCommand::Keep
            } else {
                let shown = Display {
                    host: host_pattern(ble, bonded, old(self).display.start_of_next()),
                    ..old(self).display
                };
                &&& final(self).ble == Some(ble)
                &&& final(self).display == shown.updated()
                &&& cmd == shown.update_command()
            },
    {
        if let Some(prev) = self.ble {
            if prev == ble {
                return PwmCommand::Keep;
            }
        }
        self.ble = Some(ble);
        self.display.host_status(ble, bonded)
    }

    /// A reading of the central's own battery; see `Display::battery_status`.
    pub fn on_battery_status_event(&mut self, status: BatteryStatus) -> (cmd: PwmCommand)
        requires
            old(self).display.wf(),
        ensures
            final(self).display.wf(),
            final(self).ble == old(self).ble,
            match status {
                BatteryStatus::Available { level: Some(level), .. } => {
                    let d = old(self).display;
                    let shown = Display {
                        battery: battery_pattern(d.battery_level, level, d.battery, d.start_of_next()),
                        battery_level: Some(level),
                        ..d
                    };
                    &&& final(self).display == shown.updated()
                    &&& cmd == shown.update_command()
                },
                _ => final(self).display == old(self).display && cmd == PwmCommand::Keep,
            },
    {
        self.display.battery_status(status)
    }
}

/// Left half (peripheral): the link is the central's connection.
#[derive(Clone, Copy, Debug)]
pub struct PeripheralStatusLed {
    pub display: Display,
}

impl PeripheralStatusLed {
    /// The peripheral's LED right after boot, and its first PWM update; see
    /// `Display::new`.
    pub fn new(resetreas: u32, marker: u8, repeat_panic: bool) -> (res: (PeripheralStatusLed, PwmCommand))
        ensures
            res.0.display.wf(),
            res.0.display == Display::initial(resetreas, marker, repeat_panic).updated(),
            res.1 == Display::initial(resetreas, marker, repeat_panic).update_command(),
    {
        let (display, cmd) = Display::new(resetreas, marker, repeat_panic);
        (PeripheralStatusLed { display }, cmd)
    }

    /// One tick; see `Display::step`.
    pub fn poll(&mut self) -> (res: (PwmCommand, bool))
        requires
            old(self).display.wf(),
        ensures
            final(self).display.wf(),
            res.1 == old(self).display.panic_due(),
            final(self).display == old(self).display.ticked().updated(),
            res.0 == old(self).display.ticked().update_command(),
    {
        self.display.step()
    }

    /// The central (the right half) connected or disconnected.
    pub fn on_central_connected_event(&mut self, connected: bool) -> (cmd: PwmCommand)
        requires
            old(self).display.wf(),
        ensures
            final(self).display.wf(),
            ({
                let rgb = if connected {
                    GREEN
                } else {
                    RED
                };
                let shown = Display {
                    link: Some(
                        pattern(rgb, Kind::Solid, old(self).display.start_of_next(), SOLID_TICKS),
                    ),
                    ..old(self).display
                };
                &&& final(self).display == shown.updated()
                &&& cmd == shown.update_command()
            }),
    {
        self.display.link_status(connected)
    }

    /// A reading of the peripheral's own battery; see
    /// `Display::battery_status`.
    pub fn on_battery_status_event(&mut self, status: BatteryStatus) -> (cmd: PwmCommand)
        requires
            old(self).display.wf(),
        ensures
            final(self).display.wf(),
            match status {
                BatteryStatus::Available { level: Some(level), .. } => {
                    let d = old(self).display;
                    let shown = Display {
                        battery: battery_pattern(d.battery_level, level, d.battery, d.start_of_next()),
                        battery_level: Some(level),
                        ..d
                    };
                    &&& final(self).display == shown.updated()
                    &&& cmd == shown.update_command()
                },
                _ => final(self).display == old(self).display && cmd == PwmCommand::Keep,
            },
    {
        self.display.battery_status(status)
    }
}

/// For the first `REASON_TICKS` after boot the LED says only why the board
/// reset: any other pattern waits until the reset-reason display is over.
pub proof fn reset_reason_display_is_exclusive(d: Display)
    requires
        d.wf(),
        d.tick < REASON_TICKS,
    ensures
        d.shown() == (if live(d.boot, d.tick) {
            level_at(d.boot->0, d.tick)
        } else {
            OFF
        }),
{
}

/// No pattern shows for longer than `WAIT_TICKS` (30 s): every pattern the
/// display holds has ended by then, so the LED never stays lit on its own.
pub proof fn every_pattern_ends(d: Display, slot: Option<Pattern>, tick: u32)
    requires
        d.wf(),
        slot == d.boot || slot == d.battery || slot == d.host || slot == d.link,
        live(slot, tick),
    ensures
        tick - slot->0.start < WAIT_TICKS,
{
}

/// When nothing is showing, an update leaves the LED off with its PWM
/// disabled: it parks a lit LED and leaves a dark one alone.
pub proof fn dark_led_is_unpowered(d: Display)
    requires
        !live(d.boot, d.tick),
        !live(d.battery, d.tick),
        !live(d.host, d.tick),
        !live(d.link, d.tick),
    ensures
        d.shown() == OFF,
        !d.updated().led.lit,
        d.update_command() == (if d.led.lit {
            PwmCommand::Park
        } else {
            PwmCommand::Keep
        }),
{
}

/// A breathing pattern is never fully dark and never brighter than its
/// colour: every channel stays between 1/40 of its colour and the colour.
pub proof fn breathing_never_goes_dark(p: Pattern, tick: u32)
    requires
        p.kind == Kind::Breathe,
    ensures
        ({
            let s = scale_at(p.kind, elapsed(tick, p.start));
            &&& BREATHE_FLOOR <= s <= MAX_DUTY
            &&& level_at(p, tick).0 == dimmed(p.rgb.0, s)
            &&& dimmed(p.rgb.0, s) <= p.rgb.0
            &&& dimmed(p.rgb.1, s) <= p.rgb.1
            &&& dimmed(p.rgb.2, s) <= p.rgb.2
        }),
{
    let s = scale_at(p.kind, elapsed(tick, p.start));
    lemma_breathe_scale_bounds(elapsed(tick, p.start));
    lemma_dim_bounded(p.rgb.0, s);
    lemma_dim_bounded(p.rgb.1, s);
    lemma_dim_bounded(p.rgb.2, s);
}

proof fn lemma_dim_bounded(duty: u16, s: int)
    requires
        0 <= s <= MAX_DUTY,
    ensures
        dimmed(duty, s) <= duty,
{
    assert(duty * s <= duty * 1000) by (nonlinear_arith)
        requires
            0 <= s <= 1000,
    ;
    assert(duty * s / 1000 <= duty) by (nonlinear_arith)
        requires
            0 <= duty * s <= duty * 1000,
    ;
}

/// A reboot reason `code` blinks magenta exactly `code` times: on for the
/// first 500 ms of each of `code` one-second periods, off for the rest of
/// each, and over when the last period ends.
pub proof fn reboot_code_blinks_code_times(code: u8, k: int, i: int)
    requires
        1 <= code <= 15,
        0 <= k < code,
        0 <= i < CODE_PERIOD_TICKS,
    ensures
        ({
            let p = boot_pattern(Reason::SoftReboot(code))->0;
            &&& p.start == 0
            &&& p.until == CODE_PERIOD_TICKS * code
            &&& level_at(p, (CODE_PERIOD_TICKS * k + i) as u32) == (if i * POLL_MS < CODE_BLINK_MS {
                MAGENTA
            } else {
                OFF
            })
        }),
{
    let tick = CODE_PERIOD_TICKS * k + i;
    assert(0 <= tick < 25 * 15) by (nonlinear_arith)
        requires
            tick == 25 * k + i,
            0 <= k < 15,
            0 <= i < 25,
    ;
    assert(elapsed(tick as u32, 0) == tick);
    assert((tick * 40) / 500 == 2 * k + (i * 40) / 500) by (nonlinear_arith)
        requires
            tick == 25 * k + i,
            0 <= i < 25,
    ;
    assert(dimmed(1000, 1000) == 1000);
    assert(dimmed(0, 1000) == 0);
    assert(dimmed(1000, 0) == 0);
    assert(dimmed(0, 0) == 0);
}

/// A panic in the previous run, with no hardware cause on top of it, shows
/// as magenta blinking five times.
pub proof fn panic_blinks_five_times(resetreas: u32)
    requires
        resetreas & RESETREAS_LOCKUP == 0,
        resetreas & RESETREAS_DOG == 0,
    ensures
        reason_of(resetreas, PANIC_MARKER) == Reason::Panic,
        boot_pattern(reason_of(resetreas, PANIC_MARKER)) == Some(
            pattern(MAGENTA, Kind::Blink { half_ms: CODE_BLINK_MS }, 0, (5 * CODE_PERIOD_TICKS) as u32),
        ),
{
    assert(0xA0u8 | 0x0Fu8 == 0xAFu8) by (bit_vector);
}

/// The previous run's panic is repeated on the log at most once every
/// `PANIC_REPEAT_TICKS`, and not after the first repeat past
/// `PANIC_REPEAT_UNTIL`: once stopped, it never starts again.
pub proof fn panic_reminder_is_bounded(d: Display)
    ensures
        d.panic_due() ==> d.ticked().tick % PANIC_REPEAT_TICKS == 1,
        d.panic_due() && d.ticked().tick > PANIC_REPEAT_UNTIL ==> !d.ticked().repeat_panic,
        !d.repeat_panic ==> !d.panic_due() && !d.ticked().repeat_panic,
        d.ticked().updated().repeat_panic == d.ticked().repeat_panic,
{
}

/// The display after `n` ticks with no event.
pub open spec fn quiet(d: Display, n: nat) -> Display
    decreases n,
{
    if n == 0 {
        d
    } else {
        quiet(d.ticked().updated(), (n - 1) as nat)
    }
}

/// A slot is empty or holds a pattern over by `t`.
pub open spec fn over_by(slot: Option<Pattern>, t: int) -> bool {
    slot matches Some(p) ==> p.until <= t
}

proof fn lemma_quiet_keeps_or_clears(d: Display, n: nat)
    requires
        d.tick + n <= u32::MAX,
    ensures
        quiet(d, n).tick == d.tick + n,
        quiet(d, n).boot == d.boot || quiet(d, n).boot is None,
        quiet(d, n).battery == d.battery || quiet(d, n).battery is None,
        quiet(d, n).host == d.host || quiet(d, n).host is None,
        quiet(d, n).link == d.link || quiet(d, n).link is None,
    decreases n,
{
    if n > 0 {
        let e = d.ticked().updated();
        assert(e.tick == d.tick + 1);
        lemma_quiet_keeps_or_clears(e, (n - 1) as nat);
    }
}

/// Left alone, the LED goes dark with its PWM disabled once every pattern it
/// holds has ended: nothing lights it again until the next event.
pub proof fn left_alone_goes_dark(d: Display, n: nat)
    requires
        n >= 1,
        d.tick + n <= u32::MAX,
        over_by(d.boot, d.tick + n),
        over_by(d.battery, d.tick + n),
        over_by(d.host, d.tick + n),
        over_by(d.link, d.tick + n),
    ensures
        quiet(d, n).shown() == OFF,
        !quiet(d, n).led.lit,
    decreases n,
{
    let e = d.ticked().updated();
    assert(e.tick == d.tick + 1);
    lemma_quiet_keeps_or_clears(e, (n - 1) as nat);
    assert(quiet(d, n) == quiet(e, (n - 1) as nat));
    if n == 1 {
        assert(quiet(d, n) == e);
        assert(d.ticked().shown() == OFF);
    } else {
        left_alone_goes_dark(d.ticked().updated(), (n - 1) as nat);
    }
}

/// The slots rank reset reason, battery, host link, split link: whatever
/// the tick, a live pattern shows unless a higher slot's pattern is live, an
/// update never drops a live pattern, and it never shows a slot whose
/// pattern is not live.
pub proof fn live_slots_show_by_rank(d: Display)
    ensures
        live(d.boot, d.tick) ==> d.shown() == level_at(d.boot->0, d.tick),
        !live(d.boot, d.tick) && live(d.battery, d.tick) ==> d.shown() == level_at(
            d.battery->0,
            d.tick,
        ),
        !live(d.boot, d.tick) && !live(d.battery, d.tick) && live(d.host, d.tick) ==> d.shown()
            == level_at(d.host->0, d.tick),
        !live(d.boot, d.tick) && !live(d.battery, d.tick) && !live(d.host, d.tick) && live(
            d.link,
            d.tick,
        ) ==> d.shown() == level_at(d.link->0, d.tick),
        live(d.boot, d.tick) ==> d.updated().boot == d.boot,
        live(d.battery, d.tick) ==> d.updated().battery == d.battery,
        live(d.host, d.tick) ==> d.updated().host == d.host,
        live(d.link, d.tick) ==> d.updated().link == d.link,
        d.updated().tick == d.tick,
        d.updated().led.lit == (d.shown() != (0u16, 0u16, 0u16)),
{
}

/// The reset-register bits and the panic marker as numbers.
proof fn lemma_marker_and_bits()
    ensures
        RESETREAS_DOG == 2,
        RESETREAS_SREQ == 4,
        RESETREAS_LOCKUP == 8,
        PANIC_MARKER == 0xAF,
{
    assert(1u32 << 1 == 2u32) by (bit_vector);
    assert(1u32 << 2 == 4u32) by (bit_vector);
    assert(1u32 << 3 == 8u32) by (bit_vector);
    assert(0xA0u8 | 0x0Fu8 == 0xAFu8) by (bit_vector);
}

/// With no events, a display holding only a pattern that started at boot
/// keeps it, and nothing else, for as long as it lasts.
proof fn lemma_quiet_keeps_boot(d: Display, n: nat)
    requires
        d.boot is Some,
        d.boot->0.start == 0,
        d.tick + n < d.boot->0.until,
        d.battery is None,
        d.host is None,
        d.link is None,
    ensures
        quiet(d, n).tick == d.tick + n,
        quiet(d, n).boot == d.boot,
        quiet(d, n).battery is None,
        quiet(d, n).host is None,
        quiet(d, n).link is None,
    decreases n,
{
    if n > 0 {
        let e = d.ticked().updated();
        assert(e.tick == d.tick + 1);
        assert(e.boot == d.boot);
        lemma_quiet_keeps_boot(e, (n - 1) as nat);
    }
}

/// A panic in the previous run (with no lockup or watchdog on top of it)
/// shows, with no other event, as five whole magenta blinks: in each of the
/// first five seconds after boot the LED is magenta for the first 500 ms and
/// off for the rest, whatever else the reset register holds.
pub proof fn panic_shows_five_whole_blinks(resetreas: u32, repeat_panic: bool, k: int, i: int)
    requires
        resetreas & 8 == 0,
        resetreas & 2 == 0,
        0 <= k < 5,
        0 <= i < 25,
    ensures
        quiet(Display::initial(resetreas, 0xAF, repeat_panic).updated(), (25 * k + i) as nat).shown()
            == (if i * 40 < 500 {
            (1000u16, 0u16, 1000u16)
        } else {
            (0u16, 0u16, 0u16)
        }),
{
    lemma_marker_and_bits();
    let d0 = Display::initial(resetreas, 0xAF, repeat_panic);
    assert(d0.boot == Some(
        pattern(MAGENTA, Kind::Blink { half_ms: CODE_BLINK_MS }, 0, (5 * CODE_PERIOD_TICKS) as u32),
    ));
    let d = d0.updated();
    let n = 25 * k + i;
    assert(0 <= n < 125) by (nonlinear_arith)
        requires
            n == 25 * k + i,
            0 <= k < 5,
            0 <= i < 25,
    ;
    lemma_quiet_keeps_boot(d, n as nat);
    let q = quiet(d, n as nat);
    assert(elapsed(q.tick, 0) == n);
    assert((n * 40) / 500 == 2 * k + (i * 40) / 500) by (nonlinear_arith)
        requires
            n == 25 * k + i,
            0 <= i < 25,
    ;
    assert(dimmed(1000, 1000) == 1000);
    assert(dimmed(0, 1000) == 0);
    assert(dimmed(1000, 0) == 0);
    assert(dimmed(0, 0) == 0);
}

/// A reboot for reason `c` (with no lockup or watchdog on top of it) shows,
/// with no other event, as `c` whole magenta blinks: in each of the first `c`
/// seconds after boot the LED is magenta for the first 500 ms and off for
/// the rest. (Marker 0xA5 is the one a run leaves once it is up, and 0xAF a
/// panic's.)
pub proof fn reboot_reason_shows_whole_code(resetreas: u32, repeat_panic: bool, c: u8, k: int, i: int)
    requires
        resetreas & 8 == 0,
        resetreas & 2 == 0,
        1 <= c <= 14,
        c != 5,
        0 <= k < c,
        0 <= i < 25,
    ensures
        quiet(
            Display::initial(resetreas, (0xA0 + c) as u8, repeat_panic).updated(),
            (25 * k + i) as nat,
        ).shown() == (if i * 40 < 500 {
            (1000u16, 0u16, 1000u16)
        } else {
            (0u16, 0u16, 0u16)
        }),
{
    lemma_marker_and_bits();
    let marker = (0xA0 + c) as u8;
    let d0 = Display::initial(resetreas, marker, repeat_panic);
    assert(reason_of(resetreas, marker) == Reason::SoftReboot(c));
    let d = d0.updated();
    let n = 25 * k + i;
    assert(0 <= n < 25 * c) by (nonlinear_arith)
        requires
            n == 25 * k + i,
            0 <= k < c,
            0 <= i < 25,
    ;
    lemma_quiet_keeps_boot(d, n as nat);
    let q = quiet(d, n as nat);
    assert(elapsed(q.tick, 0) == n);
    assert((n * 40) / 500 == 2 * k + (i * 40) / 500) by (nonlinear_arith)
        requires
            n == 25 * k + i,
            0 <= i < 25,
    ;
    assert(dimmed(1000, 1000) == 1000);
    assert(dimmed(0, 1000) == 0);
    assert(dimmed(1000, 0) == 0);
    assert(dimmed(0, 0) == 0);
}

/// The reset-reason table, over every register value and marker: a lockup
/// wins over everything, then the watchdog; a soft-reboot marker `0xA0 | c`
/// reads as reason `c` (0xA5, the marker of a run that was up, as reason 0,
/// and 0xAF as a panic); without a marker, a software reset request reads as
/// a soft reset and anything else as a clean start.
pub proof fn reset_reason_table(resetreas: u32, marker: u8, c: u8)
    ensures
        resetreas & 8 != 0 ==> reason_of(resetreas, marker) == Reason::Lockup,
        resetreas & 8 == 0 && resetreas & 2 != 0 ==> reason_of(resetreas, marker)
            == Reason::Watchdog,
        resetreas & 8 == 0 && resetreas & 2 == 0 ==> {
            &&& reason_of(resetreas, 0xA5) == Reason::SoftReboot(0)
            &&& reason_of(resetreas, 0xAF) == Reason::Panic
            &&& (1 <= c <= 14 && c != 5 ==> reason_of(resetreas, 0xA0 | c) == Reason::SoftReboot(
                c,
            ))
            &&& (marker & 0xF0 != 0xA0 && resetreas & 4 != 0 ==> reason_of(resetreas, marker)
                == Reason::SoftwareReset)
            &&& (marker & 0xF0 != 0xA0 && resetreas & 4 == 0 ==> reason_of(resetreas, marker)
                == Reason::Clean)
        },
{
    lemma_marker_and_bits();
    assert(1 <= c <= 14 ==> 0xA0u8 | c == 0xA0 + c) by (bit_vector);
    assert(marker & 0xF0 != 0xA0 ==> !(0xA0 <= marker <= 0xAF)) by (bit_vector);
}

/// What each reset reason shows at boot: nothing after a clean start; 3 s of
/// solid blue after the watchdog, white after a lockup, magenta after a soft
/// reset with no reason; `c` one-second magenta blinks for reason `c`, and
/// five for a panic.
pub proof fn boot_pattern_table(c: u8)
    requires
        1 <= c <= 15,
    ensures
        boot_pattern(Reason::Clean) is None,
        boot_pattern(Reason::Watchdog) == Some(
            Pattern { rgb: (0u16, 0u16, 1000u16), kind: Kind::Solid, start: 0, until: 75 },
        ),
        boot_pattern(Reason::Lockup) == Some(
            Pattern { rgb: (1000u16, 1000u16, 1000u16), kind: Kind::Solid, start: 0, until: 75 },
        ),
        boot_pattern(Reason::SoftwareReset) == Some(
            Pattern { rgb: (1000u16, 0u16, 1000u16), kind: Kind::Solid, start: 0, until: 75 },
        ),
        boot_pattern(Reason::SoftReboot(0)) == Some(
            Pattern { rgb: (1000u16, 0u16, 1000u16), kind: Kind::Solid, start: 0, until: 75 },
        ),
        boot_pattern(Reason::SoftReboot(c)) == Some(
            Pattern {
                rgb: (1000u16, 0u16, 1000u16),
                kind: Kind::Blink { half_ms: 500 },
                start: 0,
                until: (25 * c) as u32,
            },
        ),
        boot_pattern(Reason::Panic) == Some(
            Pattern {
                rgb: (1000u16, 0u16, 1000u16),
                kind: Kind::Blink { half_ms: 500 },
                start: 0,
                until: 125,
            },
        ),
{
}

/// The battery slot, over every reading: the first reading shows its band
/// (green from 40 %, yellow from 20 %, red below) solid for 2 s; after that,
/// every reading below 10 % that is lower than the one before blinks red for
/// 600 ms, whatever the one before was, and any other reading leaves the
/// slot as it was.
pub proof fn battery_readings(prev: u8, level: u8, slot: Option<Pattern>, s: u32)
    ensures
        battery_pattern(None, level, slot, s) == Some(
            Pattern {
                rgb: if level >= 40 {
                    (0u16, 1000u16, 0u16)
                } else if level >= 20 {
                    (1000u16, 500u16, 0u16)
                } else {
                    (1000u16, 0u16, 0u16)
                },
                kind: Kind::Solid,
                start: s,
                until: ((s + 50) % 0x1_0000_0000) as u32,
            },
        ),
        level < prev && level < 10 ==> battery_pattern(Some(prev), level, slot, s) == Some(
            Pattern {
                rgb: (1000u16, 0u16, 0u16),
                kind: Kind::Blink { half_ms: 100 },
                start: s,
                until: ((s + 15) % 0x1_0000_0000) as u32,
            },
        ),
        !(level < prev && level < 10) ==> battery_pattern(Some(prev), level, slot, s) == slot,
{
}

/// The host-link slot, over every status: connected shows 2 s of solid
/// blue; advertising breathes red for up to 30 s on a profile with a bond
/// and blinks yellow every 100 ms for up to 30 s on one without; inactive
/// shows nothing. A new pattern starts now, but never before the reset
/// reason's 3 s are over.
pub proof fn host_link_table(ble: BleStatus, bonded: bool, d: Display)
    ensures
        d.start_of_next() == (if d.tick < 75 {
            75
        } else {
            d.tick
        }),
        ({
            let s = d.start_of_next();
            &&& ble.state == BleState::Connected ==> host_pattern(ble, bonded, s) == Some(
                Pattern {
                    rgb: (0u16, 0u16, 1000u16),
                    kind: Kind::Solid,
                    start: s,
                    until: ((s + 50) % 0x1_0000_0000) as u32,
                },
            )
            &&& ble.state == BleState::Advertising && bonded ==> host_pattern(ble, bonded, s)
                == Some(
                Pattern {
                    rgb: (1000u16, 0u16, 0u16),
                    kind: Kind::Breathe,
                    start: s,
                    until: ((s + 750) % 0x1_0000_0000) as u32,
                },
            )
            &&& ble.state == BleState::Advertising && !bonded ==> host_pattern(ble, bonded, s)
                == Some(
                Pattern {
                    rgb: (1000u16, 500u16, 0u16),
                    kind: Kind::Blink { half_ms: 100 },
                    start: s,
                    until: ((s + 750) % 0x1_0000_0000) as u32,
                },
            )
            &&& ble.state == BleState::Inactive ==> host_pattern(ble, bonded, s) is None
        }),
{
}

/// How a pattern's colour varies over time: a solid pattern shows its colour
/// throughout; a blink with half period `h` ms shows its colour while the
/// milliseconds since its start, counted in 40 ms ticks, fall in an even
/// `h`-long half period, and nothing in an odd one.
pub proof fn solid_and_blink_waveforms(p: Pattern, tick: u32)
    ensures
        p.kind == Kind::Solid ==> level_at(p, tick) == p.rgb,
        p.kind is Blink && p.kind->half_ms > 0 ==> level_at(p, tick) == (if (elapsed(tick, p.start)
            * 40 / p.kind->half_ms as int) % 2 == 0 {
            p.rgb
        } else {
            (0u16, 0u16, 0u16)
        }),
{
    lemma_full_scale(p.rgb.0);
    lemma_full_scale(p.rgb.1);
    lemma_full_scale(p.rgb.2);
}

/// A breathing pattern repeats every 2 s, peaks at its full colour halfway
/// through, and is at its floor of 1/40 at the start of each period.
pub proof fn breathing_waveform(p: Pattern, tick: u32)
    requires
        p.kind == Kind::Breathe,
    ensures
        breathe_scale(elapsed(tick, p.start)) == breathe_scale(elapsed(tick, p.start) + 50),
        elapsed(tick, p.start) % 50 == 25 ==> level_at(p, tick) == p.rgb,
        elapsed(tick, p.start) % 50 == 0 ==> level_at(p, tick) == (
            (p.rgb.0 * 25 / 1000) as u16,
            (p.rgb.1 * 25 / 1000) as u16,
            (p.rgb.2 * 25 / 1000) as u16,
        ),
{
    let e = elapsed(tick, p.start);
    assert((e + 50) % 50 == e % 50) by (nonlinear_arith)
        requires
            e >= 0,
    ;
    assert(triangle(e) == triangle(e + 50));
    if e % 50 == 25 {
        assert(triangle(e) == 25);
        assert(MAX_DUTY == 1000 && BREATHE_TICKS / 2 == 25);
        assert(triangle(e) * MAX_DUTY / (BREATHE_TICKS / 2) as int == 1000);
        assert(1000int * 1000 / MAX_DUTY as int == 1000);
        assert(breathe_scale(e) == 1000);
        lemma_full_scale(p.rgb.0);
        lemma_full_scale(p.rgb.1);
        lemma_full_scale(p.rgb.2);
    }
    if e % 50 == 0 {
        assert(triangle(e) == 0);
        assert(MAX_DUTY == 1000 && BREATHE_TICKS / 2 == 25 && BREATHE_FLOOR == 25);
        assert(triangle(e) * MAX_DUTY / (BREATHE_TICKS / 2) as int == 0);
        assert(0int * 0 / MAX_DUTY as int == 0);
        assert(breathe_scale(e) == 25);
    }
}

proof fn lemma_full_scale(duty: u16)
    ensures
        dimmed(duty, 1000) == duty,
        dimmed(duty, 0) == 0,
{
    assert(duty * 1000 / 1000 == duty) by (nonlinear_arith);
}

/// The PWM follows the colour: a colour that is not off is driven, enabling
/// the PWM first only if it was stopped; off parks a running PWM and leaves
/// a stopped one alone.
pub proof fn pwm_follows_colour(lit: bool, rgb: Rgb)
    ensures
        rgb != (0u16, 0u16, 0u16) ==> command_for(lit, rgb) == (PwmCommand::Drive {
            enable: !lit,
            rgb,
        }),
        rgb == (0u16, 0u16, 0u16) && lit ==> command_for(lit, rgb) == PwmCommand::Park,
        rgb == (0u16, 0u16, 0u16) && !lit ==> command_for(lit, rgb) == PwmCommand::Keep,
{
}

/// A tick advances the clock by one, wrapping; the previous run's panic is
/// due on the log at ticks 1, 126, 251, ... while the reminder runs, and the
/// reminder ends with the first one past tick 1500.
pub proof fn tick_and_reminder(d: Display)
    ensures
        d.ticked().tick == (d.tick + 1) % 0x1_0000_0000,
        d.panic_due() == (d.repeat_panic && d.ticked().tick % 125 == 1),
        d.ticked().repeat_panic == (d.repeat_panic && !(d.panic_due() && d.ticked().tick > 1500)),
        d.ticked().boot == d.boot && d.ticked().battery == d.battery && d.ticked().host == d.host
            && d.ticked().link == d.link && d.ticked().battery_level == d.battery_level,
{
}

} // verus!
