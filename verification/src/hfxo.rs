//! Starting the external 32 MHz crystal before `main`.
//!
//! The radio cannot run from the internal oscillator, and the BLE stack hangs
//! waiting for a usable clock, before USB starts, so a board that never
//! starts the crystal never appears at all. What is read is the clock's
//! status (running, from the crystal), not the started event: the
//! bootloader may hand over with the crystal already running, and starting a
//! running crystal raises no new event.
//!
//! The wait is bounded, so a board without the crystal boots without BLE
//! rather than hanging here. The register accesses are the caller's; this
//! decides, from each status read, what to do next.

use vstd::prelude::*;

verus! {

/// Status reads after the start request before giving up.
pub const SPIN_LIMIT: u32 = 2_000_000;

/// Where the crystal start-up stands.
#[derive(Clone, Copy, Debug, PartialEq, Eq, Structural)]
pub enum HfxoPhase {
    /// Nothing read yet.
    Idle,
    /// Start requested; `spins` reads since then found it not running.
    Waiting { spins: u32 },
    /// The crystal runs.
    Running,
    /// The crystal never came up; boot goes on without it.
    GaveUp,
}

/// What to do after a status read.
#[derive(Clone, Copy, Debug, PartialEq, Eq, Structural)]
pub enum HfxoAction {
    /// Trigger the crystal's start task, then read the status again.
    Start,
    /// Read the status again.
    Wait,
    /// The crystal runs: carry on booting.
    Done,
    /// Stop waiting: carry on booting without it.
    GiveUp,
}

/// The phase and action after a status read that found the crystal
/// `running` or not.
pub open spec fn next(phase: HfxoPhase, running: bool) -> (HfxoPhase, HfxoAction) {
    match phase {
        HfxoPhase::Idle => if running {
            (HfxoPhase::Running, HfxoAction::Done)
        } else {
            (HfxoPhase::Waiting { spins: 0 }, HfxoAction::Start)
        },
        HfxoPhase::Waiting { spins } => if running {
            (HfxoPhase::Running, HfxoAction::Done)
        } else if spins + 1 > SPIN_LIMIT {
            (HfxoPhase::GaveUp, HfxoAction::GiveUp)
        } else {
            (HfxoPhase::Waiting { spins: (spins + 1) as u32 }, HfxoAction::Wait)
        },
        HfxoPhase::Running => (HfxoPhase::Running, HfxoAction::Done),
        HfxoPhase::GaveUp => (HfxoPhase::GaveUp, HfxoAction::GiveUp),
    }
}

/// The phase after `n` status reads that all found the crystal stopped.
pub open spec fn after_stopped_reads(phase: HfxoPhase, n: nat) -> HfxoPhase
    decreases n,
{
    if n == 0 {
        phase
    } else {
        after_stopped_reads(next(phase, false).0, (n - 1) as nat)
    }
}

/// Spins never pass the limit while waiting.
pub open spec fn phase_wf(phase: HfxoPhase) -> bool {
    phase matches HfxoPhase::Waiting { spins } ==> spins <= SPIN_LIMIT
}

/// The crystal start-up, one status read at a time.
#[derive(Clone, Copy, Debug)]
pub struct HfxoStartup {
    pub phase: HfxoPhase,
}

impl HfxoStartup {
    /// Before the first status read.
    pub fn new() -> (s: HfxoStartup)
        ensures
            s.phase == HfxoPhase::Idle,
    {
        HfxoStartup { phase: HfxoPhase::Idle }
    }

    /// Takes one status read (`running`: the clock runs, from the crystal)
    /// and says what to do next.
    pub fn poll(&mut self, running: bool) -> (action: HfxoAction)
        requires
            phase_wf(old(self).phase),
        ensures
            (final(self).phase, action) == next(old(self).phase, running),
            phase_wf(final(self).phase),
    {
        match self.phase {
            HfxoPhase::Idle => {
                if running {
                    self.phase = HfxoPhase::Running;
                    HfxoAction::Done
                } else {
                    self.phase = HfxoPhase::Waiting { spins: 0 };
                    HfxoAction::Start
                }
            },
            HfxoPhase::Waiting { spins } => {
                if running {
                    self.phase = HfxoPhase::Running;
                    HfxoAction::Done
                } else if spins >= SPIN_LIMIT {
                    self.phase = HfxoPhase::GaveUp;
                    HfxoAction::GiveUp
                } else {
                    self.phase = HfxoPhase::Waiting { spins: spins + 1 };
                    HfxoAction::Wait
                }
            },
            HfxoPhase::Running => HfxoAction::Done,
            HfxoPhase::GaveUp => HfxoAction::GiveUp,
        }
    }
}

/// The wait is bounded: from any point of the wait, at most
/// `SPIN_LIMIT + 1` more reads that find the crystal stopped end it.
pub proof fn wait_is_bounded(spins: u32)
    requires
        spins <= SPIN_LIMIT,
    ensures
        after_stopped_reads(HfxoPhase::Waiting { spins }, (SPIN_LIMIT + 1 - spins) as nat)
            == HfxoPhase::GaveUp,
    decreases SPIN_LIMIT - spins,
{
    if spins < SPIN_LIMIT {
        wait_is_bounded((spins + 1) as u32);
        assert(next(HfxoPhase::Waiting { spins }, false).0 == HfxoPhase::Waiting {
            spins: (spins + 1) as u32,
        });
    } else {
        assert(next(HfxoPhase::Waiting { spins }, false).0 == HfxoPhase::GaveUp);
        assert(after_stopped_reads(HfxoPhase::GaveUp, 0) == HfxoPhase::GaveUp);
    }
}

/// A board without a crystal finishes the start-up after exactly
/// `SPIN_LIMIT + 2` status reads: the first requests the start, and the
/// wait then gives up.
pub proof fn missing_crystal_gives_up()
    ensures
        after_stopped_reads(HfxoPhase::Idle, (SPIN_LIMIT + 2) as nat) == HfxoPhase::GaveUp,
{
    wait_is_bounded(0);
    assert(next(HfxoPhase::Idle, false).0 == HfxoPhase::Waiting { spins: 0 });
}

/// One status read at each point of the start-up: a running crystal ends it
/// at once; before the start request, a stopped one is started; while
/// waiting, a stopped one is read again, up to 2 000 000 reads after the
/// start request, and given up on at the next; once over, it stays over.
pub proof fn startup_steps(spins: u32)
    ensures
        next(HfxoPhase::Idle, true) == (HfxoPhase::Running, HfxoAction::Done),
        next(HfxoPhase::Idle, false) == (HfxoPhase::Waiting { spins: 0 }, HfxoAction::Start),
        next(HfxoPhase::Waiting { spins }, true) == (HfxoPhase::Running, HfxoAction::Done),
        spins < 2_000_000 ==> next(HfxoPhase::Waiting { spins }, false) == (
            HfxoPhase::Waiting { spins: (spins + 1) as u32 },
            HfxoAction::Wait,
        ),
        spins >= 2_000_000 ==> next(HfxoPhase::Waiting { spins }, false) == (
            HfxoPhase::GaveUp,
            HfxoAction::GiveUp,
        ),
        next(HfxoPhase::Running, false) == (HfxoPhase::Running, HfxoAction::Done),
        next(HfxoPhase::GaveUp, true) == (HfxoPhase::GaveUp, HfxoAction::GiveUp),
{
}

} // verus!
