use aerogu34::hfxo::{HfxoAction, HfxoPhase, HfxoStartup, SPIN_LIMIT};

#[test]
fn running_crystal_needs_no_start() {
    let mut s = HfxoStartup::new();
    assert_eq!(s.poll(true), HfxoAction::Done);
    assert_eq!(s.phase, HfxoPhase::Running);
}

#[test]
fn stopped_crystal_is_started_then_waited_for() {
    let mut s = HfxoStartup::new();
    assert_eq!(s.poll(false), HfxoAction::Start);
    assert_eq!(s.poll(false), HfxoAction::Wait);
    assert_eq!(s.poll(false), HfxoAction::Wait);
    assert_eq!(s.phase, HfxoPhase::Waiting { spins: 2 });
    assert_eq!(s.poll(true), HfxoAction::Done);
    assert_eq!(s.poll(false), HfxoAction::Done);
}

#[test]
fn missing_crystal_gives_up_after_the_limit() {
    let mut s = HfxoStartup::new();
    assert_eq!(s.poll(false), HfxoAction::Start);
    for _ in 0..SPIN_LIMIT {
        assert_eq!(s.poll(false), HfxoAction::Wait);
    }
    assert_eq!(s.phase, HfxoPhase::Waiting { spins: SPIN_LIMIT });
    assert_eq!(s.poll(false), HfxoAction::GiveUp);
    assert_eq!(s.phase, HfxoPhase::GaveUp);
    assert_eq!(s.poll(true), HfxoAction::GiveUp);
}
