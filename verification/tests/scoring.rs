use desert_shooter_engine::kinds::ThrowPhase;
use desert_shooter_engine::scoring::ScoreSystem;
use desert_shooter_engine::stones::StoneKind;
use desert_shooter_engine::throw::ThrowState;

#[test]
fn miss_breaks_combo() {
    let mut s = ScoreSystem::default();
    s.record_hit();
    s.record_hit();
    assert_eq!(s.combo, 2);
    assert_eq!(s.max_combo, 2);
    s.register_miss();
    assert_eq!(s.combo, 0);
    assert_eq!(s.misses, 1);
    assert_eq!(s.max_combo, 2);
    s.record_hit();
    assert_eq!(s.combo, 1);
    assert_eq!(s.max_combo, 2);
    assert_eq!(s.hits, 3);
}

#[test]
fn hit_credit_adds_ricochets() {
    let mut s = ScoreSystem::default();
    assert_eq!(s.credit_hit(120, 2), 220);
    assert_eq!(s.ricochet_bonus, 100);
    assert_eq!(s.session, 220);
    assert_eq!(s.total, 220);
    s.credit_time_bonus(30);
    assert_eq!(s.time_bonus, 30);
    assert_eq!(s.session, 250);
    assert_eq!(s.total, 250);
    assert!(s.session <= s.total && s.combo <= s.max_combo);
}

#[test]
fn throw_cycle() {
    let mut t = ThrowState::default();
    assert_eq!(t.phase, ThrowPhase::Idle);
    assert_eq!(t.selected_stone, StoneKind::Medium);
    assert!(!t.release());
    assert!(t.begin_charge());
    assert_eq!(t.phase, ThrowPhase::Charging);
    assert!(!t.begin_charge());
    assert!(t.release());
    assert_eq!(t.phase, ThrowPhase::Flying);
    assert_eq!(t.throws_remaining, 9);
    assert!(!t.begin_charge());
    t.on_rock_landed();
    assert_eq!(t.phase, ThrowPhase::Cooldown);
    t.on_cooldown_over();
    assert_eq!(t.phase, ThrowPhase::Aiming);
    assert!(t.begin_charge());
}

#[test]
fn throws_run_out() {
    let mut t = ThrowState::default();
    t.throws_remaining = 1;
    assert!(t.begin_charge());
    assert!(t.release());
    assert_eq!(t.throws_remaining, 0);
    t.on_rock_landed();
    t.on_cooldown_over();
    assert!(!t.begin_charge());
    assert_eq!(t.phase, ThrowPhase::Aiming);
}

#[test]
fn stone_selection() {
    let mut t = ThrowState::default();
    t.select_stone(6);
    assert_eq!(t.selected_stone, StoneKind::Explosive);
    t.select_stone(0);
    assert_eq!(t.selected_stone, StoneKind::Small);
    t.select_stone(7);
    assert_eq!(t.selected_stone, StoneKind::Small);
}
