use desert_shooter_engine::kinds::ThrowPhase;
use desert_shooter_engine::round::{HitCredit, RoundState};
use desert_shooter_engine::scoring::ScoreSystem;
use desert_shooter_engine::stones::StoneKind;
use desert_shooter_engine::throw::ThrowState;
use desert_shooter_engine::unlocks::UnlockRegistry;
use desert_shooter_engine::xp::PlayerProfile;

fn fresh_round(throws: u32) -> RoundState {
    RoundState {
        throws: ThrowState { throws_remaining: throws, max_throws: throws, ..ThrowState::default() },
        scoring: ScoreSystem::default(),
        profile: PlayerProfile::default(),
        unlocks: UnlockRegistry::default(),
        charging: false,
        round_over: false,
    }
}

#[test]
fn finished_round_ignores_frames() {
    let mut round = fresh_round(3);
    round.round_over = true;
    let a = round.control_step(false, true, false, false);
    assert!(a.skip);
    assert!(!a.end_round && !a.charge_started && !a.advance_charge && !a.launch);
    assert_eq!(round.throws.phase, ThrowPhase::Idle);
    assert!(!round.charging);
}

#[test]
fn round_ends_when_time_runs_out() {
    let mut round = fresh_round(3);
    let a = round.control_step(true, false, false, false);
    assert!(a.end_round);
    assert!(!a.skip);
    assert!(round.round_over);
    // the next frame does nothing
    let b = round.control_step(false, true, false, false);
    assert!(b.skip);
}

#[test]
fn hold_then_release_throws_one_stone() {
    let mut round = fresh_round(2);
    let a = round.control_step(false, true, false, false);
    assert!(a.charge_started && a.advance_charge && !a.launch);
    assert_eq!(round.throws.phase, ThrowPhase::Charging);
    assert!(round.charging);
    // holding on: the charge goes on, no second start
    let b = round.control_step(false, true, false, false);
    assert!(!b.charge_started && b.advance_charge && !b.launch);
    // letting go: released
    let c = round.control_step(false, false, false, false);
    assert!(c.launch && !c.advance_charge);
    assert_eq!(round.throws.phase, ThrowPhase::Flying);
    assert_eq!(round.throws.throws_remaining, 1);
    assert!(!round.charging);
}

#[test]
fn no_charge_while_the_stone_flies() {
    let mut round = fresh_round(2);
    round.throws.phase = ThrowPhase::Flying;
    let a = round.control_step(false, true, true, false);
    assert!(!a.charge_started && !a.launch && a.advance_charge);
    assert!(!round.charging);
    assert_eq!(round.throws.phase, ThrowPhase::Flying);
    assert_eq!(round.throws.throws_remaining, 2);
}

#[test]
fn no_throw_without_throws_left() {
    let mut round = fresh_round(0);
    let a = round.control_step(false, true, false, false);
    assert!(!a.charge_started);
    assert_eq!(round.throws.phase, ThrowPhase::Idle);
    let b = round.control_step(false, false, false, false);
    assert!(!b.launch);
    assert_eq!(round.throws.throws_remaining, 0);
}

#[test]
fn cooldown_running_out_returns_to_aiming() {
    let mut round = fresh_round(2);
    round.throws.phase = ThrowPhase::Cooldown;
    let a = round.control_step(false, false, false, true);
    assert!(a.advance_charge);
    assert_eq!(round.throws.phase, ThrowPhase::Aiming);
}

#[test]
fn hits_are_credited_in_order() {
    let mut round = fresh_round(2);
    round.throws.phase = ThrowPhase::Flying;
    let hits = vec![
        HitCredit { scaled: 120, ricochets: 1, xp: 24 },
        HitCredit { scaled: 80, ricochets: 0, xp: 18 },
    ];
    assert!(round.credits_fit(&hits));
    let a = round.settle_step(&hits, true, 3);
    assert!(!a.landed && !a.end_round);
    assert_eq!(round.scoring.hits, 2);
    assert_eq!(round.scoring.combo, 2);
    assert_eq!(round.scoring.max_combo, 2);
    assert_eq!(round.scoring.ricochet_bonus, 50);
    assert_eq!(round.scoring.session, 250);
    assert_eq!(round.scoring.total, 250);
    assert_eq!(round.scoring.misses, 0);
    assert_eq!(round.profile.xp, 42);
    assert_eq!(round.profile.level, 1);
    assert_eq!(round.profile.total_hits, 2);
    assert_eq!(round.profile.best_combo, 2);
    assert_eq!(round.throws.phase, ThrowPhase::Flying);
}

#[test]
fn level_up_during_a_hit_unlocks_rewards() {
    let mut round = fresh_round(2);
    round.profile.level = 2;
    round.profile.xp = 1000;
    let hits = vec![HitCredit { scaled: 10, ricochets: 0, xp: 100 }];
    round.settle_step(&hits, true, 1);
    assert_eq!(round.profile.level, 3);
    assert_eq!(round.profile.xp, 50);
    assert_eq!(round.profile.skill_points, 1);
    assert_eq!(round.unlocks.stones, vec![StoneKind::Smooth]);
}

#[test]
fn hit_without_level_up_unlocks_nothing() {
    let mut round = fresh_round(2);
    round.profile.level = 2;
    round.profile.xp = 0;
    let hits = vec![HitCredit { scaled: 10, ricochets: 0, xp: 100 }];
    round.settle_step(&hits, true, 1);
    assert_eq!(round.profile.level, 2);
    assert!(round.unlocks.stones.is_empty());
}

#[test]
fn landing_with_throws_and_targets_left_goes_on() {
    let mut round = fresh_round(2);
    round.throws.phase = ThrowPhase::Flying;
    let a = round.settle_step(&Vec::new(), false, 4);
    assert!(a.landed && !a.end_round);
    assert_eq!(round.throws.phase, ThrowPhase::Cooldown);
    assert!(!round.round_over);
}

#[test]
fn landing_with_no_throws_left_ends_round() {
    let mut round = fresh_round(0);
    round.throws.phase = ThrowPhase::Flying;
    let a = round.settle_step(&Vec::new(), false, 4);
    assert!(a.landed && a.end_round);
    assert!(round.round_over);
}

#[test]
fn landing_with_no_targets_left_ends_round() {
    let mut round = fresh_round(5);
    round.throws.phase = ThrowPhase::Flying;
    let hits = vec![HitCredit { scaled: 100, ricochets: 0, xp: 20 }];
    let a = round.settle_step(&hits, false, 0);
    assert!(a.landed && a.end_round);
    assert!(round.round_over);
    assert_eq!(round.profile.total_hits, 1);
}

#[test]
fn a_resting_stone_does_not_land_twice() {
    let mut round = fresh_round(2);
    round.throws.phase = ThrowPhase::Aiming;
    let a = round.settle_step(&Vec::new(), false, 0);
    assert!(!a.landed && !a.end_round);
    assert!(!round.round_over);
}

#[test]
fn overflowing_credits_are_refused() {
    let mut round = fresh_round(2);
    round.scoring.hits = u32::MAX;
    assert!(!round.credits_fit(&vec![HitCredit { scaled: 1, ricochets: 0, xp: 1 }]));
    assert!(round.credits_fit(&Vec::new()));
    let mut round = fresh_round(2);
    round.scoring.total = u32::MAX - 100;
    assert!(round.credits_fit(&vec![HitCredit { scaled: 50, ricochets: 1, xp: 1 }]));
    assert!(!round.credits_fit(&vec![HitCredit { scaled: 51, ricochets: 1, xp: 1 }]));
    let mut round = fresh_round(2);
    round.profile.xp = u64::MAX;
    assert!(!round.credits_fit(&vec![HitCredit { scaled: 1, ricochets: 0, xp: 1 }]));
}
