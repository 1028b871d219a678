use desert_shooter_engine::modes::{DailyChallenge, GameMode, LocalMultiplayer, PrecisionMode, SurvivalWaves};
use desert_shooter_engine::targets::TargetKind;

#[test]
fn mode_names_and_throws() {
    assert_eq!(GameMode::Arcade.display_name(), "Arcade");
    assert_eq!(GameMode::Daily.display_name(), "Desafio Diário");
    assert_eq!(GameMode::Survival.display_name(), "Sobrevivência");
    assert_eq!(GameMode::Arcade.max_throws(), 10);
    assert_eq!(GameMode::Precision.max_throws(), 15);
    assert_eq!(GameMode::Distance.max_throws(), 20);
    assert_eq!(GameMode::Survival.max_throws(), u32::MAX);
    assert_eq!(GameMode::Daily.max_throws(), 12);
    assert_eq!(GameMode::LocalMultiplayer.max_throws(), 8);
}

#[test]
fn new_match() {
    let m = LocalMultiplayer::new(&["Ana", "Bia", "Caio"], 5);
    assert_eq!(m.players.len(), 3);
    assert_eq!(m.players[1].name, "Bia");
    assert_eq!(m.players[2].throws_left, 5);
    assert_eq!(m.players[0].score, 0);
    assert_eq!(m.current_player, 0);
    assert_eq!(m.round, 1);
}

#[test]
fn turns_cycle_and_rounds() {
    let mut m = LocalMultiplayer::new(&["Ana", "Bia", "Caio"], 5);
    m.players[0].throws_left = 1;
    m.next_turn();
    assert_eq!(m.current_player, 1);
    assert_eq!(m.round, 1);
    assert_eq!(m.players[0].throws_left, 1);
    m.next_turn();
    assert_eq!(m.current_player, 2);
    m.next_turn();
    assert_eq!(m.current_player, 0);
    assert_eq!(m.round, 2);
    for p in &m.players {
        assert_eq!(p.throws_left, 8);
    }
    // a full round of three turns starts exactly one more round
    for _ in 0..3 {
        m.next_turn();
    }
    assert_eq!(m.current_player, 0);
    assert_eq!(m.round, 3);
}

#[test]
fn single_player_wraps_every_turn() {
    let mut m = LocalMultiplayer::new(&["Solo"], 3);
    m.next_turn();
    assert_eq!(m.current_player, 0);
    assert_eq!(m.round, 2);
}

#[test]
fn winner_after_first_round_last_on_tie() {
    let mut m = LocalMultiplayer::new(&["Ana", "Bia", "Caio"], 5);
    m.players[0].score = 300;
    m.players[1].score = 500;
    m.players[2].score = 500;
    assert!(m.winner().is_none());
    m.round = 2;
    assert_eq!(m.winner().unwrap().name, "Caio");
    m.players[2].score = 100;
    assert_eq!(m.winner().unwrap().name, "Bia");
}

#[test]
fn no_winner_without_players() {
    let mut m = LocalMultiplayer::new(&[], 5);
    m.round = 4;
    assert!(m.winner().is_none());
}

#[test]
fn mode_defaults() {
    let p = PrecisionMode::default();
    assert_eq!(p.hits_required, 10);
    assert_eq!(p.hits, 0);
    let d = DailyChallenge::default();
    assert_eq!(d.seed, 20260610);
    assert_eq!(d.best_score, 0);
    assert_eq!(d.attempts_today, 0);
    assert!(!d.completed);
}

#[test]
fn survival_wave_kinds() {
    let mut w = SurvivalWaves::default();
    let kinds = w.next_wave();
    assert_eq!(
        kinds,
        vec![TargetKind::Drone, TargetKind::Can, TargetKind::Can, TargetKind::Bottle, TargetKind::Drone, TargetKind::Can]
    );
    assert_eq!(w.wave, 2);
    let kinds = w.next_wave();
    assert_eq!(kinds.len(), 7);
    assert_eq!(kinds[6], TargetKind::Bottle);
    assert_eq!(w.wave, 3);
}
