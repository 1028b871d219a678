use desert_shooter_engine::procedural::{DailySeed, ProceduralTarget, Rng};
use desert_shooter_engine::targets::TargetKind;

#[test]
fn rng_xorshift_values() {
    let mut rng = Rng::new(1);
    assert_eq!(rng.next_u32(), 1082269761);
    assert_eq!(rng.next_u32(), 201397313);
    assert_eq!(rng.next_u32(), 1854285353);
}

#[test]
fn rng_zero_seed_uses_fixed_state() {
    let mut zero = Rng::new(0);
    let mut fixed = Rng::new(0xDEAD_BEEF_CAFE_BABE);
    let a = zero.next_u32();
    assert_eq!(a, 755247179);
    assert_eq!(a, fixed.next_u32());
    // the generator never returns to an all-zero state, so draws keep changing
    let mut seen_nonzero = false;
    for _ in 0..100 {
        if zero.next_u32() != 0 {
            seen_nonzero = true;
        }
    }
    assert!(seen_nonzero);
}

#[test]
fn today_seed_is_fixed() {
    assert_eq!(DailySeed::today_seed(), 20260610);
}

#[test]
fn daily_layout_for_today() {
    let layout = DailySeed::new(DailySeed::today_seed()).generate_layout();
    assert_eq!(layout.targets.len(), 8);
    assert_eq!(
        layout.targets[0],
        ProceduralTarget { kind: TargetKind::Plate, x_draw: 3551956721, y_draw: 3409215404, z_draw: 3236854867 }
    );
    assert_eq!(layout.targets[1].kind, TargetKind::Drone);
    assert_eq!(layout.targets[3].kind, TargetKind::Can);
    assert_eq!(layout.targets[4].kind, TargetKind::Bottle);
    assert_eq!(layout.targets[7].z_draw, 3109974242);
}

#[test]
fn layout_matches_generator_and_is_deterministic() {
    for seed in [0u64, 1, 7, 42, 123456789, u64::MAX] {
        let a = DailySeed::new(seed).generate_layout();
        let b = DailySeed::new(seed).generate_layout();
        assert_eq!(a.targets, b.targets);
        assert!(a.targets.len() >= 6 && a.targets.len() <= 11);
        let mut rng = Rng::new(seed);
        assert_eq!(a.targets.len(), 6 + (rng.next_u32() % 6) as usize);
        for t in &a.targets {
            let k = rng.next_u32() % 5;
            let expected = [TargetKind::Plate, TargetKind::Can, TargetKind::Bottle, TargetKind::Bell, TargetKind::Drone][k as usize];
            assert_eq!(t.kind, expected);
            assert_eq!(t.x_draw, rng.next_u32());
            assert_eq!(t.y_draw, rng.next_u32());
            assert_eq!(t.z_draw, rng.next_u32());
        }
    }
}
