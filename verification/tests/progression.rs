use desert_shooter_engine::skills::{SkillBranch, SkillNode, SkillTree};
use desert_shooter_engine::stones::{StoneKind, STONE_COUNT};
use desert_shooter_engine::unlocks::UnlockRegistry;
use desert_shooter_engine::xp::{PlayerProfile, XpSystem};

#[test]
fn skill_costs_and_branches() {
    assert_eq!(SkillNode::StrongArm.cost(), 1);
    assert_eq!(SkillNode::TrajectoryVision.cost(), 2);
    assert_eq!(SkillNode::SpinMaster.cost(), 3);
    assert_eq!(SkillNode::Burst.branch(), SkillBranch::Strength);
    assert_eq!(SkillNode::SlowAim.branch(), SkillBranch::Precision);
    assert_eq!(SkillNode::ControlledBounce.branch(), SkillBranch::Technique);
    assert_eq!(SkillNode::EagleEye.display_name(), "Olho de Águia");
    assert_eq!(SkillNode::TrajectoryVision.display_name(), "Visão de Trajetória");
}

#[test]
fn unlock_spends_points_once() {
    let mut tree = SkillTree::default();
    let mut points = 3u32;
    assert!(tree.unlock(SkillNode::TrajectoryVision, &mut points));
    assert_eq!(points, 1);
    assert!(tree.has(SkillNode::TrajectoryVision));
    assert!(tree.trajectory_preview());
    // already owned: refused, nothing spent
    assert!(!tree.unlock(SkillNode::TrajectoryVision, &mut points));
    assert_eq!(points, 1);
    // too expensive: refused
    assert!(!tree.unlock(SkillNode::Burst, &mut points));
    assert_eq!(points, 1);
    assert!(tree.unlock(SkillNode::CalmWind, &mut points));
    assert_eq!(points, 0);
    assert_eq!(tree.unlocked, vec![SkillNode::TrajectoryVision, SkillNode::CalmWind]);
}

#[test]
fn unlock_conserves_points() {
    let mut tree = SkillTree::default();
    let mut points = 5u32;
    for node in [SkillNode::Burst, SkillNode::StrongArm, SkillNode::Burst, SkillNode::SlowAim] {
        tree.unlock(node, &mut points);
        let spent: u32 = tree.unlocked.iter().map(|n| n.cost()).sum();
        assert_eq!(points + spent, 5);
    }
}

#[test]
fn stones_list_and_levels() {
    let all = StoneKind::all();
    assert_eq!(all.len(), STONE_COUNT);
    assert_eq!(all[0], StoneKind::Small);
    assert_eq!(all[6], StoneKind::Explosive);
    assert_eq!(StoneKind::Medium.display_name(), "Média");
    assert_eq!(StoneKind::Metallic.display_name(), "Metálica");
    assert_eq!(StoneKind::Smooth.unlock_level(), 3);
    assert_eq!(StoneKind::Explosive.unlock_level(), 25);
    assert!(StoneKind::Explosive.consumable());
    assert!(!StoneKind::Large.consumable());
}

#[test]
fn check_level_unlocks_by_threshold() {
    let mut reg = UnlockRegistry::default();
    reg.check_level(12);
    assert_eq!(reg.stones, vec![StoneKind::Smooth, StoneKind::Irregular]);
    assert_eq!(reg.maps, vec!["floresta".to_string(), "deserto".to_string()]);
    assert_eq!(reg.gloves, vec!["precisao".to_string()]);
    assert!(reg.skins.is_empty());
    reg.check_level(30);
    assert_eq!(
        reg.stones,
        vec![StoneKind::Smooth, StoneKind::Irregular, StoneKind::Metallic, StoneKind::Explosive]
    );
    assert_eq!(reg.maps.len(), 5);
    assert_eq!(reg.maps[4], "futurista");
    assert_eq!(reg.skins, vec!["dourada".to_string()]);
}

#[test]
fn check_level_low_then_high_equals_high() {
    let mut a = UnlockRegistry::default();
    a.check_level(7);
    a.check_level(22);
    let mut b = UnlockRegistry::default();
    b.check_level(22);
    assert_eq!(a.stones, b.stones);
    assert_eq!(a.maps, b.maps);
    assert_eq!(a.gloves, b.gloves);
    assert_eq!(a.skins, b.skins);
    // a second check of the same level changes nothing
    b.check_level(22);
    assert_eq!(a.maps, b.maps);
}

#[test]
fn stone_availability() {
    let mut reg = UnlockRegistry::default();
    assert!(reg.is_stone_available(StoneKind::Small, false));
    assert!(!reg.is_stone_available(StoneKind::Metallic, false));
    assert!(reg.is_stone_available(StoneKind::Metallic, true));
    reg.check_level(15);
    for kind in StoneKind::all() {
        assert_eq!(reg.is_stone_available(kind, false), kind.unlock_level() <= 15);
    }
}

#[test]
fn xp_thresholds() {
    assert_eq!(XpSystem::xp_for_level(1), 150);
    assert_eq!(XpSystem::xp_for_level(2), 500);
    assert_eq!(XpSystem::xp_for_level(10), 10500);
    assert_eq!(XpSystem::xp_for_level(0), 0);
}

#[test]
fn award_levels_up_once() {
    let mut p = PlayerProfile::default();
    assert_eq!(p.level, 1);
    assert!(!XpSystem::award(&mut p, 499));
    assert_eq!(p.xp, 499);
    assert!(XpSystem::award(&mut p, 2000));
    assert_eq!(p.level, 2);
    assert_eq!(p.skill_points, 1);
    assert_eq!(p.xp, 2499 - 500);
}

#[test]
fn check_level_high_then_low_changes_nothing() {
    let mut a = UnlockRegistry::default();
    a.check_level(25);
    let stones = a.stones.clone();
    let maps = a.maps.clone();
    a.check_level(9);
    assert_eq!(a.stones, stones);
    assert_eq!(a.maps, maps);
    assert_eq!(a.gloves, vec!["precisao".to_string()]);
    assert_eq!(a.skins, vec!["dourada".to_string()]);
}

#[test]
fn check_level_keeps_earlier_unlocks_first() {
    let mut a = UnlockRegistry::default();
    a.check_level(5);
    assert_eq!(a.stones, vec![StoneKind::Smooth]);
    assert_eq!(a.maps, vec!["floresta".to_string()]);
    a.check_level(18);
    assert_eq!(a.stones, vec![StoneKind::Smooth, StoneKind::Irregular, StoneKind::Metallic]);
    assert_eq!(
        a.maps,
        vec!["floresta".to_string(), "deserto".to_string(), "montanha".to_string()]
    );
}
