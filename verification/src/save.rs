//! The saved state of a Rock 3D player.

use vstd::prelude::*;
use crate::modes::DailyChallenge;
use crate::procedural::spec_today_seed;
use crate::scoring::ScoreSystem;
use crate::skills::SkillTree;
use crate::unlocks::UnlockRegistry;
use crate::xp::PlayerProfile;

verus! {

/// Format version written into saves.
pub const SAVE_VERSION: u32 = 1;

/// Everything persisted between sessions.
#[derive(Debug, Clone)]
pub struct Rock3DSave {
    pub version: u32,
    pub profile: PlayerProfile,
    pub skills: SkillTree,
    pub unlocks: UnlockRegistry,
    pub best_scores: ScoreSystem,
    pub daily: DailyChallenge,
}

impl Default for Rock3DSave {
    /// Version 1 with every part at its default.
    fn default() -> (s: Self)
        ensures
            s.version == SAVE_VERSION,
            s.profile.xp == 0 && s.profile.level == 1 && s.profile.skill_points == 0,
            s.profile.total_throws == 0 && s.profile.total_hits == 0 && s.profile.best_combo == 0,
            s.skills.unlocked@.len() == 0,
            s.unlocks@.stones.len() == 0 && s.unlocks@.maps.len() == 0,
            s.unlocks@.gloves.len() == 0 && s.unlocks@.skins.len() == 0,
            s.best_scores.total == 0 && s.best_scores.session == 0 && s.best_scores.combo == 0,
            s.best_scores.max_combo == 0 && s.best_scores.hits == 0 && s.best_scores.misses == 0,
            s.best_scores.ricochet_bonus == 0 && s.best_scores.time_bonus == 0,
            s.daily.seed == spec_today_seed() && s.daily.best_score == 0,
            s.daily.attempts_today == 0 && !s.daily.completed,
    {
        Rock3DSave {
            version: SAVE_VERSION,
            profile: PlayerProfile::default(),
            skills: SkillTree::default(),
            unlocks: UnlockRegistry::default(),
            best_scores: ScoreSystem::default(),
            daily: DailyChallenge::default(),
        }
    }
}

} // verus!
