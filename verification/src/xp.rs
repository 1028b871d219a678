//! Experience points and levels.

use vstd::prelude::*;

verus! {

/// Persistent progress of a player.
#[derive(Debug, Clone)]
pub struct PlayerProfile {
    pub xp: u64,
    pub level: u32,
    pub skill_points: u32,
    pub total_throws: u64,
    pub total_hits: u64,
    pub best_combo: u32,
}

impl Default for PlayerProfile {
    /// A fresh profile at level 1 with nothing earned.
    fn default() -> (p: Self)
        ensures
            p.xp == 0 && p.level == 1 && p.skill_points == 0,
            p.total_throws == 0 && p.total_hits == 0 && p.best_combo == 0,
    {
        Self { xp: 0, level: 1, skill_points: 0, total_throws: 0, total_hits: 0, best_combo: 0 }
    }
}

/// Experience needed to reach `level`: 100·level² + 50·level.
pub open spec fn spec_xp_for_level(level: u32) -> int {
    100 * (level as int) * (level as int) + 50 * (level as int)
}

/// Level thresholds and the awarding of experience.
pub struct XpSystem;

impl XpSystem {
    /// Experience needed to reach `level` (100·level² + 50·level).
    pub fn xp_for_level(level: u32) -> (xp: u64)
        requires
            spec_xp_for_level(level) <= u64::MAX,
        ensures
            xp == spec_xp_for_level(level),
    {
        let l = level as u64;
        assert(l * l <= 100 * (l as int) * (l as int) + 50 * (l as int)) by (nonlinear_arith);
        assert(100 * (l * l) == 100 * (l as int) * (l as int)) by (nonlinear_arith);
        let sq = l * l;
        sq * 100 + l * 50
    }

    /// Adds `amount` to the profile. If the experience then reaches the threshold
    /// of the next level, that threshold is spent, the level goes up by one and a
    /// skill point is granted; the result says whether this happened. At most one
    /// level is gained per award.
    pub fn award(profile: &mut PlayerProfile, amount: u64) -> (leveled: bool)
        requires
            old(profile).xp + amount <= u64::MAX,
            old(profile).level < u32::MAX,
            spec_xp_for_level((old(profile).level + 1) as u32) <= u64::MAX,
            old(profile).xp + amount >= spec_xp_for_level((old(profile).level + 1) as u32)
                ==> old(profile).skill_points < u32::MAX,
        ensures
            leveled == (old(profile).xp + amount >= spec_xp_for_level(
                (old(profile).level + 1) as u32,
            )),
            leveled ==> final(profile).xp == old(profile).xp + amount - spec_xp_for_level(
                (old(profile).level + 1) as u32,
            ) && final(profile).level == old(profile).level + 1 && final(profile).skill_points
                == old(profile).skill_points + 1,
            !leveled ==> final(profile).xp == old(profile).xp + amount && final(profile).level
                == old(profile).level && final(profile).skill_points == old(profile).skill_points,
            final(profile).total_throws == old(profile).total_throws,
            final(profile).total_hits == old(profile).total_hits,
            final(profile).best_combo == old(profile).best_combo,
    {
        profile.xp = profile.xp + amount;
        let needed = Self::xp_for_level(profile.level + 1);
        if profile.xp >= needed {
            profile.xp = profile.xp - needed;
            profile.level = profile.level + 1;
            profile.skill_points = profile.skill_points + 1;
            return true;
        }
        false
    }
}

/// The threshold grows with the level: reaching a higher level never costs less.
pub proof fn lemma_xp_for_level_increasing(a: u32, b: u32)
    requires
        a <= b,
    ensures
        spec_xp_for_level(a) <= spec_xp_for_level(b),
{
    let x = a as int;
    let y = b as int;
    assert(100 * x * x + 50 * x <= 100 * y * y + 50 * y) by (nonlinear_arith)
        requires
            0 <= x <= y,
    ;
}

} // verus!
