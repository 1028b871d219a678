//! Score, combo and accuracy counters of a round.

use vstd::prelude::*;

verus! {

/// Points awarded per ricochet of the stone before it hits.
pub const RICOCHET_POINTS: u32 = 50;

/// Counters of a round. `session` counts this round and `total` everything, so
/// every credit goes to both.
#[derive(Debug, Clone)]
pub struct ScoreSystem {
    pub total: u32,
    pub session: u32,
    pub combo: u32,
    pub max_combo: u32,
    pub hits: u32,
    pub misses: u32,
    pub ricochet_bonus: u32,
    pub time_bonus: u32,
}

/// The counters agree with each other: the best combo is at least the current one
/// and the round's points never exceed the total.
pub open spec fn score_consistent(s: ScoreSystem) -> bool {
    s.combo <= s.max_combo && s.session <= s.total
}

impl Default for ScoreSystem {
    fn default() -> (s: Self)
        ensures
            s.total == 0 && s.session == 0 && s.combo == 0 && s.max_combo == 0,
            s.hits == 0 && s.misses == 0 && s.ricochet_bonus == 0 && s.time_bonus == 0,
            score_consistent(s),
    {
        ScoreSystem {
            total: 0,
            session: 0,
            combo: 0,
            max_combo: 0,
            hits: 0,
            misses: 0,
            ricochet_bonus: 0,
            time_bonus: 0,
        }
    }
}

impl ScoreSystem {
    /// A miss: counted, and the combo is broken.
    pub fn register_miss(&mut self)
        requires
            old(self).misses < u32::MAX,
        ensures
            final(self).misses == old(self).misses + 1,
            final(self).combo == 0,
            final(self).hits == old(self).hits,
            final(self).max_combo == old(self).max_combo,
            final(self).total == old(self).total,
            final(self).session == old(self).session,
            final(self).ricochet_bonus == old(self).ricochet_bonus,
            final(self).time_bonus == old(self).time_bonus,
            score_consistent(*old(self)) ==> score_consistent(*final(self)),
    {
        self.misses = self.misses + 1;
        self.combo = 0;
    }

    /// The counting part of a hit: one more hit, the combo grows by one and the
    /// best combo follows it. (The points of the hit are credited by `credit_hit`.)
    pub fn record_hit(&mut self)
        requires
            old(self).hits < u32::MAX,
            old(self).combo < u32::MAX,
        ensures
            final(self).hits == old(self).hits + 1,
            final(self).combo == old(self).combo + 1,
            final(self).max_combo == if old(self).max_combo >= old(self).combo + 1 {
                old(self).max_combo
            } else {
                (old(self).combo + 1) as u32
            },
            final(self).misses == old(self).misses,
            final(self).total == old(self).total,
            final(self).session == old(self).session,
            final(self).ricochet_bonus == old(self).ricochet_bonus,
            final(self).time_bonus == old(self).time_bonus,
            score_consistent(*old(self)) ==> score_consistent(*final(self)),
    {
        self.hits = self.hits + 1;
        self.combo = self.combo + 1;
        if self.combo > self.max_combo {
            self.max_combo = self.combo;
        }
    }

    /// Credits a hit worth `scaled` points after the distance, speed and combo
    /// multipliers, plus 50 points per ricochet; returns the points credited.
    pub fn credit_hit(&mut self, scaled: u32, ricochets: u32) -> (points: u32)
        requires
            ricochets * RICOCHET_POINTS + scaled <= u32::MAX,
            old(self).ricochet_bonus + ricochets * RICOCHET_POINTS <= u32::MAX,
            old(self).total + scaled + ricochets * RICOCHET_POINTS <= u32::MAX,
            old(self).session + scaled + ricochets * RICOCHET_POINTS <= u32::MAX,
        ensures
            points == scaled + ricochets * RICOCHET_POINTS,
            final(self).ricochet_bonus == old(self).ricochet_bonus + ricochets * RICOCHET_POINTS,
            final(self).session == old(self).session + points,
            final(self).total == old(self).total + points,
            final(self).hits == old(self).hits,
            final(self).misses == old(self).misses,
            final(self).combo == old(self).combo,
            final(self).max_combo == old(self).max_combo,
            final(self).time_bonus == old(self).time_bonus,
            score_consistent(*old(self)) ==> score_consistent(*final(self)),
    {
        let bounce_bonus = ricochets * RICOCHET_POINTS;
        let points = scaled + bounce_bonus;
        self.ricochet_bonus = self.ricochet_bonus + bounce_bonus;
        self.session = self.session + points;
        self.total = self.total + points;
        points
    }

    /// Credits the end-of-round time bonus.
    pub fn credit_time_bonus(&mut self, bonus: u32)
        requires
            old(self).time_bonus + bonus <= u32::MAX,
            old(self).total + bonus <= u32::MAX,
            old(self).session + bonus <= u32::MAX,
        ensures
            final(self).time_bonus == old(self).time_bonus + bonus,
            final(self).session == old(self).session + bonus,
            final(self).total == old(self).total + bonus,
            final(self).hits == old(self).hits,
            final(self).misses == old(self).misses,
            final(self).combo == old(self).combo,
            final(self).max_combo == old(self).max_combo,
            final(self).ricochet_bonus == old(self).ricochet_bonus,
            score_consistent(*old(self)) ==> score_consistent(*final(self)),
    {
        self.time_bonus = self.time_bonus + bonus;
        self.session = self.session + bonus;
        self.total = self.total + bonus;
    }
}

} // verus!
