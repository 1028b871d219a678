//! The decisions of one frame of a Rock 3D round: when the round ends, when a
//! charge starts and a stone is released, and how hits are credited. The caller
//! does the continuous work (physics, timers, camera, points multipliers) and
//! reports what happened.

use vstd::prelude::*;
use crate::kinds::ThrowPhase;
use crate::scoring::{ScoreSystem, RICOCHET_POINTS, score_consistent};
use crate::throw::ThrowState;
use crate::unlocks::{
    UnlockRegistry, UnlockView, level_unlocks, rewards_added_up_to, lemma_level_unlocks_thresholds,
    lemma_rewards_added_chain,
};
use crate::xp::{PlayerProfile, XpSystem, spec_xp_for_level};

verus! {

/// One target hit by the stone during a frame, as measured by the caller:
/// `scaled` is the hit's points after the distance, speed and combo multipliers
/// (the combo being the one this hit reaches), `ricochets` the bounces of the
/// stone so far, and `xp` the experience the hit is worth.
#[derive(Debug, Clone, Copy)]
pub struct HitCredit {
    pub scaled: u32,
    pub ricochets: u32,
    pub xp: u64,
}

/// What the caller does after the control part of a frame.
#[derive(Debug, Clone, Copy, PartialEq, Eq, Structural)]
pub struct ControlAction {
    /// The round was already over: nothing else happens this frame.
    pub skip: bool,
    /// The round ends now (time ran out): apply the time bonus, rate and save.
    pub end_round: bool,
    /// A charge began: set the charge back to zero.
    pub charge_started: bool,
    /// Advance the charge and the cooldown timer by this frame's time.
    pub advance_charge: bool,
    /// A stone was released: launch it with the current charge and aim.
    pub launch: bool,
}

/// What the caller does after the hits of a frame are credited.
#[derive(Debug, Clone, Copy, PartialEq, Eq, Structural)]
pub struct SettleAction {
    /// The stone came to rest: start the cooldown and bring the camera back.
    pub landed: bool,
    /// The round ends now (no throws or no live targets left).
    pub end_round: bool,
}

/// The state of a round that the frame decisions read and change.
pub struct RoundState {
    pub throws: ThrowState,
    pub scoring: ScoreSystem,
    pub profile: PlayerProfile,
    pub unlocks: UnlockRegistry,
    /// The charge button was held in the previous frame.
    pub charging: bool,
    pub round_over: bool,
}

/// Score, profile and unlocks as values.
pub struct Progress {
    pub scoring: ScoreSystem,
    pub profile: PlayerProfile,
    pub unlocks: UnlockView,
}

/// The profile after `XpSystem::award` of `amount`.
pub open spec fn awarded(p: PlayerProfile, amount: u64) -> PlayerProfile {
    let needed = spec_xp_for_level((p.level + 1) as u32);
    if p.xp + amount >= needed {
        PlayerProfile {
            xp: (p.xp + amount - needed) as u64,
            level: (p.level + 1) as u32,
            skill_points: (p.skill_points + 1) as u32,
            ..p
        }
    } else {
        PlayerProfile { xp: (p.xp + amount) as u64, ..p }
    }
}

/// Whether `award` levels the profile up.
pub open spec fn levels_up(p: PlayerProfile, amount: u64) -> bool {
    p.xp + amount >= spec_xp_for_level((p.level + 1) as u32)
}

/// No counter overflows while crediting `h`.
pub open spec fn hit_fits(g: Progress, h: HitCredit) -> bool {
    let s = g.scoring;
    let p = g.profile;
    let bonus = h.ricochets * RICOCHET_POINTS;
    &&& s.hits < u32::MAX && s.combo < u32::MAX
    &&& bonus + h.scaled <= u32::MAX
    &&& s.ricochet_bonus + bonus <= u32::MAX
    &&& s.total + h.scaled + bonus <= u32::MAX
    &&& s.session + h.scaled + bonus <= u32::MAX
    &&& p.xp + h.xp <= u64::MAX
    &&& p.level < u32::MAX
    &&& spec_xp_for_level((p.level + 1) as u32) <= u64::MAX
    &&& levels_up(p, h.xp) ==> p.skill_points < u32::MAX
    &&& p.total_hits < u64::MAX
}

/// Crediting one hit: one more hit and combo step (the best combo follows),
/// the points plus 50 per ricochet, the experience, the unlocks of a new level
/// when the experience levels the player up, one more total hit, and the best
/// combo of the profile raised to the current combo.
pub open spec fn after_hit(g: Progress, h: HitCredit) -> Progress {
    let s = g.scoring;
    let combo = (s.combo + 1) as u32;
    let points = (h.scaled + h.ricochets * RICOCHET_POINTS) as u32;
    let scoring = ScoreSystem {
        hits: (s.hits + 1) as u32,
        combo,
        max_combo: if s.max_combo >= combo { s.max_combo } else { combo },
        ricochet_bonus: (s.ricochet_bonus + h.ricochets * RICOCHET_POINTS) as u32,
        session: (s.session + points) as u32,
        total: (s.total + points) as u32,
        ..s
    };
    let p1 = awarded(g.profile, h.xp);
    let unlocks = if levels_up(g.profile, h.xp) {
        level_unlocks(g.unlocks, p1.level)
    } else {
        g.unlocks
    };
    let profile = PlayerProfile {
        total_hits: (p1.total_hits + 1) as u64,
        best_combo: if p1.best_combo >= combo { p1.best_combo } else { combo },
        ..p1
    };
    Progress { scoring, profile, unlocks }
}

/// Crediting the hits in order.
pub open spec fn after_hits(g: Progress, hs: Seq<HitCredit>) -> Progress
    decreases hs.len(),
{
    if hs.len() == 0 {
        g
    } else {
        after_hit(after_hits(g, hs.drop_last()), hs.last())
    }
}

/// No counter overflows while crediting the hits in order.
pub open spec fn hits_fit(g: Progress, hs: Seq<HitCredit>) -> bool
    decreases hs.len(),
{
    if hs.len() == 0 {
        true
    } else {
        hits_fit(g, hs.drop_last()) && hit_fits(after_hits(g, hs.drop_last()), hs.last())
    }
}

/// If all hits fit, every prefix fits.
pub proof fn lemma_hits_fit_prefix(g: Progress, hs: Seq<HitCredit>, i: int)
    requires
        hits_fit(g, hs),
        0 <= i <= hs.len(),
    ensures
        hits_fit(g, hs.take(i)),
    decreases hs.len(),
{
    if i < hs.len() {
        assert(hs.drop_last().take(i) =~= hs.take(i));
        lemma_hits_fit_prefix(g, hs.drop_last(), i);
    } else {
        assert(hs.take(i) =~= hs);
    }
}

/// Crediting hits adds exactly one to the hits of the round and of the profile
/// per hit, and never touches the misses.
pub proof fn lemma_after_hits_counts(g: Progress, hs: Seq<HitCredit>)
    requires
        hits_fit(g, hs),
    ensures
        after_hits(g, hs).profile.total_hits == g.profile.total_hits + hs.len(),
        after_hits(g, hs).scoring.hits == g.scoring.hits + hs.len(),
        after_hits(g, hs).scoring.misses == g.scoring.misses,
    decreases hs.len(),
{
    if hs.len() > 0 {
        lemma_after_hits_counts(g, hs.drop_last());
    }
}

/// Crediting hits keeps the score counters consistent (the best combo at least
/// the current one, the round's points within the total), and after at least
/// one hit the profile's best combo is at least the current combo.
pub proof fn lemma_after_hits_consistent(g: Progress, hs: Seq<HitCredit>)
    requires
        hits_fit(g, hs),
        score_consistent(g.scoring),
    ensures
        score_consistent(after_hits(g, hs).scoring),
        hs.len() > 0 ==> after_hits(g, hs).profile.best_combo >= after_hits(g, hs).scoring.combo,
    decreases hs.len(),
{
    if hs.len() > 0 {
        lemma_after_hits_consistent(g, hs.drop_last());
    }
}

/// Crediting hits never lowers the level; without a level gained nothing is
/// unlocked, and with one the unlocks are the earlier ones plus every reward due
/// at the level finally reached, and nothing else.
pub proof fn lemma_after_hits_unlocks(g: Progress, hs: Seq<HitCredit>)
    requires
        hits_fit(g, hs),
    ensures
        after_hits(g, hs).profile.level >= g.profile.level,
        after_hits(g, hs).profile.level == g.profile.level ==> after_hits(g, hs).unlocks == g.unlocks,
        after_hits(g, hs).profile.level > g.profile.level ==> rewards_added_up_to(
            g.unlocks,
            after_hits(g, hs).unlocks,
            after_hits(g, hs).profile.level as int,
        ),
    decreases hs.len(),
{
    if hs.len() > 0 {
        let x = after_hits(g, hs.drop_last());
        let h = hs.last();
        lemma_after_hits_unlocks(g, hs.drop_last());
        let y = after_hit(x, h);
        assert(y == after_hits(g, hs));
        if levels_up(x.profile, h.xp) {
            assert(y.profile.level == x.profile.level + 1);
            lemma_level_unlocks_thresholds(x.unlocks, y.profile.level);
            if x.profile.level > g.profile.level {
                lemma_rewards_added_chain(
                    g.unlocks,
                    x.unlocks,
                    y.unlocks,
                    x.profile.level as int,
                    y.profile.level as int,
                );
            }
        }
    }
}

impl RoundState {
    /// Score, profile and unlocks as values.
    pub open spec fn progress(&self) -> Progress {
        Progress { scoring: self.scoring, profile: self.profile, unlocks: self.unlocks@ }
    }

    /// The control part of a frame. A round already over is left as it is.
    /// Otherwise: the round ends when `time_up`; then, if the charge button is
    /// held and no stone is in flight, a charge begins (when the button was
    /// not held before) and the charge advances; if the button was just let go,
    /// the stone is released when charging with throws left; otherwise the
    /// charge advances. Where the charge advances and `cooldown_expired` says the
    /// cooldown timer runs out in it, the throw goes back to aiming. At most one
    /// throw is used per frame.
    pub fn control_step(
        &mut self,
        time_up: bool,
        input_charging: bool,
        rock_flying: bool,
        cooldown_expired: bool,
    ) -> (a: ControlAction)
        ensures
            old(self).round_over ==> a.skip && !a.end_round && !a.charge_started && !a.advance_charge
                && !a.launch
                && final(self).throws == old(self).throws && final(self).charging
                == old(self).charging && final(self).round_over,
            !old(self).round_over ==> !a.skip,
            !old(self).round_over ==> a.end_round == time_up && final(self).round_over == time_up,
            final(self).progress() == old(self).progress(),
            final(self).throws.max_throws == old(self).throws.max_throws,
            final(self).throws.selected_stone == old(self).throws.selected_stone,
            final(self).throws.throws_remaining + 1 >= old(self).throws.throws_remaining,
            final(self).throws.throws_remaining <= old(self).throws.throws_remaining,
            a.launch == (!old(self).round_over && !(input_charging && !rock_flying)
                && old(self).charging && old(self).throws.phase == ThrowPhase::Charging
                && old(self).throws.throws_remaining > 0),
            a.launch ==> final(self).throws.phase == ThrowPhase::Flying
                && final(self).throws.throws_remaining == old(self).throws.throws_remaining - 1,
            !a.launch ==> final(self).throws.throws_remaining == old(self).throws.throws_remaining,
            !old(self).round_over ==> final(self).charging == (input_charging && !rock_flying),
            a.charge_started == (!old(self).round_over && input_charging && !rock_flying
                && !old(self).charging && old(self).throws.throws_remaining > 0 && (
            old(self).throws.phase == ThrowPhase::Idle || old(self).throws.phase == ThrowPhase::Aiming)),
            a.advance_charge == (!old(self).round_over && ((input_charging && !rock_flying)
                || !old(self).charging)),
            !old(self).round_over && input_charging && !rock_flying && !old(self).charging && !cooldown_expired
                ==> final(self).throws.phase == if old(self).throws.throws_remaining > 0 && (
                old(self).throws.phase == ThrowPhase::Idle || old(self).throws.phase
                == ThrowPhase::Aiming) {
                ThrowPhase::Charging
            } else {
                old(self).throws.phase
            },
            a.advance_charge && cooldown_expired ==> final(self).throws.phase == ThrowPhase::Aiming,
            !a.launch && !(a.advance_charge && cooldown_expired) && !(input_charging && !rock_flying
                && !old(self).charging) ==> final(self).throws.phase == old(self).throws.phase,
    {
        if self.round_over {
            return ControlAction {
                skip: true,
                end_round: false,
                charge_started: false,
                advance_charge: false,
                launch: false,
            };
        }
        let end_round = time_up;
        if time_up {
            self.round_over = true;
        }
        let mut advance_charge = false;
        let mut launch = false;
        let mut charge_started = false;
        if input_charging && !rock_flying {
            if !self.charging {
                charge_started = self.throws.begin_charge();
                self.charging = true;
            }
            advance_charge = true;
        } else if self.charging {
            self.charging = false;
            launch = self.throws.release();
        } else {
            advance_charge = true;
        }
        if advance_charge && cooldown_expired {
            self.throws.on_cooldown_over();
        }
        ControlAction { skip: false, end_round, charge_started, advance_charge, launch }
    }

    /// The settling part of a frame: the hits are credited in order (see
    /// `after_hit`); then, if the stone is no longer in flight while the throw is
    /// flying, it has landed, and the round ends when no throws or no live
    /// targets remain.
    pub fn settle_step(&mut self, hits: &Vec<HitCredit>, rock_flying: bool, alive_targets: usize) -> (a:
        SettleAction)
        requires
            hits_fit(old(self).progress(), hits@),
        ensures
            final(self).progress() == after_hits(old(self).progress(), hits@),
            final(self).profile.total_hits == old(self).profile.total_hits + hits@.len(),
            final(self).scoring.hits == old(self).scoring.hits + hits@.len(),
            final(self).scoring.misses == old(self).scoring.misses,
            score_consistent(old(self).scoring) ==> score_consistent(final(self).scoring),
            final(self).profile.level >= old(self).profile.level,
            final(self).profile.level == old(self).profile.level ==> final(self).unlocks@ == old(
                self,
            ).unlocks@,
            final(self).profile.level > old(self).profile.level ==> rewards_added_up_to(
                old(self).unlocks@,
                final(self).unlocks@,
                final(self).profile.level as int,
            ),
            hits@.len() > 0 ==> final(self).profile.best_combo >= final(self).scoring.combo,
            final(self).charging == old(self).charging,
            a.landed == (!rock_flying && old(self).throws.phase == ThrowPhase::Flying),
            a.landed ==> final(self).throws == (ThrowState {
                phase: ThrowPhase::Cooldown,
                ..old(self).throws
            }),
            !a.landed ==> final(self).throws == old(self).throws,
            a.end_round == (a.landed && (old(self).throws.throws_remaining == 0 || alive_targets
                == 0)),
            final(self).round_over == (old(self).round_over || a.end_round),
    {
        let ghost g0 = self.progress();
        let mut i: usize = 0;
        while i < hits.len()
            invariant
                i <= hits@.len(),
                hits_fit(g0, hits@),
                self.progress() == after_hits(g0, hits@.take(i as int)),
                self.throws == old(self).throws,
                self.charging == old(self).charging,
                self.round_over == old(self).round_over,
            decreases hits.len() - i,
        {
            proof {
                lemma_hits_fit_prefix(g0, hits@, i + 1);
                assert(hits@.take(i + 1).drop_last() =~= hits@.take(i as int));
                assert(hits@.take(i + 1).last() == hits@[i as int]);
            }
            let h = hits[i];
            let ghost before = self.progress();
            self.scoring.record_hit();
            self.scoring.credit_hit(h.scaled, h.ricochets);
            let leveled = XpSystem::award(&mut self.profile, h.xp);
            if leveled {
                self.unlocks.check_level(self.profile.level);
            }
            self.profile.total_hits = self.profile.total_hits + 1;
            if self.scoring.combo > self.profile.best_combo {
                self.profile.best_combo = self.scoring.combo;
            }
            assert(self.progress() == after_hit(before, h));
            i = i + 1;
        }
        proof {
            assert(hits@.take(i as int) =~= hits@);
            lemma_after_hits_counts(g0, hits@);
            lemma_after_hits_unlocks(g0, hits@);
            if score_consistent(g0.scoring) {
                lemma_after_hits_consistent(g0, hits@);
            }
        }
        let mut landed = false;
        let mut end_round = false;
        if !rock_flying && self.throws.phase == ThrowPhase::Flying {
            landed = true;
            self.throws.on_rock_landed();
            if self.throws.throws_remaining == 0 || alive_targets == 0 {
                end_round = true;
                self.round_over = true;
            }
        }
        SettleAction { landed, end_round }
    }
}

/// Experience needed for `level`, or None when it does not fit in a `u64`.
fn checked_xp_for_level(level: u32) -> (r: Option<u64>)
    ensures
        match r {
            Some(v) => v == spec_xp_for_level(level),
            None => spec_xp_for_level(level) > u64::MAX,
        },
{
    let l = level as u128;
    assert(l * l <= 0x1_0000_0000u128 * 0x1_0000_0000u128) by (nonlinear_arith)
        requires
            l < 0x1_0000_0000u128,
    ;
    let v = l * l * 100 + l * 50;
    assert(v == spec_xp_for_level(level)) by (nonlinear_arith)
        requires
            l == level,
            v == l * l * 100 + l * 50,
    ;
    if v > 0xFFFF_FFFF_FFFF_FFFFu128 {
        None
    } else {
        Some(v as u64)
    }
}

impl RoundState {
    /// Whether crediting `hits` in order overflows no counter (the condition
    /// `settle_step` needs).
    pub fn credits_fit(&self, hits: &Vec<HitCredit>) -> (b: bool)
        ensures
            b == hits_fit(self.progress(), hits@),
    {
        let ghost g0 = self.progress();
        let mut s = ScoreSystem {
            total: self.scoring.total,
            session: self.scoring.session,
            combo: self.scoring.combo,
            max_combo: self.scoring.max_combo,
            hits: self.scoring.hits,
            misses: self.scoring.misses,
            ricochet_bonus: self.scoring.ricochet_bonus,
            time_bonus: self.scoring.time_bonus,
        };
        let mut p = PlayerProfile {
            xp: self.profile.xp,
            level: self.profile.level,
            skill_points: self.profile.skill_points,
            total_throws: self.profile.total_throws,
            total_hits: self.profile.total_hits,
            best_combo: self.profile.best_combo,
        };
        let mut i: usize = 0;
        while i < hits.len()
            invariant
                i <= hits@.len(),
                g0 == self.progress(),
                hits_fit(g0, hits@.take(i as int)),
                s == after_hits(g0, hits@.take(i as int)).scoring,
                p == after_hits(g0, hits@.take(i as int)).profile,
            decreases hits.len() - i,
        {
            proof {
                assert(hits@.take(i + 1).drop_last() =~= hits@.take(i as int));
                assert(hits@.take(i + 1).last() == hits@[i as int]);
            }
            let h = hits[i];
            let ghost g = after_hits(g0, hits@.take(i as int));
            if s.hits == u32::MAX || s.combo == u32::MAX {
                proof { lemma_fit_stops(g0, hits@, i as int); }
                return false;
            }
            let bonus64 = h.ricochets as u64 * RICOCHET_POINTS as u64;
            if bonus64 + h.scaled as u64 > 0xFFFF_FFFFu64 || s.ricochet_bonus as u64 + bonus64
                > 0xFFFF_FFFFu64 || s.total as u64 + h.scaled as u64 + bonus64 > 0xFFFF_FFFFu64
                || s.session as u64 + h.scaled as u64 + bonus64 > 0xFFFF_FFFFu64 {
                proof { lemma_fit_stops(g0, hits@, i as int); }
                return false;
            }
            if p.xp as u128 + h.xp as u128 > 0xFFFF_FFFF_FFFF_FFFFu128 || p.level == u32::MAX
                || p.total_hits == u64::MAX {
                proof { lemma_fit_stops(g0, hits@, i as int); }
                return false;
            }
            let needed = match checked_xp_for_level(p.level + 1) {
                Some(v) => v,
                None => {
                    proof { lemma_fit_stops(g0, hits@, i as int); }
                    return false;
                },
            };
            let leveled = p.xp + h.xp >= needed;
            if leveled && p.skill_points == u32::MAX {
                proof { lemma_fit_stops(g0, hits@, i as int); }
                return false;
            }
            assert(hit_fits(g, h));
            s.record_hit();
            s.credit_hit(h.scaled, h.ricochets);
            XpSystem::award(&mut p, h.xp);
            p.total_hits = p.total_hits + 1;
            if s.combo > p.best_combo {
                p.best_combo = s.combo;
            }
            proof {
                assert(hits_fit(g0, hits@.take(i + 1)));
            }
            i = i + 1;
        }
        proof {
            assert(hits@.take(i as int) =~= hits@);
        }
        true
    }
}

/// If the hits before `i` fit but hit `i` does not, the whole list does not fit.
proof fn lemma_fit_stops(g: Progress, hs: Seq<HitCredit>, i: int)
    requires
        0 <= i < hs.len(),
        !hit_fits(after_hits(g, hs.take(i)), hs[i]),
    ensures
        !hits_fit(g, hs),
{
    if hits_fit(g, hs) {
        lemma_hits_fit_prefix(g, hs, i + 1);
        assert(hs.take(i + 1).drop_last() =~= hs.take(i));
        assert(hs.take(i + 1).last() == hs[i]);
    }
}

} // verus!
