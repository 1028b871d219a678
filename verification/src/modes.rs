//! Game modes, local turn-based multiplayer and the per-mode counters that hold
//! no physical quantities.

use vstd::prelude::*;
use crate::procedural::{DailySeed, spec_today_seed};
use crate::targets::TargetKind;

verus! {

broadcast use vstd::string::group_string_axioms;

/// The game modes.
#[derive(Debug, Clone, Copy, PartialEq, Eq, Structural)]
pub enum GameMode {
    Arcade,
    Precision,
    Distance,
    Survival,
    Daily,
    LocalMultiplayer,
}

/// Display name of a mode.
pub open spec fn spec_mode_name(mode: GameMode) -> Seq<char> {
    match mode {
        GameMode::Arcade => "Arcade"@,
        GameMode::Precision => "Precisão"@,
        GameMode::Distance => "Distância"@,
        GameMode::Survival => "Sobrevivência"@,
        GameMode::Daily => "Desafio Diário"@,
        GameMode::LocalMultiplayer => "Multiplayer Local"@,
    }
}

/// Throws allowed per round in a mode (survival: unlimited, `u32::MAX`).
pub open spec fn spec_max_throws(mode: GameMode) -> u32 {
    match mode {
        GameMode::Arcade => 10,
        GameMode::Precision => 15,
        GameMode::Distance => 20,
        GameMode::Survival => u32::MAX,
        GameMode::Daily => 12,
        GameMode::LocalMultiplayer => 8,
    }
}

impl GameMode {
    /// Name shown in menus and the HUD.
    pub fn display_name(self) -> (name: &'static str)
        ensures
            name@ == spec_mode_name(self),
    {
        match self {
            GameMode::Arcade => "Arcade",
            GameMode::Precision => "Precisão",
            GameMode::Distance => "Distância",
            GameMode::Survival => "Sobrevivência",
            GameMode::Daily => "Desafio Diário",
            GameMode::LocalMultiplayer => "Multiplayer Local",
        }
    }

    /// Throws allowed per round.
    pub fn max_throws(self) -> (n: u32)
        ensures
            n == spec_max_throws(self),
    {
        match self {
            GameMode::Arcade => 10,
            GameMode::Precision => 15,
            GameMode::Distance => 20,
            GameMode::Survival => u32::MAX,
            GameMode::Daily => 12,
            GameMode::LocalMultiplayer => 8,
        }
    }
}

/// Throws each player gets again when a new round starts.
pub const THROWS_PER_NEW_ROUND: u32 = 8;

/// One player of a local match.
#[derive(Debug)]
pub struct LocalPlayer {
    pub name: String,
    pub score: u32,
    pub throws_left: u32,
}

impl Clone for LocalPlayer {
    fn clone(&self) -> (c: Self)
        ensures
            c == *self,
    {
        LocalPlayer { name: self.name.clone(), score: self.score, throws_left: self.throws_left }
    }
}

/// Players taking turns on one machine.
#[derive(Debug)]
pub struct LocalMultiplayer {
    pub players: Vec<LocalPlayer>,
    pub current_player: usize,
    pub round: u32,
}

/// `k` is the last index holding the highest score (the one `max_by_key` picks).
pub open spec fn is_last_best(players: Seq<LocalPlayer>, k: int) -> bool {
    &&& 0 <= k < players.len()
    &&& forall|j: int| 0 <= j < players.len() ==> #[trigger] players[j].score <= players[k].score
    &&& forall|j: int| k < j < players.len() ==> #[trigger] players[j].score < players[k].score
}

impl LocalMultiplayer {
    /// A match with one player per name, in order, each with `throws_per_round`
    /// throws and no score; the first player starts round 1.
    pub fn new(names: &[&str], throws_per_round: u32) -> (m: Self)
        ensures
            m.players@.len() == names@.len(),
            forall|i: int|
                0 <= i < names@.len() ==> {
                    &&& (#[trigger] m.players@[i]).name@ == names@[i]@
                    &&& m.players@[i].score == 0
                    &&& m.players@[i].throws_left == throws_per_round
                },
            m.current_player == 0,
            m.round == 1,
    {
        let mut players: Vec<LocalPlayer> = Vec::new();
        let mut i: usize = 0;
        while i < names.len()
            invariant
                i <= names@.len(),
                players@.len() == i,
                forall|j: int|
                    0 <= j < i ==> {
                        &&& (#[trigger] players@[j]).name@ == names@[j]@
                        &&& players@[j].score == 0
                        &&& players@[j].throws_left == throws_per_round
                    },
            decreases names.len() - i,
        {
            let name = names[i].to_string();
            players.push(LocalPlayer { name, score: 0, throws_left: throws_per_round });
            i = i + 1;
        }
        LocalMultiplayer { players, current_player: 0, round: 1 }
    }

    /// Passes the turn to the next player. When it wraps to the first player a
    /// new round starts and every player gets 8 throws again.
    pub fn next_turn(&mut self)
        requires
            old(self).players@.len() > 0,
            old(self).current_player < usize::MAX,
            (old(self).current_player + 1) % (old(self).players@.len() as int) == 0
                ==> old(self).round < u32::MAX,
        ensures
            final(self).current_player == (old(self).current_player + 1) % (
            old(self).players@.len() as int),
            final(self).players@.len() == old(self).players@.len(),
            final(self).current_player == 0 ==> {
                &&& final(self).round == old(self).round + 1
                &&& forall|i: int|
                    0 <= i < final(self).players@.len() ==> {
                        &&& (#[trigger] final(self).players@[i]).throws_left == THROWS_PER_NEW_ROUND
                        &&& final(self).players@[i].name == old(self).players@[i].name
                        &&& final(self).players@[i].score == old(self).players@[i].score
                    }
            },
            final(self).current_player != 0 ==> final(self).round == old(self).round
                && final(self).players@ == old(self).players@,
    {
        let ghost old_round = self.round;
        self.current_player = (self.current_player + 1) % self.players.len();
        if self.current_player == 0 {
            self.round = self.round + 1;
            let ghost before = self.players@;
            let mut i: usize = 0;
            while i < self.players.len()
                invariant
                    i <= self.players@.len(),
                    self.current_player == 0,
                    self.round == old_round + 1,
                    self.players@.len() == before.len(),
                    forall|j: int|
                        0 <= j < self.players@.len() ==> {
                            &&& (#[trigger] self.players@[j]).name == before[j].name
                            &&& self.players@[j].score == before[j].score
                            &&& (j < i ==> self.players@[j].throws_left == THROWS_PER_NEW_ROUND)
                            &&& (j >= i ==> self.players@[j].throws_left == before[j].throws_left)
                        },
                decreases self.players.len() - i,
            {
                self.players[i].throws_left = THROWS_PER_NEW_ROUND;
                i = i + 1;
            }
        }
    }

    /// The leader once the first round is over: the player with the highest
    /// score, the last of them on a tie. None during round 1 or without players.
    pub fn winner(&self) -> (w: Option<&LocalPlayer>)
        ensures
            (self.round <= 1 || self.players@.len() == 0) ==> w is None,
            (self.round > 1 && self.players@.len() > 0) ==> w is Some && exists|k: int|
                is_last_best(self.players@, k) && *w.unwrap() == self.players@[k],
    {
        if self.round <= 1 {
            return None;
        }
        if self.players.len() == 0 {
            return None;
        }
        let mut best: usize = 0;
        let mut i: usize = 1;
        while i < self.players.len()
            invariant
                1 <= i <= self.players@.len(),
                best < i,
                forall|j: int| 0 <= j < i ==> #[trigger] self.players@[j].score <= self.players@[best as int].score,
                forall|j: int| best < j < i ==> #[trigger] self.players@[j].score < self.players@[best as int].score,
            decreases self.players.len() - i,
        {
            if self.players[i].score >= self.players[best].score {
                best = i;
            }
            i = i + 1;
        }
        assert(is_last_best(self.players@, best as int));
        Some(&self.players[best])
    }
}

/// Index of the player whose turn it is after `k` calls of `next_turn`,
/// starting from player `start` of `len` players.
pub open spec fn turn_after(start: int, len: int, k: nat) -> int
    decreases k,
{
    if k == 0 {
        start
    } else {
        (turn_after(start, len, (k - 1) as nat) + 1) % len
    }
}

/// Number of rounds started during those `k` calls (one per wrap to player 0).
pub open spec fn rounds_started(start: int, len: int, k: nat) -> int
    decreases k,
{
    if k == 0 {
        0
    } else {
        rounds_started(start, len, (k - 1) as nat) + if turn_after(start, len, k) == 0 {
            1int
        } else {
            0
        }
    }
}

/// Starting a round with the first of `len` players, each of the next `len`
/// turns goes to the next player in order, and exactly one new round starts,
/// with the last of them, when the turn is back at the first player.
pub proof fn lemma_full_round(len: int, k: nat)
    requires
        len > 0,
        k <= len,
    ensures
        turn_after(0, len, k) == (k as int) % len,
        rounds_started(0, len, k) == if k == len {
            1int
        } else {
            0
        },
    decreases k,
{
    if k > 0 {
        lemma_full_round(len, (k - 1) as nat);
        assert((((k - 1) as int) % len + 1) % len == (k as int) % len) by {
            vstd::arithmetic::div_mod::lemma_small_mod((k - 1) as nat, len as nat);
        }
        if k < len {
            vstd::arithmetic::div_mod::lemma_small_mod(k, len as nat);
        } else {
            assert((k as int) % len == 0) by {
                vstd::arithmetic::div_mod::lemma_mod_self_0(len);
            }
        }
    }
}

/// Kind of the `i`-th target of a survival wave: every fourth (from the first)
/// is a drone, otherwise every third a bottle, the rest cans.
pub open spec fn spec_wave_kind(i: int) -> TargetKind {
    if i % 4 == 0 {
        TargetKind::Drone
    } else if i % 3 == 0 {
        TargetKind::Bottle
    } else {
        TargetKind::Can
    }
}

/// Survival waves: each wave has one more target than the last.
pub struct SurvivalWaves {
    pub wave: u32,
    pub targets_per_wave: u32,
}

impl Default for SurvivalWaves {
    /// First wave, five targets plus the wave number.
    fn default() -> (s: Self)
        ensures
            s.wave == 1 && s.targets_per_wave == 5,
    {
        SurvivalWaves { wave: 1, targets_per_wave: 5 }
    }
}

impl SurvivalWaves {
    /// The kinds of the targets of the current wave, in spawn order
    /// (`targets_per_wave + wave` of them), and advances to the next wave. The
    /// caller places them on a ring.
    pub fn next_wave(&mut self) -> (kinds: Vec<TargetKind>)
        requires
            old(self).targets_per_wave + old(self).wave <= u32::MAX,
            old(self).wave < u32::MAX,
        ensures
            kinds@.len() == old(self).targets_per_wave + old(self).wave,
            forall|i: int| 0 <= i < kinds@.len() ==> #[trigger] kinds@[i] == spec_wave_kind(i),
            final(self).wave == old(self).wave + 1,
            final(self).targets_per_wave == old(self).targets_per_wave,
    {
        let count = self.targets_per_wave + self.wave;
        let mut kinds: Vec<TargetKind> = Vec::new();
        let mut i: u32 = 0;
        while i < count
            invariant
                i <= count,
                kinds@.len() == i,
                forall|j: int| 0 <= j < i ==> #[trigger] kinds@[j] == spec_wave_kind(j),
            decreases count - i,
        {
            let kind = if i % 4 == 0 {
                TargetKind::Drone
            } else if i % 3 == 0 {
                TargetKind::Bottle
            } else {
                TargetKind::Can
            };
            kinds.push(kind);
            i = i + 1;
        }
        self.wave = self.wave + 1;
        kinds
    }
}

/// Progress in precision mode.
pub struct PrecisionMode {
    pub hits_required: u32,
    pub hits: u32,
}

impl Default for PrecisionMode {
    /// Ten hits are required; none made yet.
    fn default() -> (m: Self)
        ensures
            m.hits_required == 10 && m.hits == 0,
    {
        PrecisionMode { hits_required: 10, hits: 0 }
    }
}

/// Record of the daily challenge.
#[derive(Debug, Clone, Copy)]
pub struct DailyChallenge {
    pub seed: u64,
    pub best_score: u32,
    pub attempts_today: u32,
    pub completed: bool,
}

impl Default for DailyChallenge {
    /// Today's seed, nothing played yet.
    fn default() -> (d: Self)
        ensures
            d.seed == spec_today_seed(),
            d.best_score == 0 && d.attempts_today == 0 && !d.completed,
    {
        DailyChallenge {
            seed: DailySeed::today_seed(),
            best_score: 0,
            attempts_today: 0,
            completed: false,
        }
    }
}

} // verus!
