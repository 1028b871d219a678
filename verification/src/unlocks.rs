//! Rewards unlocked as the player levels up.

use vstd::prelude::*;
use crate::stones::{StoneKind, spec_unlock_level};
use crate::text::string_views;

verus! {

broadcast use vstd::string::group_string_axioms;

/// `s` with `x` appended unless it is already there.
pub open spec fn add_unique<T>(s: Seq<T>, x: T) -> Seq<T> {
    if s.contains(x) {
        s
    } else {
        s.push(x)
    }
}

/// Stones unlocked by reaching `level`, applied to `s` in threshold order.
pub open spec fn level_stones(s: Seq<StoneKind>, level: u32) -> Seq<StoneKind> {
    let s1 = if level >= 3 { add_unique(s, StoneKind::Smooth) } else { s };
    let s2 = if level >= 10 { add_unique(s1, StoneKind::Irregular) } else { s1 };
    let s3 = if level >= 15 { add_unique(s2, StoneKind::Metallic) } else { s2 };
    if level >= 25 { add_unique(s3, StoneKind::Explosive) } else { s3 }
}

/// Maps unlocked by reaching `level`, applied to `m` in threshold order.
pub open spec fn level_maps(m: Seq<Seq<char>>, level: u32) -> Seq<Seq<char>> {
    let m1 = if level >= 5 { add_unique(m, "floresta"@) } else { m };
    let m2 = if level >= 12 { add_unique(m1, "deserto"@) } else { m1 };
    let m3 = if level >= 18 { add_unique(m2, "montanha"@) } else { m2 };
    let m4 = if level >= 22 { add_unique(m3, "cidade"@) } else { m3 };
    if level >= 30 { add_unique(m4, "futurista"@) } else { m4 }
}

/// Gloves unlocked by reaching `level`.
pub open spec fn level_gloves(g: Seq<Seq<char>>, level: u32) -> Seq<Seq<char>> {
    if level >= 8 { add_unique(g, "precisao"@) } else { g }
}

/// Skins unlocked by reaching `level`.
pub open spec fn level_skins(k: Seq<Seq<char>>, level: u32) -> Seq<Seq<char>> {
    if level >= 20 { add_unique(k, "dourada"@) } else { k }
}

/// The contents of an [`UnlockRegistry`], names taken as character sequences.
pub struct UnlockView {
    pub stones: Seq<StoneKind>,
    pub maps: Seq<Seq<char>>,
    pub gloves: Seq<Seq<char>>,
    pub skins: Seq<Seq<char>>,
}

/// Everything unlocked by reaching `level`, added to `r`.
pub open spec fn level_unlocks(r: UnlockView, level: u32) -> UnlockView {
    UnlockView {
        stones: level_stones(r.stones, level),
        maps: level_maps(r.maps, level),
        gloves: level_gloves(r.gloves, level),
        skins: level_skins(r.skins, level),
    }
}

/// Whether a stone may be selected given what is unlocked.
pub open spec fn stone_available(r: UnlockView, kind: StoneKind, debug_all: bool) -> bool {
    debug_all || spec_unlock_level(kind) == 0 || r.stones.contains(kind)
}

/// No element occurs twice.
pub open spec fn distinct<T>(s: Seq<T>) -> bool {
    forall|i: int, j: int| 0 <= i < j < s.len() ==> s[i] != s[j]
}

/// Stones, maps, gloves and skins the player has unlocked.
#[derive(Debug, Clone)]
pub struct UnlockRegistry {
    pub stones: Vec<StoneKind>,
    pub maps: Vec<String>,
    pub gloves: Vec<String>,
    pub skins: Vec<String>,
}

impl View for UnlockRegistry {
    type V = UnlockView;

    open spec fn view(&self) -> UnlockView {
        UnlockView {
            stones: self.stones@,
            maps: string_views(self.maps@),
            gloves: string_views(self.gloves@),
            skins: string_views(self.skins@),
        }
    }
}

impl Default for UnlockRegistry {
    fn default() -> (r: Self)
        ensures
            r@.stones == Seq::<StoneKind>::empty(),
            r@.maps == Seq::<Seq<char>>::empty(),
            r@.gloves == Seq::<Seq<char>>::empty(),
            r@.skins == Seq::<Seq<char>>::empty(),
    {
        let r = UnlockRegistry {
            stones: Vec::new(),
            maps: Vec::new(),
            gloves: Vec::new(),
            skins: Vec::new(),
        };
        assert(r@.maps =~= Seq::<Seq<char>>::empty());
        assert(r@.gloves =~= Seq::<Seq<char>>::empty());
        assert(r@.skins =~= Seq::<Seq<char>>::empty());
        r
    }
}

fn contains_stone(v: &Vec<StoneKind>, kind: StoneKind) -> (b: bool)
    ensures
        b == v@.contains(kind),
{
    let mut i: usize = 0;
    while i < v.len()
        invariant
            i <= v@.len(),
            forall|j: int| 0 <= j < i ==> v@[j] != kind,
        decreases v.len() - i,
    {
        if v[i] == kind {
            return true;
        }
        i = i + 1;
    }
    false
}

fn contains_name(v: &Vec<String>, name: &String) -> (b: bool)
    ensures
        b == string_views(v@).contains(name@),
{
    let mut i: usize = 0;
    while i < v.len()
        invariant
            i <= v@.len(),
            forall|j: int| 0 <= j < i ==> v@[j]@ != name@,
        decreases v.len() - i,
    {
        if v[i] == *name {
            assert(string_views(v@)[i as int] == name@);
            return true;
        }
        i = i + 1;
    }
    proof {
        if string_views(v@).contains(name@) {
            let k = choose|k: int| 0 <= k < string_views(v@).len() && string_views(v@)[k] == name@;
            assert(v@[k]@ == name@);
        }
    }
    false
}

fn add_name(v: &mut Vec<String>, name: &str)
    ensures
        string_views(final(v)@) == add_unique(string_views(old(v)@), name@),
{
    let s = name.to_string();
    if !contains_name(v, &s) {
        v.push(s);
        assert(string_views(v@) =~= string_views(old(v)@).push(name@));
    }
}

impl UnlockRegistry {
    /// Unlocks everything whose level threshold `level` has reached: stones at
    /// levels 3, 10, 15 and 25, maps at 5, 12, 18, 22 and 30, a glove at 8 and a
    /// skin at 20. Nothing is added twice.
    pub fn check_level(&mut self, level: u32)
        ensures
            final(self)@ == level_unlocks(old(self)@, level),
            rewards_added_up_to(old(self)@, final(self)@, level as int),
    {
        proof {
            lemma_level_unlocks_thresholds(self@, level);
        }
        if level >= 3 {
            self.unlock_stone(StoneKind::Smooth);
        }
        if level >= 5 {
            self.unlock_map("floresta");
        }
        if level >= 8 {
            self.unlock_glove("precisao");
        }
        if level >= 10 {
            self.unlock_stone(StoneKind::Irregular);
        }
        if level >= 12 {
            self.unlock_map("deserto");
        }
        if level >= 15 {
            self.unlock_stone(StoneKind::Metallic);
        }
        if level >= 18 {
            self.unlock_map("montanha");
        }
        if level >= 20 {
            self.unlock_skin("dourada");
        }
        if level >= 22 {
            self.unlock_map("cidade");
        }
        if level >= 25 {
            self.unlock_stone(StoneKind::Explosive);
        }
        if level >= 30 {
            self.unlock_map("futurista");
        }
    }

    fn unlock_stone(&mut self, kind: StoneKind)
        ensures
            final(self)@ == (UnlockView { stones: add_unique(old(self)@.stones, kind), ..old(self)@ }),
    {
        if !contains_stone(&self.stones, kind) {
            self.stones.push(kind);
        }
    }

    fn unlock_map(&mut self, name: &str)
        ensures
            final(self)@ == (UnlockView { maps: add_unique(old(self)@.maps, name@), ..old(self)@ }),
    {
        add_name(&mut self.maps, name);
    }

    fn unlock_glove(&mut self, name: &str)
        ensures
            final(self)@ == (UnlockView { gloves: add_unique(old(self)@.gloves, name@), ..old(self)@ }),
    {
        add_name(&mut self.gloves, name);
    }

    fn unlock_skin(&mut self, name: &str)
        ensures
            final(self)@ == (UnlockView { skins: add_unique(old(self)@.skins, name@), ..old(self)@ }),
    {
        add_name(&mut self.skins, name);
    }

    /// A stone can be selected in debug mode, if it needs no level, or once unlocked.
    pub fn is_stone_available(&self, kind: StoneKind, debug_all: bool) -> (b: bool)
        ensures
            b == stone_available(self@, kind, debug_all),
    {
        if debug_all {
            return true;
        }
        kind.unlock_level() == 0 || contains_stone(&self.stones, kind)
    }
}

/// What `add_unique` keeps and adds.
pub proof fn lemma_add_unique<T>(s: Seq<T>, x: T)
    ensures
        add_unique(s, x).contains(x),
        forall|y: T| s.contains(y) ==> #[trigger] add_unique(s, x).contains(y),
        s.contains(x) ==> add_unique(s, x) == s,
        distinct(s) ==> distinct(add_unique(s, x)),
{
    if !s.contains(x) {
        assert(s.push(x)[s.len() as int] == x);
        assert forall|y: T| s.contains(y) implies #[trigger] add_unique(s, x).contains(y) by {
            let k = choose|k: int| 0 <= k < s.len() && s[k] == y;
            assert(s.push(x)[k] == y);
        }
        if distinct(s) {
            assert forall|i: int, j: int| 0 <= i < j < s.push(x).len() implies s.push(x)[i]
                != s.push(x)[j] by {
                if j == s.len() {
                    assert(s.contains(s[i]));
                }
            }
        }
    }
}

/// Checking a lower level and then a higher one unlocks exactly what checking the
/// higher level alone unlocks, in the same order (in particular, checking a level
/// twice changes nothing the second time).
pub proof fn lemma_check_level_monotone(r: UnlockView, a: u32, b: u32)
    requires
        a <= b,
    ensures
        level_unlocks(level_unlocks(r, a), b) == level_unlocks(r, b),
{
    lemma_stones_monotone(r.stones, a, b);
    lemma_maps_monotone(r.maps, a, b);
    let g = r.gloves;
    if a >= 8 {
        lemma_add_unique(g, "precisao"@);
    }
    let k = r.skins;
    if a >= 20 {
        lemma_add_unique(k, "dourada"@);
    }
}

proof fn lemma_stones_monotone(s: Seq<StoneKind>, a: u32, b: u32)
    requires
        a <= b,
    ensures
        level_stones(level_stones(s, a), b) == level_stones(s, b),
{
    let s1 = add_unique(s, StoneKind::Smooth);
    let s2 = add_unique(s1, StoneKind::Irregular);
    let s3 = add_unique(s2, StoneKind::Metallic);
    let s4 = add_unique(s3, StoneKind::Explosive);
    lemma_add_unique(s, StoneKind::Smooth);
    lemma_add_unique(s1, StoneKind::Irregular);
    lemma_add_unique(s2, StoneKind::Metallic);
    lemma_add_unique(s3, StoneKind::Explosive);
    lemma_add_unique(s1, StoneKind::Smooth);
    lemma_add_unique(s2, StoneKind::Smooth);
    lemma_add_unique(s2, StoneKind::Irregular);
    lemma_add_unique(s3, StoneKind::Smooth);
    lemma_add_unique(s3, StoneKind::Irregular);
    lemma_add_unique(s3, StoneKind::Metallic);
    lemma_add_unique(s4, StoneKind::Smooth);
    lemma_add_unique(s4, StoneKind::Irregular);
    lemma_add_unique(s4, StoneKind::Metallic);
    lemma_add_unique(s4, StoneKind::Explosive);
}

proof fn lemma_maps_monotone(m: Seq<Seq<char>>, a: u32, b: u32)
    requires
        a <= b,
    ensures
        level_maps(level_maps(m, a), b) == level_maps(m, b),
{
    let m1 = add_unique(m, "floresta"@);
    let m2 = add_unique(m1, "deserto"@);
    let m3 = add_unique(m2, "montanha"@);
    let m4 = add_unique(m3, "cidade"@);
    let m5 = add_unique(m4, "futurista"@);
    lemma_add_unique(m, "floresta"@);
    lemma_add_unique(m1, "deserto"@);
    lemma_add_unique(m2, "montanha"@);
    lemma_add_unique(m3, "cidade"@);
    lemma_add_unique(m4, "futurista"@);
    lemma_add_unique(m1, "floresta"@);
    lemma_add_unique(m2, "floresta"@);
    lemma_add_unique(m2, "deserto"@);
    lemma_add_unique(m3, "floresta"@);
    lemma_add_unique(m3, "deserto"@);
    lemma_add_unique(m3, "montanha"@);
    lemma_add_unique(m4, "floresta"@);
    lemma_add_unique(m4, "deserto"@);
    lemma_add_unique(m4, "montanha"@);
    lemma_add_unique(m4, "cidade"@);
    lemma_add_unique(m5, "floresta"@);
    lemma_add_unique(m5, "deserto"@);
    lemma_add_unique(m5, "montanha"@);
    lemma_add_unique(m5, "cidade"@);
    lemma_add_unique(m5, "futurista"@);
}

/// After checking a level, every stone whose unlock level is at most that level
/// can be selected.
pub proof fn lemma_check_level_unlocks_stones(r: UnlockView, level: u32, kind: StoneKind)
    requires
        spec_unlock_level(kind) <= level,
    ensures
        stone_available(level_unlocks(r, level), kind, false),
{
    let s = r.stones;
    let s1 = if level >= 3 { add_unique(s, StoneKind::Smooth) } else { s };
    let s2 = if level >= 10 { add_unique(s1, StoneKind::Irregular) } else { s1 };
    let s3 = if level >= 15 { add_unique(s2, StoneKind::Metallic) } else { s2 };
    lemma_add_unique(s, StoneKind::Smooth);
    lemma_add_unique(s1, StoneKind::Irregular);
    lemma_add_unique(s2, StoneKind::Metallic);
    lemma_add_unique(s3, StoneKind::Explosive);
}

/// Checking a level never introduces a duplicate.
pub proof fn lemma_check_level_distinct(r: UnlockView, level: u32)
    requires
        distinct(r.stones),
        distinct(r.maps),
        distinct(r.gloves),
        distinct(r.skins),
    ensures
        distinct(level_unlocks(r, level).stones),
        distinct(level_unlocks(r, level).maps),
        distinct(level_unlocks(r, level).gloves),
        distinct(level_unlocks(r, level).skins),
{
    let s = r.stones;
    let s1 = if level >= 3 { add_unique(s, StoneKind::Smooth) } else { s };
    let s2 = if level >= 10 { add_unique(s1, StoneKind::Irregular) } else { s1 };
    let s3 = if level >= 15 { add_unique(s2, StoneKind::Metallic) } else { s2 };
    lemma_add_unique(s, StoneKind::Smooth);
    lemma_add_unique(s1, StoneKind::Irregular);
    lemma_add_unique(s2, StoneKind::Metallic);
    lemma_add_unique(s3, StoneKind::Explosive);
    let m = r.maps;
    let m1 = if level >= 5 { add_unique(m, "floresta"@) } else { m };
    let m2 = if level >= 12 { add_unique(m1, "deserto"@) } else { m1 };
    let m3 = if level >= 18 { add_unique(m2, "montanha"@) } else { m2 };
    let m4 = if level >= 22 { add_unique(m3, "cidade"@) } else { m3 };
    lemma_add_unique(m, "floresta"@);
    lemma_add_unique(m1, "deserto"@);
    lemma_add_unique(m2, "montanha"@);
    lemma_add_unique(m3, "cidade"@);
    lemma_add_unique(m4, "futurista"@);
    lemma_add_unique(r.gloves, "precisao"@);
    lemma_add_unique(r.skins, "dourada"@);
}

/// Checking a level lower than one already checked changes nothing.
pub proof fn lemma_check_lower_level_after_higher(r: UnlockView, a: u32, b: u32)
    requires
        a <= b,
    ensures
        level_unlocks(level_unlocks(r, b), a) == level_unlocks(r, b),
{
    let s = r.stones;
    let s1 = if b >= 3 { add_unique(s, StoneKind::Smooth) } else { s };
    let s2 = if b >= 10 { add_unique(s1, StoneKind::Irregular) } else { s1 };
    let s3 = if b >= 15 { add_unique(s2, StoneKind::Metallic) } else { s2 };
    let s4 = if b >= 25 { add_unique(s3, StoneKind::Explosive) } else { s3 };
    lemma_add_unique(s, StoneKind::Smooth);
    lemma_add_unique(s1, StoneKind::Irregular);
    lemma_add_unique(s2, StoneKind::Metallic);
    lemma_add_unique(s3, StoneKind::Explosive);
    lemma_add_unique(s4, StoneKind::Smooth);
    lemma_add_unique(s4, StoneKind::Irregular);
    lemma_add_unique(s4, StoneKind::Metallic);
    lemma_add_unique(s4, StoneKind::Explosive);
    let m = r.maps;
    let m1 = if b >= 5 { add_unique(m, "floresta"@) } else { m };
    let m2 = if b >= 12 { add_unique(m1, "deserto"@) } else { m1 };
    let m3 = if b >= 18 { add_unique(m2, "montanha"@) } else { m2 };
    let m4 = if b >= 22 { add_unique(m3, "cidade"@) } else { m3 };
    let m5 = if b >= 30 { add_unique(m4, "futurista"@) } else { m4 };
    lemma_add_unique(m, "floresta"@);
    lemma_add_unique(m1, "deserto"@);
    lemma_add_unique(m2, "montanha"@);
    lemma_add_unique(m3, "cidade"@);
    lemma_add_unique(m4, "futurista"@);
    lemma_add_unique(m5, "floresta"@);
    lemma_add_unique(m5, "deserto"@);
    lemma_add_unique(m5, "montanha"@);
    lemma_add_unique(m5, "cidade"@);
    lemma_add_unique(m5, "futurista"@);
    let g = level_gloves(r.gloves, b);
    lemma_add_unique(r.gloves, "precisao"@);
    lemma_add_unique(g, "precisao"@);
    let k = level_skins(r.skins, b);
    lemma_add_unique(r.skins, "dourada"@);
    lemma_add_unique(k, "dourada"@);
}

/// `add_unique` only ever appends: what was there stays, in place.
pub proof fn lemma_add_unique_prefix<T>(s: Seq<T>, x: T)
    ensures
        s.len() <= add_unique(s, x).len(),
        add_unique(s, x).take(s.len() as int) == s,
{
    assert(add_unique(s, x).take(s.len() as int) =~= s);
}

/// Checking a level only appends: everything unlocked before stays, in the
/// same order, at the front of each list.
pub proof fn lemma_check_level_appends(r: UnlockView, level: u32)
    ensures
        level_unlocks(r, level).stones.take(r.stones.len() as int) == r.stones,
        level_unlocks(r, level).maps.take(r.maps.len() as int) == r.maps,
        level_unlocks(r, level).gloves.take(r.gloves.len() as int) == r.gloves,
        level_unlocks(r, level).skins.take(r.skins.len() as int) == r.skins,
{
    let s = r.stones;
    let s1 = if level >= 3 { add_unique(s, StoneKind::Smooth) } else { s };
    let s2 = if level >= 10 { add_unique(s1, StoneKind::Irregular) } else { s1 };
    let s3 = if level >= 15 { add_unique(s2, StoneKind::Metallic) } else { s2 };
    let s4 = level_unlocks(r, level).stones;
    lemma_add_unique_prefix(s, StoneKind::Smooth);
    lemma_add_unique_prefix(s1, StoneKind::Irregular);
    lemma_add_unique_prefix(s2, StoneKind::Metallic);
    lemma_add_unique_prefix(s3, StoneKind::Explosive);
    assert(s4.take(s.len() as int) =~= s) by {
        assert forall|i: int| 0 <= i < s.len() implies s4[i] == s[i] by {
            assert(s1[i] == s[i]);
            assert(s2[i] == s1[i]);
            assert(s3[i] == s2[i]);
            assert(s4[i] == s3[i]);
        }
    }
    let m = r.maps;
    let m1 = if level >= 5 { add_unique(m, "floresta"@) } else { m };
    let m2 = if level >= 12 { add_unique(m1, "deserto"@) } else { m1 };
    let m3 = if level >= 18 { add_unique(m2, "montanha"@) } else { m2 };
    let m4 = if level >= 22 { add_unique(m3, "cidade"@) } else { m3 };
    let m5 = level_unlocks(r, level).maps;
    lemma_add_unique_prefix(m, "floresta"@);
    lemma_add_unique_prefix(m1, "deserto"@);
    lemma_add_unique_prefix(m2, "montanha"@);
    lemma_add_unique_prefix(m3, "cidade"@);
    lemma_add_unique_prefix(m4, "futurista"@);
    assert(m5.take(m.len() as int) =~= m) by {
        assert forall|i: int| 0 <= i < m.len() implies m5[i] == m[i] by {
            assert(m1[i] == m[i]);
            assert(m2[i] == m1[i]);
            assert(m3[i] == m2[i]);
            assert(m4[i] == m3[i]);
            assert(m5[i] == m4[i]);
        }
    }
    lemma_add_unique_prefix(r.gloves, "precisao"@);
    lemma_add_unique_prefix(r.skins, "dourada"@);
}


/// The level at which a stone is given as a reward; the stones available from
/// the start are no reward.
pub open spec fn stone_reward_level(kind: StoneKind) -> Option<u32> {
    match kind {
        StoneKind::Smooth => Some(3u32),
        StoneKind::Irregular => Some(10u32),
        StoneKind::Metallic => Some(15u32),
        StoneKind::Explosive => Some(25u32),
        _ => None,
    }
}

/// The level at which a map is given as a reward.
pub open spec fn map_reward_level(name: Seq<char>) -> Option<u32> {
    if name == "floresta"@ {
        Some(5u32)
    } else if name == "deserto"@ {
        Some(12u32)
    } else if name == "montanha"@ {
        Some(18u32)
    } else if name == "cidade"@ {
        Some(22u32)
    } else if name == "futurista"@ {
        Some(30u32)
    } else {
        None
    }
}

/// The level at which a glove is given as a reward.
pub open spec fn glove_reward_level(name: Seq<char>) -> Option<u32> {
    if name == "precisao"@ { Some(8u32) } else { None }
}

/// The level at which a skin is given as a reward.
pub open spec fn skin_reward_level(name: Seq<char>) -> Option<u32> {
    if name == "dourada"@ { Some(20u32) } else { None }
}

/// A reward with this threshold is due at `level`.
pub open spec fn reward_due(threshold: Option<u32>, level: int) -> bool {
    threshold is Some && threshold->0 <= level
}

/// `after` holds exactly what `before` holds plus every reward due at `level`.
pub open spec fn rewards_added_up_to(before: UnlockView, after: UnlockView, level: int) -> bool {
    &&& forall|k: StoneKind| #[trigger] after.stones.contains(k) == (before.stones.contains(k)
        || reward_due(stone_reward_level(k), level))
    &&& forall|n: Seq<char>| #[trigger] after.maps.contains(n) == (before.maps.contains(n)
        || reward_due(map_reward_level(n), level))
    &&& forall|n: Seq<char>| #[trigger] after.gloves.contains(n) == (before.gloves.contains(n)
        || reward_due(glove_reward_level(n), level))
    &&& forall|n: Seq<char>| #[trigger] after.skins.contains(n) == (before.skins.contains(n)
        || reward_due(skin_reward_level(n), level))
}

/// What `add_unique` holds: what was there and the added item, nothing else.
pub proof fn lemma_add_unique_contains<T>(s: Seq<T>, x: T, y: T)
    ensures
        add_unique(s, x).contains(y) == (s.contains(y) || y == x),
{
    lemma_add_unique(s, x);
    if !s.contains(x) && s.push(x).contains(y) && y != x {
        let k = choose|k: int| 0 <= k < s.push(x).len() && s.push(x)[k] == y;
        assert(s[k] == y);
    }
}

/// Checking a level unlocks every reward due at that level (stones at 3, 10,
/// 15, 25; maps "floresta" 5, "deserto" 12, "montanha" 18, "cidade" 22,
/// "futurista" 30; glove "precisao" 8; skin "dourada" 20) and nothing else.
pub proof fn lemma_level_unlocks_thresholds(r: UnlockView, level: u32)
    ensures
        rewards_added_up_to(r, level_unlocks(r, level), level as int),
{
    reveal_strlit("floresta");
    reveal_strlit("deserto");
    reveal_strlit("montanha");
    reveal_strlit("cidade");
    reveal_strlit("futurista");
    reveal_strlit("precisao");
    reveal_strlit("dourada");
    let u = level_unlocks(r, level);
    let s = r.stones;
    let s1 = if level >= 3 { add_unique(s, StoneKind::Smooth) } else { s };
    let s2 = if level >= 10 { add_unique(s1, StoneKind::Irregular) } else { s1 };
    let s3 = if level >= 15 { add_unique(s2, StoneKind::Metallic) } else { s2 };
    assert forall|k: StoneKind| #[trigger] u.stones.contains(k) == (s.contains(k) || reward_due(
        stone_reward_level(k),
        level as int,
    )) by {
        lemma_add_unique_contains(s, StoneKind::Smooth, k);
        lemma_add_unique_contains(s1, StoneKind::Irregular, k);
        lemma_add_unique_contains(s2, StoneKind::Metallic, k);
        lemma_add_unique_contains(s3, StoneKind::Explosive, k);
    }
    let m = r.maps;
    let m1 = if level >= 5 { add_unique(m, "floresta"@) } else { m };
    let m2 = if level >= 12 { add_unique(m1, "deserto"@) } else { m1 };
    let m3 = if level >= 18 { add_unique(m2, "montanha"@) } else { m2 };
    let m4 = if level >= 22 { add_unique(m3, "cidade"@) } else { m3 };
    assert("floresta"@ != "deserto"@ && "floresta"@ != "montanha"@ && "floresta"@ != "cidade"@
        && "floresta"@ != "futurista"@) by {
        assert("floresta"@.len() != "deserto"@.len());
        assert("floresta"@[0] != "montanha"@[0]);
        assert("floresta"@.len() != "cidade"@.len());
        assert("floresta"@.len() != "futurista"@.len());
    }
    assert("deserto"@ != "montanha"@ && "deserto"@ != "cidade"@ && "deserto"@ != "futurista"@)
        by {
        assert("deserto"@.len() != "montanha"@.len());
        assert("deserto"@.len() != "cidade"@.len());
        assert("deserto"@.len() != "futurista"@.len());
    }
    assert("montanha"@ != "cidade"@ && "montanha"@ != "futurista"@ && "cidade"@ != "futurista"@)
        by {
        assert("montanha"@.len() != "cidade"@.len());
        assert("montanha"@.len() != "futurista"@.len());
        assert("cidade"@.len() != "futurista"@.len());
    }
    assert forall|n: Seq<char>| #[trigger] u.maps.contains(n) == (m.contains(n) || reward_due(
        map_reward_level(n),
        level as int,
    )) by {
        lemma_add_unique_contains(m, "floresta"@, n);
        lemma_add_unique_contains(m1, "deserto"@, n);
        lemma_add_unique_contains(m2, "montanha"@, n);
        lemma_add_unique_contains(m3, "cidade"@, n);
        lemma_add_unique_contains(m4, "futurista"@, n);
    }
    assert forall|n: Seq<char>| #[trigger] u.gloves.contains(n) == (r.gloves.contains(n)
        || reward_due(glove_reward_level(n), level as int)) by {
        lemma_add_unique_contains(r.gloves, "precisao"@, n);
    }
    assert forall|n: Seq<char>| #[trigger] u.skins.contains(n) == (r.skins.contains(n)
        || reward_due(skin_reward_level(n), level as int)) by {
        lemma_add_unique_contains(r.skins, "dourada"@, n);
    }
}

/// Rewards added up to a level and then up to a higher one are those added up
/// to the higher one.
pub proof fn lemma_rewards_added_chain(a: UnlockView, b: UnlockView, c: UnlockView, l1: int, l2: int)
    requires
        l1 <= l2,
        rewards_added_up_to(a, b, l1),
        rewards_added_up_to(b, c, l2),
    ensures
        rewards_added_up_to(a, c, l2),
{
    assert forall|k: StoneKind| #[trigger] c.stones.contains(k) == (a.stones.contains(k)
        || reward_due(stone_reward_level(k), l2)) by {
        assert(b.stones.contains(k) == (a.stones.contains(k) || reward_due(stone_reward_level(k), l1)));
    }
    assert forall|n: Seq<char>| #[trigger] c.maps.contains(n) == (a.maps.contains(n)
        || reward_due(map_reward_level(n), l2)) by {
        assert(b.maps.contains(n) == (a.maps.contains(n) || reward_due(map_reward_level(n), l1)));
    }
    assert forall|n: Seq<char>| #[trigger] c.gloves.contains(n) == (a.gloves.contains(n)
        || reward_due(glove_reward_level(n), l2)) by {
        assert(b.gloves.contains(n) == (a.gloves.contains(n) || reward_due(glove_reward_level(n), l1)));
    }
    assert forall|n: Seq<char>| #[trigger] c.skins.contains(n) == (a.skins.contains(n)
        || reward_due(skin_reward_level(n), l2)) by {
        assert(b.skins.contains(n) == (a.skins.contains(n) || reward_due(skin_reward_level(n), l1)));
    }
}

} // verus!
