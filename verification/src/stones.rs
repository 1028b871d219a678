//! Stone kinds that the player can throw.

use vstd::prelude::*;

verus! {

/// Number of stone kinds.
pub const STONE_COUNT: usize = 7;

/// Kinds of stone, from the starting ones to those unlocked by level.
#[derive(Debug, Clone, Copy, PartialEq, Eq, Hash, Structural)]
pub enum StoneKind {
    Small,
    Medium,
    Large,
    Smooth,
    Irregular,
    Metallic,
    Explosive,
}

/// Display name of a stone kind.
pub open spec fn spec_stone_name(kind: StoneKind) -> Seq<char> {
    match kind {
        StoneKind::Small => "Pequena"@,
        StoneKind::Medium => "Média"@,
        StoneKind::Large => "Grande"@,
        StoneKind::Smooth => "Lisa"@,
        StoneKind::Irregular => "Irregular"@,
        StoneKind::Metallic => "Metálica"@,
        StoneKind::Explosive => "Explosiva"@,
    }
}

/// Player level at which a stone kind becomes available (0: from the start).
pub open spec fn spec_unlock_level(kind: StoneKind) -> u32 {
    match kind {
        StoneKind::Small => 0,
        StoneKind::Medium => 0,
        StoneKind::Large => 0,
        StoneKind::Smooth => 3,
        StoneKind::Irregular => 10,
        StoneKind::Metallic => 15,
        StoneKind::Explosive => 25,
    }
}

/// The stone kinds in selection order.
pub open spec fn spec_all_stones() -> Seq<StoneKind> {
    seq![
        StoneKind::Small,
        StoneKind::Medium,
        StoneKind::Large,
        StoneKind::Smooth,
        StoneKind::Irregular,
        StoneKind::Metallic,
        StoneKind::Explosive,
    ]
}

impl StoneKind {
    /// All kinds, in the order of the selection keys 1 to 7.
    pub fn all() -> (kinds: [StoneKind; STONE_COUNT])
        ensures
            kinds@ == spec_all_stones(),
    {
        let kinds = [
            StoneKind::Small,
            StoneKind::Medium,
            StoneKind::Large,
            StoneKind::Smooth,
            StoneKind::Irregular,
            StoneKind::Metallic,
            StoneKind::Explosive,
        ];
        assert(kinds@ =~= spec_all_stones());
        kinds
    }

    /// Name shown in the HUD.
    pub fn display_name(self) -> (name: &'static str)
        ensures
            name@ == spec_stone_name(self),
    {
        match self {
            StoneKind::Small => "Pequena",
            StoneKind::Medium => "Média",
            StoneKind::Large => "Grande",
            StoneKind::Smooth => "Lisa",
            StoneKind::Irregular => "Irregular",
            StoneKind::Metallic => "Metálica",
            StoneKind::Explosive => "Explosiva",
        }
    }

    /// Player level needed to use this stone.
    pub fn unlock_level(self) -> (level: u32)
        ensures
            level == spec_unlock_level(self),
    {
        match self {
            StoneKind::Small => 0,
            StoneKind::Medium => 0,
            StoneKind::Large => 0,
            StoneKind::Smooth => 3,
            StoneKind::Irregular => 10,
            StoneKind::Metallic => 15,
            StoneKind::Explosive => 25,
        }
    }

    /// Whether the stone is used up when thrown (only the explosive one).
    pub fn consumable(self) -> (c: bool)
        ensures
            c == (self == StoneKind::Explosive),
    {
        match self {
            StoneKind::Explosive => true,
            _ => false,
        }
    }
}

} // verus!
