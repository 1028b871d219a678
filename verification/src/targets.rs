//! Target and boss kinds with their scoring values.

use vstd::prelude::*;

verus! {

/// Kinds of target that can be placed on a map.
#[derive(Debug, Clone, Copy, PartialEq, Eq, Hash, Structural)]
pub enum TargetKind {
    Plate,
    Can,
    Bottle,
    Bell,
    Drone,
    Cart,
    Platform,
    Npc,
}

/// Base points of a target kind.
pub open spec fn spec_base_points(kind: TargetKind) -> u32 {
    match kind {
        TargetKind::Plate => 50,
        TargetKind::Can => 75,
        TargetKind::Bottle => 100,
        TargetKind::Bell => 150,
        TargetKind::Drone => 200,
        TargetKind::Cart => 175,
        TargetKind::Platform => 125,
        TargetKind::Npc => 300,
    }
}

/// Whether a target kind moves on its own.
pub open spec fn spec_is_mobile(kind: TargetKind) -> bool {
    kind == TargetKind::Drone || kind == TargetKind::Cart || kind == TargetKind::Platform
        || kind == TargetKind::Npc
}

impl TargetKind {
    /// Points a hit on this kind is worth before multipliers.
    pub fn base_points(self) -> (p: u32)
        ensures
            p == spec_base_points(self),
    {
        match self {
            TargetKind::Plate => 50,
            TargetKind::Can => 75,
            TargetKind::Bottle => 100,
            TargetKind::Bell => 150,
            TargetKind::Drone => 200,
            TargetKind::Cart => 175,
            TargetKind::Platform => 125,
            TargetKind::Npc => 300,
        }
    }

    /// Drones, carts, platforms and NPCs move; the others stand still.
    pub fn is_mobile(self) -> (b: bool)
        ensures
            b == spec_is_mobile(self),
    {
        match self {
            TargetKind::Drone | TargetKind::Cart | TargetKind::Platform | TargetKind::Npc => true,
            _ => false,
        }
    }
}

/// Bosses with several weak spots.
#[derive(Debug, Clone, Copy, PartialEq, Eq, Structural)]
pub enum BossKind {
    GiantRobot,
    ArmoredTower,
    ColossalDrone,
}

/// Reward for defeating a boss.
pub open spec fn spec_reward_points(kind: BossKind) -> u32 {
    match kind {
        BossKind::GiantRobot => 2000,
        BossKind::ArmoredTower => 3000,
        BossKind::ColossalDrone => 2500,
    }
}

impl BossKind {
    /// Points awarded when the boss falls.
    pub fn reward_points(self) -> (p: u32)
        ensures
            p == spec_reward_points(self),
    {
        match self {
            BossKind::GiantRobot => 2000,
            BossKind::ArmoredTower => 3000,
            BossKind::ColossalDrone => 2500,
        }
    }
}

} // verus!
