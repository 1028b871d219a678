//! The two games the engine ships and their asset packs.

use vstd::prelude::*;

verus! {

/// The Desert Shooter game.
pub struct DesertShooterPlugin;

/// The Rock 3D game.
pub struct Rock3DPlugin;

/// Asset pack of Desert Shooter.
pub struct DesertShooterAssets;

/// Asset pack of Rock 3D.
pub struct Rock3DAssets;

/// Sound events of Rock 3D.
pub struct RockAudio;

impl DesertShooterPlugin {
    /// Name of the game.
    pub fn name(&self) -> (n: &'static str)
        ensures
            n@ == "Desert Shooter"@,
    {
        "Desert Shooter"
    }

    /// Title of its window.
    pub fn window_title(&self) -> (t: &'static str)
        ensures
            t@ == "Desert Shooter"@,
    {
        "Desert Shooter"
    }
}

impl Rock3DPlugin {
    /// Name of the game.
    pub fn name(&self) -> (n: &'static str)
        ensures
            n@ == "Rock 3D"@,
    {
        "Rock 3D"
    }

    /// Title of its window.
    pub fn window_title(&self) -> (t: &'static str)
        ensures
            t@ == "Rock 3D — Competitive Stone Throwing"@,
    {
        "Rock 3D — Competitive Stone Throwing"
    }
}

} // verus!
