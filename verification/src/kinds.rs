//! Maps, weather, throw phases and camera modes.

use vstd::prelude::*;

verus! {

/// Weather conditions.
#[derive(Debug, Clone, Copy, PartialEq, Eq, Structural)]
pub enum WeatherKind {
    Clear,
    Windy,
    Rain,
    Fog,
    Storm,
}

/// Compass label of a wind direction given in whole degrees (0 = north,
/// positive towards east): eight sectors of about 45 degrees.
pub open spec fn spec_compass_label(a: i32) -> Seq<char> {
    if -22 <= a < 22 {
        "N"@
    } else if 22 <= a < 67 {
        "NE"@
    } else if 67 <= a < 112 {
        "E"@
    } else if 112 <= a < 157 {
        "SE"@
    } else if a >= 157 || a < -157 {
        "S"@
    } else if -157 <= a < -112 {
        "SW"@
    } else if -112 <= a < -67 {
        "W"@
    } else {
        "NW"@
    }
}

/// The compass label of a wind angle in whole degrees (the caller computes the
/// angle from the wind vector and truncates it).
pub fn compass_label(a: i32) -> (label: &'static str)
    ensures
        label@ == spec_compass_label(a),
{
    if a >= -22 && a < 22 {
        "N"
    } else if a >= 22 && a < 67 {
        "NE"
    } else if a >= 67 && a < 112 {
        "E"
    } else if a >= 112 && a < 157 {
        "SE"
    } else if a >= 157 || a < -157 {
        "S"
    } else if a >= -157 && a < -112 {
        "SW"
    } else if a >= -112 && a < -67 {
        "W"
    } else {
        "NW"
    }
}

/// Playable maps.
#[derive(Debug, Clone, Copy, PartialEq, Eq, Structural)]
pub enum MapKind {
    Quarry,
    Forest,
    Desert,
    Mountain,
    AbandonedCity,
    Futuristic,
}

/// Display name of a map.
pub open spec fn spec_map_name(kind: MapKind) -> Seq<char> {
    match kind {
        MapKind::Quarry => "Pedreira"@,
        MapKind::Forest => "Floresta"@,
        MapKind::Desert => "Deserto"@,
        MapKind::Mountain => "Montanha"@,
        MapKind::AbandonedCity => "Cidade Abandonada"@,
        MapKind::Futuristic => "Instalação Futurista"@,
    }
}

/// Weather a map starts with.
pub open spec fn spec_default_weather(kind: MapKind) -> WeatherKind {
    match kind {
        MapKind::Quarry => WeatherKind::Windy,
        MapKind::Forest => WeatherKind::Fog,
        MapKind::Desert => WeatherKind::Storm,
        MapKind::Mountain => WeatherKind::Windy,
        MapKind::AbandonedCity => WeatherKind::Rain,
        MapKind::Futuristic => WeatherKind::Storm,
    }
}

impl MapKind {
    /// Name shown in menus.
    pub fn display_name(self) -> (name: &'static str)
        ensures
            name@ == spec_map_name(self),
    {
        match self {
            MapKind::Quarry => "Pedreira",
            MapKind::Forest => "Floresta",
            MapKind::Desert => "Deserto",
            MapKind::Mountain => "Montanha",
            MapKind::AbandonedCity => "Cidade Abandonada",
            MapKind::Futuristic => "Instalação Futurista",
        }
    }

    /// The weather the map starts with.
    pub fn default_weather(self) -> (w: WeatherKind)
        ensures
            w == spec_default_weather(self),
    {
        match self {
            MapKind::Quarry => WeatherKind::Windy,
            MapKind::Forest => WeatherKind::Fog,
            MapKind::Desert => WeatherKind::Storm,
            MapKind::Mountain => WeatherKind::Windy,
            MapKind::AbandonedCity => WeatherKind::Rain,
            MapKind::Futuristic => WeatherKind::Storm,
        }
    }
}

/// Phases of a throw.
#[derive(Debug, Clone, Copy, PartialEq, Eq, Structural)]
pub enum ThrowPhase {
    Idle,
    Aiming,
    Charging,
    Flying,
    Cooldown,
}

/// What the camera is following.
#[derive(Debug, Clone, Copy, PartialEq, Eq, Structural)]
pub enum RockCameraMode {
    Player,
    Cinematic,
    Returning,
}

} // verus!
