//! Game rules of the Rock 3D stone-throwing game and the small pieces of
//! engine bookkeeping that do not touch the GPU, stated and proved with Verus.

pub mod procedural;
pub mod targets;
pub mod skills;
pub mod stones;
pub mod unlocks;
pub mod xp;
pub mod scoring;
pub mod modes;
pub mod app_config;
pub mod backend;
pub mod text;
pub mod ai;
pub mod gpu;
pub mod kinds;
pub mod plugins;
pub mod save;
pub mod hot_reload;
pub mod throw;
pub mod round;
pub mod input;
