use desert_shooter_engine::ai::{AiDecision, AiState, AiSystem};
use desert_shooter_engine::app_config::Rock3DApp;
use desert_shooter_engine::backend::BackendKind;
use desert_shooter_engine::kinds::{compass_label, MapKind, WeatherKind};
use desert_shooter_engine::plugins::{DesertShooterPlugin, Rock3DPlugin};
use desert_shooter_engine::save::Rock3DSave;
use desert_shooter_engine::targets::{BossKind, TargetKind};

#[test]
fn target_points_and_mobility() {
    assert_eq!(TargetKind::Plate.base_points(), 50);
    assert_eq!(TargetKind::Can.base_points(), 75);
    assert_eq!(TargetKind::Npc.base_points(), 300);
    assert_eq!(TargetKind::Cart.base_points(), 175);
    assert!(TargetKind::Drone.is_mobile());
    assert!(TargetKind::Platform.is_mobile());
    assert!(!TargetKind::Bell.is_mobile());
    assert!(!TargetKind::Bottle.is_mobile());
    assert_eq!(BossKind::GiantRobot.reward_points(), 2000);
    assert_eq!(BossKind::ArmoredTower.reward_points(), 3000);
    assert_eq!(BossKind::ColossalDrone.reward_points(), 2500);
}

#[test]
fn maps() {
    assert_eq!(MapKind::Quarry.display_name(), "Pedreira");
    assert_eq!(MapKind::Futuristic.display_name(), "Instalação Futurista");
    assert_eq!(MapKind::Quarry.default_weather(), WeatherKind::Windy);
    assert_eq!(MapKind::Forest.default_weather(), WeatherKind::Fog);
    assert_eq!(MapKind::AbandonedCity.default_weather(), WeatherKind::Rain);
    assert_eq!(MapKind::Desert.default_weather(), WeatherKind::Storm);
}

#[test]
fn compass_sectors() {
    assert_eq!(compass_label(0), "N");
    assert_eq!(compass_label(-22), "N");
    assert_eq!(compass_label(22), "NE");
    assert_eq!(compass_label(90), "E");
    assert_eq!(compass_label(156), "SE");
    assert_eq!(compass_label(157), "S");
    assert_eq!(compass_label(180), "S");
    assert_eq!(compass_label(-158), "S");
    assert_eq!(compass_label(-157), "SW");
    assert_eq!(compass_label(-112), "W");
    assert_eq!(compass_label(-67), "NW");
    assert_eq!(compass_label(-23), "NW");
}

#[test]
fn backend_names_and_selection() {
    assert_eq!(BackendKind::OpenGL.name(), "OpenGL 3.3");
    assert_eq!(BackendKind::Vulkan.name(), "Vulkan 1.2");
    assert_eq!(BackendKind::DirectX11.name(), "Direct3D 11");
    assert_eq!(BackendKind::from_env_value(""), BackendKind::OpenGL);
    assert_eq!(BackendKind::from_env_value("vulkan"), BackendKind::Vulkan);
    assert_eq!(BackendKind::from_env_value("VK"), BackendKind::Vulkan);
    assert_eq!(BackendKind::from_env_value("DirectX"), BackendKind::DirectX11);
    assert_eq!(BackendKind::from_env_value("dx11"), BackendKind::DirectX11);
    assert_eq!(BackendKind::from_env_value("D3D11"), BackendKind::DirectX11);
    assert_eq!(BackendKind::from_env_value("opengl"), BackendKind::OpenGL);
    assert_eq!(BackendKind::from_env_value("metal"), BackendKind::OpenGL);
    assert_eq!(BackendKind::from_lowercase_name("vk"), BackendKind::Vulkan);
    assert_eq!(BackendKind::from_lowercase_name("VK"), BackendKind::OpenGL);
}

#[test]
fn app_configuration() {
    let app = Rock3DApp::new(BackendKind::Vulkan);
    assert_eq!(app.title(), "Rock 3D — Competitive Stone Throwing");
    assert_eq!(app.width(), 1280);
    assert_eq!(app.height(), 720);
    assert_eq!(app.backend(), BackendKind::Vulkan);
    let app = app.with_title("Torneio".to_string()).with_size(800, 600);
    assert_eq!(app.title(), "Torneio");
    assert_eq!(app.width(), 800);
    assert_eq!(app.height(), 600);
    assert_eq!(app.backend(), BackendKind::Vulkan);
}

#[test]
fn plugins() {
    assert_eq!(DesertShooterPlugin.name(), "Desert Shooter");
    assert_eq!(DesertShooterPlugin.window_title(), "Desert Shooter");
    assert_eq!(Rock3DPlugin.name(), "Rock 3D");
    assert_eq!(Rock3DPlugin.window_title(), "Rock 3D — Competitive Stone Throwing");
}

fn d(state: AiState, reset_timer: bool, take_cover: bool) -> AiDecision {
    AiDecision { state, reset_timer, take_cover }
}

#[test]
fn ai_transitions() {
    assert_eq!(AiSystem::decide(AiState::Idle, true, false, false, false), d(AiState::Idle, false, false));
    assert_eq!(AiSystem::decide(AiState::Idle, false, false, false, true), d(AiState::Patrol, true, false));
    assert_eq!(AiSystem::decide(AiState::Patrol, true, false, false, false), d(AiState::Alert, true, false));
    assert_eq!(AiSystem::decide(AiState::Patrol, false, true, true, true), d(AiState::Patrol, false, false));
    assert_eq!(AiSystem::decide(AiState::Alert, true, false, true, true), d(AiState::Patrol, false, false));
    assert_eq!(AiSystem::decide(AiState::Alert, true, false, false, true), d(AiState::Evasion, false, false));
    assert_eq!(AiSystem::decide(AiState::Alert, true, false, false, false), d(AiState::Alert, false, false));
    assert_eq!(AiSystem::decide(AiState::Alert, false, false, false, true), d(AiState::Patrol, false, false));
    assert_eq!(AiSystem::decide(AiState::Evasion, true, false, true, false), d(AiState::SeekCover, false, true));
    assert_eq!(AiSystem::decide(AiState::Evasion, false, false, true, false), d(AiState::Evasion, false, false));
    assert_eq!(AiSystem::decide(AiState::SeekCover, false, false, true, false), d(AiState::Patrol, false, false));
    assert_eq!(AiSystem::decide(AiState::SeekCover, false, true, true, false), d(AiState::SeekCover, false, false));
    assert_eq!(AiSystem::decide(AiState::SeekCover, false, true, false, false), d(AiState::Patrol, true, false));
    assert_eq!(AiSystem::on_near_miss(AiState::SeekCover), d(AiState::Alert, true, false));
}

#[test]
fn save_defaults() {
    let s = Rock3DSave::default();
    assert_eq!(s.version, 1);
    assert_eq!(s.profile.level, 1);
    assert!(s.skills.unlocked.is_empty());
    assert!(s.unlocks.stones.is_empty());
    assert_eq!(s.best_scores.total, 0);
    assert_eq!(s.daily.seed, 20260610);
    assert!(!s.daily.completed);
    assert_eq!(s.daily.best_score, 0);
    assert_eq!(s.daily.attempts_today, 0);
    assert_eq!(s.best_scores.misses, 0);
    assert_eq!(s.best_scores.session, 0);
    assert_eq!(s.best_scores.time_bonus, 0);
    assert_eq!(s.profile.xp, 0);
    assert_eq!(s.profile.total_throws, 0);
    assert_eq!(s.profile.total_hits, 0);
    assert_eq!(s.profile.skill_points, 0);
    assert!(s.unlocks.maps.is_empty() && s.unlocks.gloves.is_empty() && s.unlocks.skins.is_empty());
}
