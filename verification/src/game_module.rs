pub mod actors;
pub mod behavior;
pub mod game_audio_manager;
pub mod game_character;
pub mod game_client;
pub mod game_constants;
pub mod game_controller;
pub mod game_resource;
pub mod game_scene_manager;
pub mod game_ui_manager;
pub mod game_weather;
pub mod save_data;
pub mod state_cycle;
pub mod text;
