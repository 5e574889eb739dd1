pub mod config;
pub mod game_state;
pub mod hero_api;
pub mod launcher;
pub mod log_patterns;
pub mod log_watcher;
pub mod merge_laws;
pub mod numbers;
pub mod presence;
pub mod process_guard;
pub mod text;
pub mod tray;
pub mod updater;
