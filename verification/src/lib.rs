pub mod app;
pub mod config;
pub mod jellyfin;
pub mod state;
pub mod style;
pub mod text;
pub mod theme;
pub mod ui;
