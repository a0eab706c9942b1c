//! Discord rich presence for a media player shell.
pub mod activity;
pub mod config;
pub mod double;
pub mod engine;
pub mod json;
pub mod metadata;
pub mod percent;
pub mod player;
pub mod route;
pub mod settings_file;
pub mod shell;
pub mod text;
