//! Locates an installed copy of the game, provisions the enhancement runtime
//! that matches its edition, and decides how the game is launched.

pub mod config;
pub mod game;
pub mod github;
pub mod install;
pub mod launcher;
pub mod metadata;
pub mod os;
pub mod paths;
pub mod pe_format;
pub mod provision;
pub mod screen;
pub mod shared_memory;
pub mod steam;
pub mod text;
pub mod toml;
pub mod ui;
pub mod worker_loop;
pub mod xrandr;
