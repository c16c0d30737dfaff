//! The game itself: where it is installed and which build it is.

pub mod env;
pub mod ffnx;
pub mod ffnx_config;
pub mod ffnx_installation;
pub mod input_config;
pub mod installation;
