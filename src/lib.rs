//! Break-reminder timer: the shared timer state, the once-per-second state
//! machine that advances it, the commands that redirect it, and the rules for
//! restoring it after a restart.
pub mod commands;
pub mod config;
pub mod engine;
pub mod laws;
pub mod meeting;
pub mod overlay;
pub mod strict_mode;
pub mod text;
pub mod timer;
pub mod tray;
