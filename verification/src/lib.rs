//! Play-pause synchronisation between peers: the decisions of the client,
//! its message format, its configuration, its reconnection budget, and which
//! foreground window counts as the player.

pub mod clicker;
pub mod condition;
pub mod config;
pub mod desktop;
pub mod input;
pub mod model;
pub mod periphery;
pub mod retry;
pub mod session;
