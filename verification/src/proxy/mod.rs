//! The control plane of a chaos proxy: its configuration, the connections it tracks, the requests
//! that inspect and adjust them, and the life of one connection.

pub mod api;
pub mod config;
pub mod connections;
pub mod session;
