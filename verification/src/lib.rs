//! Decision logic of a terminal multiplexer's web client server.

pub mod auth;
pub mod config;
pub mod control;
pub mod cookies;
pub mod heartbeat;
pub mod listener;
pub mod notices;
pub mod socket;
pub mod terminal;
pub mod text;
pub mod wording;
