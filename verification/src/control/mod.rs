//! The control connection of a web client: resizes of its terminal, responses to
//! heartbeats, and the channel by which it is told things.

pub mod laws;
pub mod session;
