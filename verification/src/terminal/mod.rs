//! The terminal connection of a web client: what is typed into its terminal, and
//! the life of the connection from its start to its end.

pub mod laws;
pub mod session;
