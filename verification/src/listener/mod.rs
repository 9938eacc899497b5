//! The listener between one web client and the session that it is attached to.
//!
//! [`ServerListener`](machine::ServerListener) is a state machine: it is given
//! what happened and answers with what is to be done. [`model`] says what it
//! does, [`steps`] what comes of each event, [`laws`] what holds of every run of it.

pub mod laws;
pub mod machine;
pub mod messages;
pub mod model;
pub mod steps;
