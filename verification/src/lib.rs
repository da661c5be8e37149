//! A privilege-transition launcher's decisions: who may switch identity, what
//! a target specification resolves to, and the one safe order in which a
//! process adopts the resolved identity before it hands over to a command.

pub mod auth;
pub mod identity;
pub mod laws;
pub mod session;
pub mod target;
