//! Lifecycle rules for support cases held in discussion threads: opening a
//! case, summoning helpers after a cooldown, and closing a case.

pub mod case;
pub mod clock;
pub mod colour;
pub mod commands;
pub mod config;
pub mod laws;
pub mod lifecycle;
pub mod names;
pub mod notices;
pub mod numbers;
pub mod roles;
pub mod session;
pub mod store;
