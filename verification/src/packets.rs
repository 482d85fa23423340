//! The concrete packet shapes of each protocol state.

pub mod client_tick;
pub mod configuration;
pub mod handshake;
pub mod login;
pub mod play;
pub mod status;
