//! Verified core of a small desktop-application scaffold: the bootstrap
//! decisions (data-directory planning and startup outcome), the closed
//! registry of invokable commands with their handlers, and the timer model
//! behind the one suspending command. The unverified shell around it performs
//! the actual filesystem, logging and windowing work and feeds plain values
//! into these functions.

pub mod bootstrap;
pub mod commands;
pub mod error;
pub mod state;
pub mod timer;

pub use error::Error;
pub use state::AppState;
