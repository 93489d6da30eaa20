//! The server: who is let in over the web, and what is said to them.

pub mod handler;
pub mod laws;
pub mod origin;
pub mod page;
pub mod server;

pub use server::{AppState, ConnectionLimiter, GamepadHandle};
