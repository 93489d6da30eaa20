//! WebPad: the logic of a virtual gamepad that a browser moves over a WebSocket.
//!
//! The library decides; whoever uses it does the input and output. It holds no lock and starts
//! no task, and it takes the time as a number.

pub mod auth;
pub mod clock;
pub mod config;
pub mod gamepad;
pub mod net;
pub mod password;
pub mod protocol;
pub mod text;
pub mod tls;
pub mod upnp;
pub mod web;
