//! Virtual gamepads: their state, and which of them exist.

pub mod manager;
pub mod types;

use vstd::prelude::*;

pub use manager::GamepadManager;

verus! {

/// The number of a controller.
pub type ControllerId = u32;

} // verus!
