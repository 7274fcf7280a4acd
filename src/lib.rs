//! Orientation decisions for a screen-rotation daemon: accelerometer
//! smoothing, orientation classification, debouncing and the run-loop
//! state machine.
use vstd::prelude::*;

pub mod classify;
pub mod config;
pub mod control;
pub mod debounce;
pub mod filter;
pub mod orientator;
pub mod rotation;
mod text;

pub use orientator::Orientator;
pub use rotation::{RotParseErrKind, Rotation};

verus! {

} // verus!
