//! A small file-watch helper library: classify filesystem change events,
//! filter them by a regular-expression pattern, debounce repeated bursts on
//! the same paths, and render the shell command line to dispatch.
//!
//! The surrounding process (filesystem notification, the clock, and running
//! the rendered command) lives outside this crate; the decision logic here is
//! verified.

pub mod command;
pub mod debounce;
pub mod event;
pub mod pattern;
pub mod session;

use vstd::prelude::*;

verus! {

/// The debounce window: repeated qualifying events on the same path sequence
/// within this many milliseconds collapse into a single dispatch.
pub const DEBOUNCE_WINDOW_MILLIS: u64 = 250;

} // verus!
