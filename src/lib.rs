//! Control logic of a handheld-console emulator front end: the runner's
//! state machine, the frame-rate governor, the shared frame cell and the
//! debug snapshots handed to the observer.
use vstd::prelude::*;

pub mod breakpoint;
pub mod command;
pub mod governor;
pub mod harness;
pub mod laws;
pub mod perf;
pub mod runner;
pub mod snapshot;
pub mod state;
pub mod status;

verus! {

} // verus!
