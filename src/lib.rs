//! Supervision of one child process on an e-paper tablet: a status screen, a
//! quit gesture, and a graceful-then-forceful termination.
use vstd::prelude::*;

pub mod geometry;
pub mod input;
pub mod trigger;
pub mod escalation;
pub mod supervise;
pub mod status;
pub mod options;

verus! {

} // verus!
