//! Window placement and drag-command rules for a small desktop utility window:
//! where the window goes on first display, and what the drag command reports.
use vstd::prelude::*;

pub mod drag;
pub mod geometry;
pub mod placement;

verus! {

} // verus!
