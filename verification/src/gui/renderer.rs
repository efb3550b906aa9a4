//! Front-end renderer marker type.
use vstd::prelude::*;

verus! {

/// Marker for the front end's renderer; it holds no state.
pub struct TerminalRenderer;

} // verus!
