//! Input and output redirection of the processes a terminal runs.
use vstd::prelude::*;

pub mod redirection;

verus! {

} // verus!
