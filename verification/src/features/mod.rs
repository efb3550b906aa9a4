//! Terminal features.
use vstd::prelude::*;

pub mod hyperlink_support;
pub mod image_support;
pub mod paste_protection;
pub mod search_functionality;
pub mod selection_copy;
pub mod semantic_highlighting;

verus! {

} // verus!
