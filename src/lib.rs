//! Data model and selection logic behind a two-pane tree view: a text
//! forest on the left, a picture list on the right, and the rule that keeps
//! the right pane's selection on the top-level ancestor of the left one.
use vstd::prelude::*;

pub mod path;
pub mod store;
pub mod sync;

verus! {

} // verus!
