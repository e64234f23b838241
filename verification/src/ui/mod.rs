pub mod overlay;
pub mod toolbar;

use vstd::prelude::*;

verus! {

/// How an overlay session ended.
#[derive(Debug, Clone, Copy, PartialEq, Eq, Structural)]
pub enum UiResult {
    Done,
    Cancelled,
}

} // verus!
