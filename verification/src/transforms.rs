//! The transforms tab, which holds no state of its own yet.

use vstd::prelude::*;

verus! {

/// State of the transforms tab.
#[derive(Clone, Copy, Debug, PartialEq, Eq, Structural)]
pub struct TransformsTab {}

impl TransformsTab {
    /// A tab in its initial state.
    pub fn new() -> (tab: Self)
        ensures
            tab == (TransformsTab {}),
    {
        TransformsTab {}
    }
}

} // verus!
