//! A decorated tab.
use vstd::prelude::*;

verus! {

/// A tab whose text is decorated.
pub struct FancyView {}

impl FancyView {
    /// A new decorated tab.
    pub fn new() -> FancyView {
        FancyView {}
    }
}

} // verus!
