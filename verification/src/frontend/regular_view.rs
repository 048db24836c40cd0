//! A plain tab.
use crate::shared::Shared;
use vstd::prelude::*;

verus! {

/// A tab without content of its own.
pub struct RegularView {}

impl RegularView {
    /// A new shared plain tab.
    pub fn new() -> Shared<RegularView> {
        Shared::new(RegularView {})
    }
}

} // verus!
