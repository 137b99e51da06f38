//! The sort panel: a fixed pair of orderings and the direction flag.

use vstd::prelude::*;

verus! {

/// The sort panel's content.
pub struct Sort {
    pub entries: Vec<&'static str>,
    pub asc: bool,
}

impl Sort {
    pub open spec fn inv(&self) -> bool {
        self.entries@.len() == 2
    }

    pub fn new() -> (r: Self)
        ensures
            r.inv(),
            r.asc,
    {
        let entries = vec!["Date of Release", "Language"];
        Sort { entries, asc: true }
    }
}

} // verus!
