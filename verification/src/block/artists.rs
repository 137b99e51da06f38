//! The artists view of the main panel.

use vstd::prelude::*;
use crate::block::Index;

verus! {

/// The artists view, with a fresh cursor.
pub struct Artists {
    pub index: Index,
}

impl Artists {
    pub fn new() -> (r: Self)
        ensures
            r.index.inner == 0,
            r.index.bound() == 0,
            r.index.inv(),
    {
        Artists { index: Index::new(0) }
    }
}

} // verus!
