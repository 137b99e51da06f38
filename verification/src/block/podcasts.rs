//! The podcasts view of the main panel.

use vstd::prelude::*;
use crate::block::Index;

verus! {

/// The podcasts view, with a fresh cursor.
pub struct Podcasts {
    pub index: Index,
}

impl Podcasts {
    pub fn new() -> (r: Self)
        ensures
            r.index.inner == 0,
            r.index.bound() == 0,
            r.index.inv(),
    {
        Podcasts { index: Index::new(0) }
    }
}

} // verus!
