//! The albums view of the main panel.

use vstd::prelude::*;
use crate::block::Index;

verus! {

/// Which collection of albums the main panel shows.
#[derive(Clone, PartialEq, Eq, Debug)]
pub enum AlbumKind {
    Artist(String),
    All,
}

/// Mathematical image of an `AlbumKind`.
pub ghost enum AlbumKindV {
    Artist(Seq<char>),
    All,
}

impl View for AlbumKind {
    type V = AlbumKindV;

    open spec fn view(&self) -> AlbumKindV {
        match self {
            AlbumKind::Artist(s) => AlbumKindV::Artist(s@),
            AlbumKind::All => AlbumKindV::All,
        }
    }
}

/// The albums view, with a fresh cursor.
pub struct Albums {
    pub index: Index,
    pub kind: AlbumKind,
}

impl Albums {
    pub fn new(kind: AlbumKind) -> (r: Self)
        ensures
            r.index.inner == 0,
            r.index.bound() == 0,
            r.index.inv(),
            r.kind == kind,
    {
        Albums { index: Index::new(0), kind }
    }
}

} // verus!
