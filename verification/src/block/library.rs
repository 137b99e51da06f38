//! The library panel: a fixed, closed list of entry points into the
//! collection.  Keeping the entries as an enum makes the entry-to-view
//! mapping total; no selection can miss.

use vstd::prelude::*;

verus! {

/// The closed set of library entries, in the order the panel lists them.
#[derive(Copy, Clone, PartialEq, Eq, Structural, Debug)]
pub enum LibraryEntry {
    Queue,
    Tracks,
    Albums,
    Artists,
    Podcasts,
}

impl LibraryEntry {
    /// The label the panel prints for this entry.
    pub fn label(&self) -> (r: &'static str)
        ensures
            r@ == self.label_spec(),
    {
        match self {
            LibraryEntry::Queue => "Queue",
            LibraryEntry::Tracks => "Tracks",
            LibraryEntry::Albums => "Albums",
            LibraryEntry::Artists => "Artists",
            LibraryEntry::Podcasts => "Podcasts",
        }
    }

    pub open spec fn label_spec(&self) -> Seq<char> {
        match self {
            LibraryEntry::Queue => "Queue"@,
            LibraryEntry::Tracks => "Tracks"@,
            LibraryEntry::Albums => "Albums"@,
            LibraryEntry::Artists => "Artists"@,
            LibraryEntry::Podcasts => "Podcasts"@,
        }
    }
}

/// The order in which the panel lists the entries.
pub open spec fn library_entries() -> Seq<LibraryEntry> {
    seq![
        LibraryEntry::Queue,
        LibraryEntry::Tracks,
        LibraryEntry::Albums,
        LibraryEntry::Artists,
        LibraryEntry::Podcasts,
    ]
}

/// The library panel's content.
pub struct Library {
    pub entries: Vec<LibraryEntry>,
}

impl Library {
    pub open spec fn inv(&self) -> bool {
        self.entries@ == library_entries()
    }

    pub fn new() -> (r: Self)
        ensures
            r.inv(),
    {
        let entries = vec![
            LibraryEntry::Queue,
            LibraryEntry::Tracks,
            LibraryEntry::Albums,
            LibraryEntry::Artists,
            LibraryEntry::Podcasts,
        ];
        proof {
            assert(entries@ =~= library_entries());
        }
        Library { entries }
    }
}

} // verus!
