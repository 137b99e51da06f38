//! The fixed screen regions the panels are laid out in, and which region a
//! panel lives in.  The geometry itself — splitting the terminal into
//! rectangles — belongs to the renderer; here a region is only a name and a
//! visibility flag.

use vstd::prelude::*;
use crate::block::Blokka;

verus! {

/// The screen regions, named after their place in the layout.
#[derive(Copy, Clone, PartialEq, Eq, Structural, Debug)]
pub enum BlockKind {
    TopLeft,
    TopRight,
    LeftTop,
    LeftBottom,
    Bottom,
    Centre,
}

/// The region each panel is drawn in.  The error panel pops up over the
/// centre, and the empty placeholder is likewise drawn there.
pub open spec fn spec_region_of(b: Blokka) -> BlockKind {
    match b {
        Blokka::Search => BlockKind::TopLeft,
        Blokka::Sort => BlockKind::TopRight,
        Blokka::Library => BlockKind::LeftTop,
        Blokka::Playlists => BlockKind::LeftBottom,
        Blokka::Playbar => BlockKind::Bottom,
        Blokka::Error => BlockKind::Centre,
        Blokka::Empty => BlockKind::Centre,
        Blokka::Main => BlockKind::Centre,
    }
}

/// Where on screen a panel is drawn.
pub fn region_of(b: Blokka) -> (r: BlockKind)
    ensures
        r == spec_region_of(b),
{
    match b {
        Blokka::Search => BlockKind::TopLeft,
        Blokka::Sort => BlockKind::TopRight,
        Blokka::Library => BlockKind::LeftTop,
        Blokka::Playlists => BlockKind::LeftBottom,
        Blokka::Playbar => BlockKind::Bottom,
        Blokka::Error => BlockKind::Centre,
        Blokka::Empty => BlockKind::Centre,
        Blokka::Main => BlockKind::Centre,
    }
}

/// The top strip of the screen: search and sort.
pub struct Top {}

/// The bottom strip of the screen: the playbar.
pub struct Bottom {}

/// One region of the screen and whether it is currently shown.
pub struct Chunk<T> {
    pub show: bool,
    pub inner: T,
}

impl<T> Chunk<T> {
    pub fn new(inner: T) -> (r: Self)
        ensures
            r.show,
            r.inner == inner,
    {
        Chunk { show: true, inner }
    }
}

/// The toggleable strips of the layout.  The centre region is always shown,
/// so it carries no flag.
pub struct Chunks {
    pub top: Chunk<Top>,
    pub bottom: Chunk<Bottom>,
}

impl Chunks {
    pub fn new() -> (r: Self)
        ensures
            r.top.show,
            r.bottom.show,
    {
        Chunks { top: Chunk::new(Top {}), bottom: Chunk::new(Bottom {}) }
    }

    /// Show or hide the top strip.
    pub fn toggle_top(&mut self)
        ensures
            final(self).top.show == !old(self).top.show,
            final(self).bottom == old(self).bottom,
    {
        self.top.show = !self.top.show;
    }
}

} // verus!
