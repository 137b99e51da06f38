//! The playlists panel and the main view a playlist selection produces.
//! Playlist names arrive as plain strings; fetching them is the caller's
//! business.

use vstd::prelude::*;
use crate::block::Index;
use crate::block::tracks::Track;

verus! {

/// The playlists panel's content: the names the player service reported.
pub struct Playlists {
    pub entries: Vec<String>,
}

impl Playlists {
    pub fn new(entries: Vec<String>) -> (r: Self)
        ensures
            r.entries == entries,
    {
        Playlists { entries }
    }
}

/// The views of the playlist names.
pub open spec fn names_view(ns: Seq<String>) -> Seq<Seq<char>> {
    ns.map_values(|n: String| n@)
}

/// The tracks of one playlist, shown in the main panel.
pub struct PlaylistTracks {
    pub index: Index,
    pub name: String,
    pub tracks: Vec<Track>,
}

impl PlaylistTracks {
    /// Builds the view over tracks the caller already fetched for the named
    /// playlist, with a fresh cursor.
    pub fn new(name: String, tracks: Vec<Track>) -> (r: Self)
        ensures
            r.index.inner == 0,
            r.index.bound() == tracks@.len(),
            r.index.inv(),
            r.name == name,
            r.tracks == tracks,
    {
        let bound = tracks.len();
        PlaylistTracks { index: Index::new(bound), name, tracks }
    }
}

} // verus!
