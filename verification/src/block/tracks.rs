//! Track lists shown in the main panel.  A `Track` carries, as plain values,
//! everything the interface reads of a song; the player service hands the
//! actual records to the caller, which converts them before anything here
//! runs.

use vstd::prelude::*;
use crate::block::Index;

verus! {

/// One song, reduced to the fields the interface displays.
#[derive(Clone, PartialEq, Eq, Debug)]
pub struct Track {
    pub id: u64,
    pub title: String,
    pub artist: String,
    pub duration_secs: u64,
}

/// Mathematical image of a `Track`.
pub ghost struct TrackV {
    pub id: u64,
    pub title: Seq<char>,
    pub artist: Seq<char>,
    pub duration_secs: u64,
}

impl View for Track {
    type V = TrackV;

    open spec fn view(&self) -> TrackV {
        TrackV {
            id: self.id,
            title: self.title@,
            artist: self.artist@,
            duration_secs: self.duration_secs,
        }
    }
}

/// The views of a whole track list.
pub open spec fn tracks_view(ts: Seq<Track>) -> Seq<TrackV> {
    ts.map_values(|t: Track| t@)
}

/// Which collection of tracks the main panel shows.
#[derive(Clone, PartialEq, Eq, Debug)]
pub enum TrackKind {
    Album(String),
    Artist(String),
    Playlist(String),
    Queue,
    All,
}

/// Mathematical image of a `TrackKind`.
pub ghost enum TrackKindV {
    Album(Seq<char>),
    Artist(Seq<char>),
    Playlist(Seq<char>),
    Queue,
    All,
}

impl View for TrackKind {
    type V = TrackKindV;

    open spec fn view(&self) -> TrackKindV {
        match self {
            TrackKind::Album(s) => TrackKindV::Album(s@),
            TrackKind::Artist(s) => TrackKindV::Artist(s@),
            TrackKind::Playlist(s) => TrackKindV::Playlist(s@),
            TrackKind::Queue => TrackKindV::Queue,
            TrackKind::All => TrackKindV::All,
        }
    }
}

/// The heading a track collection is shown under.
pub open spec fn heading_of(k: TrackKindV) -> Seq<char> {
    match k {
        TrackKindV::Album(s) => " Album "@ + s + " "@,
        TrackKindV::Artist(s) => " Artist "@ + s + " "@,
        TrackKindV::Playlist(s) => " Playlist "@ + s + " "@,
        TrackKindV::Queue => " Queue "@,
        TrackKindV::All => " Tracks "@,
    }
}

impl TrackKind {
    /// The panel heading for this collection, as the renderer prints it.
    pub fn heading(&self) -> (r: String)
        ensures
            r@ == heading_of(self@),
    {
        match self {
            TrackKind::Album(s) => String::from_str(" Album ").concat(s.as_str()).concat(" "),
            TrackKind::Artist(s) => String::from_str(" Artist ").concat(s.as_str()).concat(" "),
            TrackKind::Playlist(s) => String::from_str(" Playlist ").concat(s.as_str()).concat(" "),
            TrackKind::Queue => String::from_str(" Queue "),
            TrackKind::All => String::from_str(" Tracks "),
        }
    }
}

/// A fetched track collection, with its own fresh cursor.
pub struct Tracks {
    pub index: Index,
    pub kind: TrackKind,
    pub tracks: Vec<Track>,
}

impl Tracks {
    /// Builds the view over tracks the caller already fetched for `kind`.
    /// The cursor starts at the first entry, as every freshly constructed
    /// main view does.
    pub fn new(kind: TrackKind, tracks: Vec<Track>) -> (r: Self)
        ensures
            r.index.inner == 0,
            r.index.bound() == tracks@.len(),
            r.index.inv(),
            r.kind == kind,
            r.tracks == tracks,
    {
        let bound = tracks.len();
        Tracks { kind, index: Index::new(bound), tracks }
    }
}

/// The play queue, shown in the main panel.
pub struct Queue {
    pub index: Index,
    pub songs: Vec<Track>,
}

impl Queue {
    /// Builds the queue view over songs the caller already fetched.
    pub fn new(songs: Vec<Track>) -> (r: Self)
        ensures
            r.index.inner == 0,
            r.index.bound() == songs@.len(),
            r.index.inv(),
            r.songs == songs,
    {
        let bound = songs.len();
        Queue { index: Index::new(bound), songs }
    }
}

} // verus!
