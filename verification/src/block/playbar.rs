//! The playbar: a display-only panel showing the current song and the
//! player flags.  It is refreshed from a status snapshot the caller fetched;
//! it never takes part in focus.

use vstd::prelude::*;
use crate::block::tracks::Track;
use crate::client::Status;

verus! {

/// The playbar's content.
pub struct Playbar {
    pub song: Option<Track>,
    pub volume: u8,
    pub shuffle: bool,
    pub repeat: bool,
}

/// Mathematical image of the playbar.
#[verifier::ext_equal]
pub ghost struct PlaybarV {
    pub song: Option<crate::block::tracks::TrackV>,
    pub volume: u8,
    pub shuffle: bool,
    pub repeat: bool,
}

impl View for Playbar {
    type V = PlaybarV;

    open spec fn view(&self) -> PlaybarV {
        PlaybarV {
            song: match self.song {
                Some(t) => Some(t@),
                None => None,
            },
            volume: self.volume,
            shuffle: self.shuffle,
            repeat: self.repeat,
        }
    }
}

impl Playbar {
    /// An empty playbar, before the first status snapshot arrives.
    pub fn new() -> (r: Self)
        ensures
            r.song is None,
            r.volume == 0,
            !r.shuffle,
            !r.repeat,
    {
        Playbar { song: None, volume: 0, shuffle: false, repeat: false }
    }

    /// Rebuilds the playbar from a status snapshot and the current song.
    pub fn from_status(song: Option<Track>, status: Status) -> (r: Self)
        ensures
            r.song == song,
            r@ == spec_from_status(song, status),
    {
        Playbar { song, volume: status.volume, shuffle: status.random, repeat: status.repeat }
    }
}

/// The playbar view a status snapshot produces.
pub open spec fn spec_from_status(song: Option<Track>, status: Status) -> PlaybarV {
    PlaybarV {
        song: match song {
            Some(t) => Some(t@),
            None => None,
        },
        volume: status.volume,
        shuffle: status.random,
        repeat: status.repeat,
    }
}

} // verus!
