//! The contract towards the player service, as plain values.  The library
//! never talks to the service itself: it hands one of these request values
//! out, and the caller reports back what the service answered.  The
//! decisions behind the playback commands — how a volume step clamps, which
//! command resumes playback — are ordinary verified functions here.

use vstd::prelude::*;
use crate::block::tracks::TrackKind;
use crate::block::tracks::TrackKindV;
use crate::block::albums::AlbumKind;
use crate::block::albums::AlbumKindV;

verus! {

/// The player's reported playback state.
#[derive(Copy, Clone, PartialEq, Eq, Structural, Debug)]
pub enum PlayState {
    Stopped,
    Playing,
    Paused,
}

/// A status snapshot of the player, reduced to the fields the interface
/// reads.
#[derive(Copy, Clone, Debug)]
pub struct Status {
    pub state: PlayState,
    pub volume: u8,
    pub random: bool,
    pub repeat: bool,
}

/// One playback command, forwarded verbatim to the player service and never
/// retried.
#[derive(Copy, Clone, PartialEq, Eq, Structural, Debug)]
pub enum PlayerCmd {
    TogglePlayback,
    SetVolume(i8),
    NextTrack,
    PreviousTrack,
    SeekForwards(u64),
    SeekBackwards(u64),
    ToggleShuffle,
    ToggleRepeat,
    PlaySong(u64),
    ClearQueue,
}

/// What the player must do right now to toggle playback, given its state:
/// pause it, or resume the current song.
#[derive(Copy, Clone, PartialEq, Eq, Structural, Debug)]
pub enum ToggleAction {
    Pause,
    PlayCurrent,
}

/// Picks the command that toggles playback: a stopped or playing player is
/// paused, a paused one resumes the current song.
pub fn toggle_playback_action(state: PlayState) -> (r: ToggleAction)
    ensures
        r == (match state {
            PlayState::Stopped => ToggleAction::Pause,
            PlayState::Playing => ToggleAction::Pause,
            PlayState::Paused => ToggleAction::PlayCurrent,
        }),
{
    match state {
        PlayState::Stopped => ToggleAction::Pause,
        PlayState::Playing => ToggleAction::Pause,
        PlayState::Paused => ToggleAction::PlayCurrent,
    }
}

/// Applies a signed volume step to the current volume, clamped to the
/// percent scale.
pub fn clamp_volume(current: u8, delta: i8) -> (r: u8)
    requires
        current <= 100,
    ensures
        r == if current + delta < 0 {
            0int
        } else if current + delta > 100 {
            100int
        } else {
            current + delta
        },
        r <= 100,
{
    let next: i16 = current as i16 + delta as i16;
    if next < 0 {
        0
    } else if next > 100 {
        100
    } else {
        next as u8
    }
}

/// One fetch from the player service.  Each request resolves, with the
/// tracks it asked for or with an error, before the next key is processed.
#[derive(Clone, PartialEq, Eq, Debug)]
pub enum FetchRequest {
    Queue,
    Tracks(TrackKind),
    Albums(AlbumKind),
    Artists,
    Podcasts,
    Search(String),
    PlaylistTracks(String),
}

/// Mathematical image of a `FetchRequest`.
pub ghost enum FetchRequestV {
    Queue,
    Tracks(TrackKindV),
    Albums(AlbumKindV),
    Artists,
    Podcasts,
    Search(Seq<char>),
    PlaylistTracks(Seq<char>),
}

impl View for FetchRequest {
    type V = FetchRequestV;

    open spec fn view(&self) -> FetchRequestV {
        match self {
            FetchRequest::Queue => FetchRequestV::Queue,
            FetchRequest::Tracks(k) => FetchRequestV::Tracks(k@),
            FetchRequest::Albums(k) => FetchRequestV::Albums(k@),
            FetchRequest::Artists => FetchRequestV::Artists,
            FetchRequest::Podcasts => FetchRequestV::Podcasts,
            FetchRequest::Search(q) => FetchRequestV::Search(q@),
            FetchRequest::PlaylistTracks(n) => FetchRequestV::PlaylistTracks(n@),
        }
    }
}

/// Everything one processed key may oblige the caller to do: nothing,
/// forward one playback command, run one fetch and report it back, or end
/// the session.
#[derive(Clone, PartialEq, Eq, Debug)]
pub enum UpdateAction {
    Nothing,
    Player(PlayerCmd),
    Fetch(FetchRequest),
    Quit,
}

/// Mathematical image of an `UpdateAction`.
pub ghost enum UpdateActionV {
    Nothing,
    Player(PlayerCmd),
    Fetch(FetchRequestV),
    Quit,
}

impl View for UpdateAction {
    type V = UpdateActionV;

    open spec fn view(&self) -> UpdateActionV {
        match self {
            UpdateAction::Nothing => UpdateActionV::Nothing,
            UpdateAction::Player(c) => UpdateActionV::Player(*c),
            UpdateAction::Fetch(f) => UpdateActionV::Fetch(f@),
            UpdateAction::Quit => UpdateActionV::Quit,
        }
    }
}

} // verus!
