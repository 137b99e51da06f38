//! The whole interface state and the dispatcher: one key event in, one new
//! state and at most one request out.  `spec_handle` is the single
//! mathematical description of a processing step; `State::handle_key` is
//! proved to implement it, so a session is a pure fold of the key sequence
//! over the initial state.

use vstd::prelude::*;
use crate::block::Blocks;
use crate::block::BlocksV;
use crate::block::Blokka;
use crate::block::Index;
use crate::block::MainBlock;
use crate::block::MainV;
use crate::block::spec_active_event;
use crate::block::spec_hovered_event;
use crate::block::spec_search_event;
use crate::block::albums::Albums;
use crate::block::artists::Artists;
use crate::block::playbar::Playbar;
use crate::block::playbar::spec_from_status;
use crate::block::playlists::PlaylistTracks;
use crate::block::podcasts::Podcasts;
use crate::block::search::SearchResults;
use crate::block::tracks::Queue;
use crate::block::tracks::Track;
use crate::block::tracks::TrackV;
use crate::block::tracks::Tracks;
use crate::block::tracks::tracks_view;
use crate::chunk::Chunks;
use crate::client::FetchRequest;
use crate::client::FetchRequestV;
use crate::client::PlayerCmd;
use crate::client::Status;
use crate::client::UpdateAction;
use crate::client::UpdateActionV;
use crate::event::Key;
use crate::key::Cmd;
use crate::key::KeyBindings;
use crate::key::default_bindings;
use crate::key::spec_lookup;

verus! {

/// The one shared state of a session: the panels under their focus graph,
/// the layout strips, and the key table.
pub struct State {
    pub blocks: Blocks,
    pub chunks: Chunks,
    pub keys: KeyBindings,
}

/// Mathematical image of the whole state.
#[verifier::ext_equal]
pub ghost struct StateV {
    pub blocks: BlocksV,
    pub top_shown: bool,
    pub bottom_shown: bool,
    pub bindings: Seq<(Key, Cmd)>,
}

impl View for State {
    type V = StateV;

    open spec fn view(&self) -> StateV {
        StateV {
            blocks: self.blocks@,
            top_shown: self.chunks.top.show,
            bottom_shown: self.chunks.bottom.show,
            bindings: self.keys@,
        }
    }
}

/// What one bound command does: the interface commands change focus or the
/// layout locally, the player commands leave the state alone and are handed
/// out; commands without a behavior are absorbed.
pub open spec fn spec_execute(s: StateV, cmd: Cmd) -> (StateV, UpdateActionV) {
    match cmd {
        Cmd::ToPlaylists => (StateV {
            blocks: BlocksV { focus: s.blocks.focus.spec_set_active(Blokka::Playlists), ..s.blocks },
            ..s
        }, UpdateActionV::Nothing),
        Cmd::GoSearch => (StateV {
            blocks: BlocksV { focus: s.blocks.focus.spec_set_active(Blokka::Search), ..s.blocks },
            ..s
        }, UpdateActionV::Nothing),
        Cmd::ToQueue => (s, UpdateActionV::Fetch(FetchRequestV::Queue)),
        Cmd::ToggleTop => (StateV { top_shown: !s.top_shown, ..s }, UpdateActionV::Nothing),
        Cmd::TogglePlayback => (s, UpdateActionV::Player(PlayerCmd::TogglePlayback)),
        Cmd::DecreaseVolume => (s, UpdateActionV::Player(PlayerCmd::SetVolume(-5i8))),
        Cmd::IncreaseVolume => (s, UpdateActionV::Player(PlayerCmd::SetVolume(5i8))),
        Cmd::NextTrack => (s, UpdateActionV::Player(PlayerCmd::NextTrack)),
        Cmd::PreviousTrack => (s, UpdateActionV::Player(PlayerCmd::PreviousTrack)),
        Cmd::SeekForwards => (s, UpdateActionV::Player(PlayerCmd::SeekForwards(10))),
        Cmd::SeekBackwards => (s, UpdateActionV::Player(PlayerCmd::SeekBackwards(10))),
        Cmd::Shuffle => (s, UpdateActionV::Player(PlayerCmd::ToggleShuffle)),
        Cmd::Repeat => (s, UpdateActionV::Player(PlayerCmd::ToggleRepeat)),
        _ => (s, UpdateActionV::Nothing),
    }
}

/// Whether editing consumes this key exclusively: the printable keys, the
/// one that shortens the buffer, and the one that submits it.
pub open spec fn editing_consumes(key: Key) -> bool {
    (key matches Key::Char(_)) || key == Key::Backspace || key == Key::Enter
}

/// One processing step: the new state and what the caller must now do.
/// Precedence per key: the session-ending key; then, while the search panel
/// edits, its text keys; then escape, which always deactivates; then the
/// bound commands; then the active panel's own keys; then hover navigation.
pub open spec fn spec_handle(s: StateV, key: Key) -> (StateV, UpdateActionV) {
    if key == Key::Ctrl('c') {
        (s, UpdateActionV::Quit)
    } else if s.blocks.focus.editing() && editing_consumes(key) {
        let (b, a) = spec_search_event(s.blocks, key);
        (StateV { blocks: b, ..s }, a)
    } else if key == Key::Esc {
        (StateV {
            blocks: BlocksV { focus: s.blocks.focus.spec_cancel(), ..s.blocks },
            ..s
        }, UpdateActionV::Nothing)
    } else {
        match spec_lookup(s.bindings, key) {
            Some(cmd) => spec_execute(s, cmd),
            None => match s.blocks.focus.active {
                Some(_) => {
                    let (b, a) = spec_active_event(s.blocks, key);
                    (StateV { blocks: b, ..s }, a)
                },
                None => (StateV { blocks: spec_hovered_event(s.blocks, key), ..s },
                    UpdateActionV::Nothing),
            },
        }
    }
}

/// The main view a resolved fetch constructs, over the tracks it brought.
/// Every view starts with its cursor on the first row.
pub open spec fn main_of_request(req: FetchRequestV, tracks: Seq<TrackV>) -> MainV {
    match req {
        FetchRequestV::Queue => MainV::Queue {
            tracks,
            index: Index { inner: 0, max: tracks.len() as usize },
        },
        FetchRequestV::Tracks(kind) => MainV::Tracks {
            kind,
            tracks,
            index: Index { inner: 0, max: tracks.len() as usize },
        },
        FetchRequestV::Albums(kind) => MainV::Albums { kind, index: Index { inner: 0, max: 0 } },
        FetchRequestV::Artists => MainV::Artists { index: Index { inner: 0, max: 0 } },
        FetchRequestV::Podcasts => MainV::Podcasts { index: Index { inner: 0, max: 0 } },
        FetchRequestV::Search(query) => MainV::SearchResults {
            query,
            tracks,
            index: Index { inner: 0, max: tracks.len() as usize },
        },
        FetchRequestV::PlaylistTracks(name) => MainV::PlaylistTracks {
            name,
            tracks,
            index: Index { inner: 0, max: tracks.len() as usize },
        },
    }
}

/// What a resolved fetch does to the state.  Success swaps the whole main
/// view in and focuses it; failure changes nothing but the error panel, so
/// a failed search leaves the search panel editing and the previous content
/// standing.
pub open spec fn spec_resolve(
    s: StateV,
    req: FetchRequestV,
    outcome: Result<Seq<TrackV>, Seq<char>>,
) -> StateV {
    match outcome {
        Ok(tracks) => StateV {
            blocks: BlocksV {
                main: main_of_request(req, tracks),
                focus: s.blocks.focus.spec_set_active(Blokka::Main),
                ..s.blocks
            },
            ..s
        },
        Err(msg) => StateV { blocks: BlocksV { error: Some(msg), ..s.blocks }, ..s },
    }
}

impl State {
    /// Well-formedness of the whole state.
    pub open spec fn inv(&self) -> bool {
        self.blocks.inv()
    }

    /// The startup state, over the playlist names and the queue the caller
    /// fetched once at startup.
    pub fn new(playlist_names: Vec<String>, queue: Vec<Track>) -> (r: Self)
        ensures
            r.inv(),
            r@.blocks.focus.hovered == Blokka::Library,
            r@.blocks.focus.active is None,
            r@.blocks.focus.history == Seq::<Blokka>::empty(),
            r@.blocks.query == Seq::<char>::empty(),
            r@.blocks.cursor == 0,
            r@.blocks.sort_asc,
            r@.blocks.library_index.inner == 0,
            r@.blocks.playlists == crate::block::playlists::names_view(playlist_names@),
            r@.blocks.playlists_index.inner == 0,
            r@.blocks.playbar.song is None,
            r@.top_shown,
            r@.bottom_shown,
            r@.bindings == default_bindings(),
            r@.blocks.main matches MainV::Queue { tracks, index } && tracks == tracks_view(
                queue@,
            ) && index.inner == 0,
            r@.blocks.error is None,
    {
        State {
            blocks: Blocks::new(playlist_names, queue),
            chunks: Chunks::new(),
            keys: KeyBindings::default(),
        }
    }

    /// Process one key: mutate the state as `spec_handle` says and hand back
    /// what the caller must now do.
    pub fn handle_key(&mut self, key: Key) -> (a: UpdateAction)
        requires
            old(self).inv(),
        ensures
            final(self).inv(),
            (final(self)@, a@) == spec_handle(old(self)@, key),
    {
        if key == Key::Ctrl('c') {
            return UpdateAction::Quit;
        }
        let editing = self.blocks.is_active(Blokka::Search);
        let consumes = match key {
            Key::Char(_) => true,
            Key::Backspace => true,
            Key::Enter => true,
            _ => false,
        };
        if editing && consumes {
            return self.blocks.search_event(key);
        }
        if key == Key::Esc {
            self.blocks.cancel();
            return UpdateAction::Nothing;
        }
        match self.keys.get(key) {
            Some(cmd) => KeyBindings::execute(self, cmd),
            None => {
                let is_active = match self.blocks.active {
                    Some(_) => true,
                    None => false,
                };
                if is_active {
                    self.blocks.active_event(key)
                } else {
                    self.blocks.hovered_event(key);
                    UpdateAction::Nothing
                }
            },
        }
    }

    /// Report back what the player answered to a fetch.  On success the new
    /// main view replaces the old one whole and takes focus; on failure
    /// nothing changes but the error panel.
    pub fn resolve_fetch(&mut self, req: FetchRequest, outcome: Result<Vec<Track>, String>)
        requires
            old(self).inv(),
        ensures
            final(self).inv(),
            final(self)@ == spec_resolve(old(self)@, req@, match outcome {
                Ok(tracks) => Ok(tracks_view(tracks@)),
                Err(msg) => Err(msg@),
            }),
    {
        match outcome {
            Ok(tracks) => {
                let blk = match req {
                    FetchRequest::Queue => MainBlock::Queue(Queue::new(tracks)),
                    FetchRequest::Tracks(kind) => MainBlock::Tracks(Tracks::new(kind, tracks)),
                    FetchRequest::Albums(kind) => MainBlock::Albums(Albums::new(kind)),
                    FetchRequest::Artists => MainBlock::Artists(Artists::new()),
                    FetchRequest::Podcasts => MainBlock::Podcasts(Podcasts::new()),
                    FetchRequest::Search(query) => MainBlock::SearchResults(
                        SearchResults::new(query, tracks),
                    ),
                    FetchRequest::PlaylistTracks(name) => MainBlock::PlaylistTracks(
                        PlaylistTracks::new(name, tracks),
                    ),
                };
                self.blocks.set_main(blk);
            },
            Err(msg) => {
                self.blocks.show_error(msg);
            },
        }
    }

    /// Report back what the player answered to a forwarded command: a
    /// failure shows in the error panel, success changes nothing.
    pub fn resolve_player_result(&mut self, outcome: Result<(), String>)
        requires
            old(self).inv(),
        ensures
            final(self).inv(),
            outcome matches Ok(_) ==> final(self)@ == old(self)@,
            outcome matches Err(msg) ==> final(self)@ == (StateV {
                blocks: BlocksV { error: Some(msg@), ..old(self)@.blocks },
                ..old(self)@
            }),
    {
        match outcome {
            Ok(_) => (),
            Err(msg) => self.blocks.show_error(msg),
        }
    }

    /// Dismiss the transient error message.
    pub fn dismiss_error(&mut self)
        requires
            old(self).inv(),
        ensures
            final(self).inv(),
            final(self)@ == (StateV {
                blocks: BlocksV { error: None, ..old(self)@.blocks },
                ..old(self)@
            }),
    {
        self.blocks.dismiss_error();
    }

    /// Refresh the playbar from a pushed change notification.  Display only:
    /// the focus state is untouched.
    pub fn update_playbar(&mut self, song: Option<Track>, status: Status)
        requires
            old(self).inv(),
        ensures
            final(self).inv(),
            final(self)@ == (StateV {
                blocks: BlocksV {
                    playbar: spec_from_status(song, status),
                    ..old(self)@.blocks
                },
                ..old(self)@
            }),
    {
        self.blocks.playbar.inner = Playbar::from_status(song, status);
    }
}

} // verus!
