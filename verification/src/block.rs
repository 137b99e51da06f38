//! Panels of the interface and the focus graph that routes input between
//! them.  `Blokka` names a focusable region, `Index` is the bounded cursor
//! every list panel carries, and `Blocks` owns the panels together with the
//! hovered/active state and the bounded hover history.
//!
//! Every transition is written twice: once as a spec function over the
//! mathematical image of the state, once as executable code proved to match
//! it.  Replaying a key sequence therefore depends on nothing but the state
//! it starts from.

pub mod albums;
pub mod artists;
pub mod library;
pub mod playbar;
pub mod playlists;
pub mod podcasts;
pub mod search;
pub mod sort;
pub mod tracks;

use vstd::prelude::*;
use std::collections::VecDeque;
use crate::event::Key;
use crate::client::FetchRequest;
use crate::client::FetchRequestV;
use crate::client::PlayerCmd;
use crate::client::UpdateAction;
use crate::client::UpdateActionV;
use albums::Albums;
use albums::AlbumKind;
use albums::AlbumKindV;
use artists::Artists;
use library::Library;
use library::LibraryEntry;
use library::library_entries;
use playbar::Playbar;
use playbar::PlaybarV;
use playlists::Playlists;
use playlists::PlaylistTracks;
use playlists::names_view;
use podcasts::Podcasts;
use search::Search;
use search::SearchResults;
use search::query_capacity;
use sort::Sort;
use tracks::Queue;
use tracks::Track;
use tracks::Tracks;
use tracks::TrackKind;
use tracks::TrackKindV;
use tracks::TrackV;
use tracks::tracks_view;

verus! {

/// Identity of a focusable region of the screen.
#[derive(Copy, Clone, PartialEq, Eq, Structural, Debug, Hash)]
pub enum Blokka {
    Search,
    Sort,
    Library,
    Playlists,
    Playbar,
    Error,
    Empty,
    Main,
}

/// A bounded cursor over a list of `max` entries.  The position always stays
/// inside `[0, max-1]`, or at `0` when the list is empty; stepping past
/// either end is silently absorbed.
#[derive(Copy, Clone, PartialEq, Eq, Structural, Debug)]
pub struct Index {
    pub inner: usize,
    pub max: usize,
}

impl Index {
    /// Number of entries the cursor ranges over.
    pub open spec fn bound(self) -> usize {
        self.max
    }

    /// The cursor invariant: in range, or pinned at zero for an empty list.
    pub open spec fn inv(self) -> bool {
        if self.bound() == 0 {
            self.inner == 0
        } else {
            self.inner < self.bound()
        }
    }

    /// Where one step back lands: the previous entry, or the first.
    pub open spec fn spec_dec(self) -> Index {
        if self.inner > 0 {
            Index { inner: (self.inner - 1) as usize, max: self.max }
        } else {
            self
        }
    }

    /// Where one step forward lands: the next entry, or wherever the cursor
    /// is once the last entry is reached.
    pub open spec fn spec_inc(self) -> Index {
        if self.inner + 1 < self.bound() {
            Index { inner: (self.inner + 1) as usize, max: self.max }
        } else {
            self
        }
    }

    pub fn new(max: usize) -> (r: Self)
        ensures
            r.inner == 0,
            r.bound() == max,
            r.inv(),
    {
        Index { inner: 0, max }
    }

    /// Step one entry back, stopping at the first one.
    pub fn dec(&mut self)
        ensures
            *final(self) == old(self).spec_dec(),
            old(self).inv() ==> final(self).inv(),
    {
        if self.inner > 0 {
            self.inner -= 1;
        }
    }

    /// Step one entry forward, stopping at the last one.
    pub fn inc(&mut self)
        requires
            old(self).inv(),
        ensures
            *final(self) == old(self).spec_inc(),
            final(self).inv(),
    {
        if self.inner + 1 < self.max {
            self.inner += 1;
        }
    }
}

/// A panel without a cursor of its own.
pub struct StandardBlock<T> {
    pub inner: T,
}

/// A panel paired with the cursor over its entries.
pub struct IndexedBlock<T> {
    pub index: Index,
    pub inner: T,
}

impl IndexedBlock<Library> {
    /// The library panel: its five fixed entries under a cursor.
    pub fn new() -> (r: Self)
        ensures
            r.inner.inv(),
            r.index.inv(),
            r.index.inner == 0,
            r.index.bound() == library_entries().len(),
    {
        IndexedBlock { index: Index::new(5), inner: Library::new() }
    }
}

impl IndexedBlock<Playlists> {
    /// The playlists panel over the names the caller fetched.
    pub fn new(entries: Vec<String>) -> (r: Self)
        ensures
            r.inner.entries == entries,
            r.index.inv(),
            r.index.inner == 0,
            r.index.bound() == entries@.len(),
    {
        let bound = entries.len();
        IndexedBlock { index: Index::new(bound), inner: Playlists::new(entries) }
    }
}

impl IndexedBlock<Sort> {
    /// The sort panel: two fixed orderings under a cursor.
    pub fn new() -> (r: Self)
        ensures
            r.inner.inv(),
            r.inner.asc,
            r.index.inv(),
            r.index.inner == 0,
            r.index.bound() == 2,
    {
        IndexedBlock { index: Index::new(2), inner: Sort::new() }
    }
}

/// The content of the main panel: exactly one of the view kinds, each
/// carrying the data and the cursor it needs.
pub enum MainBlock {
    Queue(Queue),
    Tracks(Tracks),
    Albums(Albums),
    Artists(Artists),
    Podcasts(Podcasts),
    SearchResults(SearchResults),
    PlaylistTracks(PlaylistTracks),
}

/// Mathematical image of a `MainBlock`.
#[verifier::ext_equal]
#[allow(inconsistent_fields)]
pub ghost enum MainV {
    Queue { tracks: Seq<TrackV>, index: Index },
    Tracks { kind: TrackKindV, tracks: Seq<TrackV>, index: Index },
    Albums { kind: AlbumKindV, index: Index },
    Artists { index: Index },
    Podcasts { index: Index },
    SearchResults { query: Seq<char>, tracks: Seq<TrackV>, index: Index },
    PlaylistTracks { name: Seq<char>, tracks: Seq<TrackV>, index: Index },
}

impl View for MainBlock {
    type V = MainV;

    open spec fn view(&self) -> MainV {
        match self {
            MainBlock::Queue(q) => MainV::Queue { tracks: tracks_view(q.songs@), index: q.index },
            MainBlock::Tracks(t) => MainV::Tracks {
                kind: t.kind@,
                tracks: tracks_view(t.tracks@),
                index: t.index,
            },
            MainBlock::Albums(a) => MainV::Albums { kind: a.kind@, index: a.index },
            MainBlock::Artists(a) => MainV::Artists { index: a.index },
            MainBlock::Podcasts(p) => MainV::Podcasts { index: p.index },
            MainBlock::SearchResults(s) => MainV::SearchResults {
                query: s.query@,
                tracks: tracks_view(s.songs@),
                index: s.index,
            },
            MainBlock::PlaylistTracks(p) => MainV::PlaylistTracks {
                name: p.name@,
                tracks: tracks_view(p.tracks@),
                index: p.index,
            },
        }
    }
}

impl MainV {
    /// The cursor of whichever view is shown.
    pub open spec fn index(self) -> Index {
        match self {
            MainV::Queue { index, .. } => index,
            MainV::Tracks { index, .. } => index,
            MainV::Albums { index, .. } => index,
            MainV::Artists { index } => index,
            MainV::Podcasts { index } => index,
            MainV::SearchResults { index, .. } => index,
            MainV::PlaylistTracks { index, .. } => index,
        }
    }

    /// The same view with its cursor replaced.
    pub open spec fn with_index(self, i: Index) -> MainV {
        match self {
            MainV::Queue { tracks, .. } => MainV::Queue { tracks, index: i },
            MainV::Tracks { kind, tracks, .. } => MainV::Tracks { kind, tracks, index: i },
            MainV::Albums { kind, .. } => MainV::Albums { kind, index: i },
            MainV::Artists { .. } => MainV::Artists { index: i },
            MainV::Podcasts { .. } => MainV::Podcasts { index: i },
            MainV::SearchResults { query, tracks, .. } => MainV::SearchResults {
                query,
                tracks,
                index: i,
            },
            MainV::PlaylistTracks { name, tracks, .. } => MainV::PlaylistTracks {
                name,
                tracks,
                index: i,
            },
        }
    }

    /// The rows of whichever view is shown.
    pub open spec fn tracks(self) -> Seq<TrackV> {
        match self {
            MainV::Queue { tracks, .. } => tracks,
            MainV::Tracks { tracks, .. } => tracks,
            MainV::Albums { .. } => Seq::empty(),
            MainV::Artists { .. } => Seq::empty(),
            MainV::Podcasts { .. } => Seq::empty(),
            MainV::SearchResults { tracks, .. } => tracks,
            MainV::PlaylistTracks { tracks, .. } => tracks,
        }
    }

    /// A well-formed view: the cursor in range of its rows.
    pub open spec fn inv(self) -> bool {
        self.index().inv() && self.index().bound() == self.tracks().len()
    }
}

/// Every list-bearing main view exposes its cursor.
pub trait Main {
    spec fn index_spec(&self) -> Index;

    /// The current cursor of this view.
    fn index(&self) -> (r: Index)
        ensures
            r == self.index_spec(),
    ;
}

impl Main for Queue {
    open spec fn index_spec(&self) -> Index {
        self.index
    }

    fn index(&self) -> (r: Index) {
        self.index
    }
}

impl Main for Tracks {
    open spec fn index_spec(&self) -> Index {
        self.index
    }

    fn index(&self) -> (r: Index) {
        self.index
    }
}

impl Main for Albums {
    open spec fn index_spec(&self) -> Index {
        self.index
    }

    fn index(&self) -> (r: Index) {
        self.index
    }
}

impl Main for Artists {
    open spec fn index_spec(&self) -> Index {
        self.index
    }

    fn index(&self) -> (r: Index) {
        self.index
    }
}

impl Main for Podcasts {
    open spec fn index_spec(&self) -> Index {
        self.index
    }

    fn index(&self) -> (r: Index) {
        self.index
    }
}

impl Main for SearchResults {
    open spec fn index_spec(&self) -> Index {
        self.index
    }

    fn index(&self) -> (r: Index) {
        self.index
    }
}

impl Main for PlaylistTracks {
    open spec fn index_spec(&self) -> Index {
        self.index
    }

    fn index(&self) -> (r: Index) {
        self.index
    }
}

impl Main for MainBlock {
    open spec fn index_spec(&self) -> Index {
        self@.index()
    }

    fn index(&self) -> (r: Index) {
        match self {
            MainBlock::Queue(q) => q.index,
            MainBlock::Tracks(t) => t.index,
            MainBlock::Albums(a) => a.index,
            MainBlock::Artists(a) => a.index,
            MainBlock::Podcasts(p) => p.index,
            MainBlock::SearchResults(s) => s.index,
            MainBlock::PlaylistTracks(p) => p.index,
        }
    }
}

impl MainBlock {
    /// Move this view's cursor one row back.
    pub fn index_dec(&mut self)
        ensures
            final(self)@ == old(self)@.with_index(old(self)@.index().spec_dec()),
    {
        match self {
            MainBlock::Queue(q) => q.index.dec(),
            MainBlock::Tracks(t) => t.index.dec(),
            MainBlock::Albums(a) => a.index.dec(),
            MainBlock::Artists(a) => a.index.dec(),
            MainBlock::Podcasts(p) => p.index.dec(),
            MainBlock::SearchResults(s) => s.index.dec(),
            MainBlock::PlaylistTracks(p) => p.index.dec(),
        }
    }

    /// Move this view's cursor one row forward.
    pub fn index_inc(&mut self)
        requires
            old(self)@.index().inv(),
        ensures
            final(self)@ == old(self)@.with_index(old(self)@.index().spec_inc()),
    {
        match self {
            MainBlock::Queue(q) => q.index.inc(),
            MainBlock::Tracks(t) => t.index.inc(),
            MainBlock::Albums(a) => a.index.inc(),
            MainBlock::Artists(a) => a.index.inc(),
            MainBlock::Podcasts(p) => p.index.inc(),
            MainBlock::SearchResults(s) => s.index.inc(),
            MainBlock::PlaylistTracks(p) => p.index.inc(),
        }
    }

    /// The row id the cursor rests on, if the view has rows.
    pub fn selected_id(&self) -> (r: Option<u64>)
        requires
            self@.inv(),
        ensures
            r == (if self@.tracks().len() > 0 {
                Some(self@.tracks()[self@.index().inner as int].id)
            } else {
                None::<u64>
            }),
    {
        match self {
            MainBlock::Queue(q) => {
                if q.songs.len() > 0 {
                    Some(q.songs[q.index.inner].id)
                } else {
                    None
                }
            },
            MainBlock::Tracks(t) => {
                if t.tracks.len() > 0 {
                    Some(t.tracks[t.index.inner].id)
                } else {
                    None
                }
            },
            MainBlock::Albums(_) => None,
            MainBlock::Artists(_) => None,
            MainBlock::Podcasts(_) => None,
            MainBlock::SearchResults(s) => {
                if s.songs.len() > 0 {
                    Some(s.songs[s.index.inner].id)
                } else {
                    None
                }
            },
            MainBlock::PlaylistTracks(p) => {
                if p.tracks.len() > 0 {
                    Some(p.tracks[p.index.inner].id)
                } else {
                    None
                }
            },
        }
    }
}

/// A column of a track table, as the renderer prints it.
pub struct TableHeaderItem {
    pub text: &'static str,
    pub width: u16,
}

/// The four directions a hover can move in.
#[derive(Copy, Clone, PartialEq, Eq, Structural, Debug)]
pub enum Direction {
    Up,
    Down,
    Left,
    Right,
}

/// How many previously hovered panels the history keeps.
pub open spec fn history_cap() -> int {
    5
}

/// Mathematical image of the focus graph: the hovered panel, the active one
/// if any, and the hover history, most recent first.
#[verifier::ext_equal]
pub ghost struct FocusV {
    pub hovered: Blokka,
    pub active: Option<Blokka>,
    pub history: Seq<Blokka>,
}

impl FocusV {
    /// The focus invariant: the history stays within its cap, and an active
    /// panel is always the hovered one.
    pub open spec fn inv(self) -> bool {
        &&& self.history.len() <= history_cap()
        &&& (self.active matches Some(a) ==> self.hovered == a)
    }

    /// Whether keys are being captured as text: only the search panel edits.
    pub open spec fn editing(self) -> bool {
        self.active == Some(Blokka::Search)
    }

    /// Hover a panel: the previous hovered panel goes to the front of the
    /// history, which is then cut back to its cap.
    pub open spec fn spec_set_hover(self, blk: Blokka) -> FocusV {
        let pushed = seq![self.hovered] + self.history;
        let cut = if pushed.len() <= history_cap() {
            pushed
        } else {
            pushed.take(history_cap())
        };
        FocusV { hovered: blk, active: self.active, history: cut }
    }

    /// Activate a panel, hovering it at the same time.
    pub open spec fn spec_set_active(self, blk: Blokka) -> FocusV {
        FocusV { hovered: blk, active: Some(blk), history: self.history }
    }

    /// Activate whatever is hovered.
    pub open spec fn spec_confirm(self) -> FocusV {
        self.spec_set_active(self.hovered)
    }

    /// Deactivate: back to hovering, the hovered panel unchanged.
    pub open spec fn spec_cancel(self) -> FocusV {
        FocusV { hovered: self.hovered, active: None, history: self.history }
    }
}

/// The fixed neighbor table, mirroring the on-screen layout: search and sort
/// on top, library over playlists on the left, the main panel beside them,
/// the playbar below.  `None` where no neighbor is configured.
pub open spec fn neighbor_of(p: Blokka, d: Direction) -> Option<Blokka> {
    match (p, d) {
        (Blokka::Search, Direction::Right) => Some(Blokka::Sort),
        (Blokka::Sort, Direction::Left) => Some(Blokka::Search),
        (Blokka::Sort, Direction::Down) => Some(Blokka::Main),
        (Blokka::Library, Direction::Up) => Some(Blokka::Search),
        (Blokka::Library, Direction::Down) => Some(Blokka::Playlists),
        (Blokka::Library, Direction::Right) => Some(Blokka::Main),
        (Blokka::Playlists, Direction::Up) => Some(Blokka::Library),
        (Blokka::Playlists, Direction::Right) => Some(Blokka::Main),
        (Blokka::Main, Direction::Up) => Some(Blokka::Search),
        (Blokka::Main, Direction::Right) => Some(Blokka::Sort),
        _ => None,
    }
}

/// Whether a hover move out of `p` towards `d` recalls the hover history
/// instead of reading the neighbor table: downward out of search, and
/// leftward out of the main panel, both return to whatever was browsed last.
pub open spec fn recalls_history(p: Blokka, d: Direction) -> bool {
    ||| (p == Blokka::Search && d == Direction::Down)
    ||| (p == Blokka::Main && d == Direction::Left)
}

/// Whether a hover move out of `p` towards `d` changes anything at all.
pub open spec fn has_move(p: Blokka, d: Direction) -> bool {
    recalls_history(p, d) || neighbor_of(p, d) is Some
}

/// The panels a downward move out of search may recall: the places content
/// is browsed in.
pub open spec fn recall_from_search(b: Blokka) -> bool {
    b == Blokka::Library || b == Blokka::Main
}

/// The panels a leftward move out of the main panel may recall: the two
/// list panels on the left.
pub open spec fn recall_from_main(b: Blokka) -> bool {
    b == Blokka::Library || b == Blokka::Playlists
}

/// The most recent history entry satisfying `f`, if any.
pub open spec fn first_recall(h: Seq<Blokka>, f: spec_fn(Blokka) -> bool) -> Option<Blokka>
    decreases h.len(),
{
    if h.len() == 0 {
        None
    } else if f(h[0]) {
        Some(h[0])
    } else {
        first_recall(h.drop_first(), f)
    }
}

/// Where a hover move lands the whole focus state: a history recall, a
/// configured neighbor, or — with neither — exactly where it was.
pub open spec fn spec_move(s: FocusV, d: Direction) -> FocusV {
    if recalls_history(s.hovered, d) {
        let f = if s.hovered == Blokka::Search {
            |b: Blokka| recall_from_search(b)
        } else {
            |b: Blokka| recall_from_main(b)
        };
        let target = match first_recall(s.history, f) {
            Some(t) => t,
            None => Blokka::Library,
        };
        s.spec_set_hover(target)
    } else {
        match neighbor_of(s.hovered, d) {
            Some(n) => s.spec_set_hover(n),
            None => s,
        }
    }
}

/// The direction a key asks for, if it is a direction key at all.
pub open spec fn dir_of_key(k: Key) -> Option<Direction> {
    match k {
        Key::Up => Some(Direction::Up),
        Key::Down => Some(Direction::Down),
        Key::Left => Some(Direction::Left),
        Key::Right => Some(Direction::Right),
        _ => None,
    }
}

/// All the panels, the focus graph over them, and the transient error
/// message of the reserved error panel.
pub struct Blocks {
    pub search: StandardBlock<Search>,
    pub sort: IndexedBlock<Sort>,
    pub library: IndexedBlock<Library>,
    pub playlists: IndexedBlock<Playlists>,
    pub playbar: StandardBlock<Playbar>,
    pub main: MainBlock,
    pub active: Option<Blokka>,
    pub hovered: Blokka,
    pub hover_history: VecDeque<Blokka>,
    pub error: Option<String>,
}

/// Mathematical image of `Blocks`.
#[verifier::ext_equal]
pub ghost struct BlocksV {
    pub focus: FocusV,
    pub query: Seq<char>,
    pub cursor: u16,
    pub sort_asc: bool,
    pub sort_index: Index,
    pub library_index: Index,
    pub playlists: Seq<Seq<char>>,
    pub playlists_index: Index,
    pub playbar: PlaybarV,
    pub main: MainV,
    pub error: Option<Seq<char>>,
}

impl View for Blocks {
    type V = BlocksV;

    open spec fn view(&self) -> BlocksV {
        BlocksV {
            focus: FocusV {
                hovered: self.hovered,
                active: self.active,
                history: self.hover_history@,
            },
            query: self.search.inner.query@,
            cursor: self.search.inner.cursor_position,
            sort_asc: self.sort.inner.asc,
            sort_index: self.sort.index,
            library_index: self.library.index,
            playlists: names_view(self.playlists.inner.entries@),
            playlists_index: self.playlists.index,
            playbar: self.playbar.inner@,
            main: self.main@,
            error: match self.error {
                Some(ref m) => Some(m@),
                None => None,
            },
        }
    }
}

impl Blocks {
    /// Well-formedness of the whole panel set: the focus invariant, every
    /// cursor in range of the list it runs over, and the fixed panels
    /// holding exactly their fixed entries.
    pub open spec fn inv(&self) -> bool {
        &&& self@.focus.inv()
        &&& self.library.inner.inv()
        &&& self.library.index.inv()
        &&& self.library.index.bound() == library_entries().len()
        &&& self.playlists.index.inv()
        &&& self.playlists.index.bound() == self.playlists.inner.entries@.len()
        &&& self.sort.inner.inv()
        &&& self.sort.index.inv()
        &&& self.sort.index.bound() == 2
        &&& self.search.inner.inv()
        &&& self@.main.inv()
    }

    /// The startup state: library hovered, nothing active, empty history,
    /// the queue the caller fetched shown in the main panel.
    pub fn new(playlist_names: Vec<String>, queue: Vec<Track>) -> (r: Self)
        ensures
            r.inv(),
            r@.focus == (FocusV {
                hovered: Blokka::Library,
                active: None,
                history: Seq::empty(),
            }),
            r@.query == Seq::<char>::empty(),
            r@.cursor == 0,
            r@.sort_asc,
            r@.library_index.inner == 0,
            r@.playlists == names_view(playlist_names@),
            r@.playlists_index.inner == 0,
            r@.main matches MainV::Queue { tracks, index } && tracks == tracks_view(queue@)
                && index.inner == 0,
            r@.playbar.song is None,
            r@.error is None,
    {
        Blocks {
            search: StandardBlock { inner: Search::new() },
            sort: IndexedBlock::<Sort>::new(),
            library: IndexedBlock::<Library>::new(),
            playlists: IndexedBlock::<Playlists>::new(playlist_names),
            playbar: StandardBlock { inner: Playbar::new() },
            main: MainBlock::Queue(Queue::new(queue)),
            active: None,
            hovered: Blokka::Library,
            hover_history: VecDeque::new(),
            error: None,
        }
    }

    pub fn is_hovered(&self, blk: Blokka) -> (r: bool)
        ensures
            r == (self@.focus.hovered == blk),
    {
        self.hovered == blk
    }

    pub fn is_active(&self, blk: Blokka) -> (r: bool)
        ensures
            r == (self@.focus.active == Some(blk)),
    {
        self.active == Some(blk)
    }

    /// Activate a panel, hovering it at the same time.
    pub fn set_active(&mut self, blk: Blokka)
        ensures
            final(self)@ == (BlocksV { focus: old(self)@.focus.spec_set_active(blk), ..old(self)@ }),
            old(self).inv() ==> final(self).inv(),
    {
        self.active = Some(blk);
        self.hovered = blk;
    }

    /// Hover a panel, remembering the one left behind: the previous hovered
    /// panel goes to the front of the history, which is then cut back to
    /// its cap.  Only meaningful while nothing is active.
    pub fn set_hover(&mut self, blk: Blokka)
        requires
            old(self).active is None,
        ensures
            final(self)@ == (BlocksV { focus: old(self)@.focus.spec_set_hover(blk), ..old(self)@ }),
            final(self)@.focus.history.len() <= history_cap(),
            old(self).inv() ==> final(self).inv(),
    {
        self.hover_history.push_front(self.hovered);
        self.hover_history.truncate(5);
        self.hovered = blk;
        proof {
            assert(self@.focus =~= old(self)@.focus.spec_set_hover(blk));
            assert(self@ =~= (BlocksV { focus: old(self)@.focus.spec_set_hover(blk), ..old(self)@ }));
        }
    }

    /// Activate whatever is hovered.  Hovering search this way starts text
    /// editing, since an active search panel is exactly the editing state.
    pub fn confirm(&mut self)
        ensures
            final(self)@ == (BlocksV { focus: old(self)@.focus.spec_confirm(), ..old(self)@ }),
            old(self).inv() ==> final(self).inv(),
    {
        let h = self.hovered;
        self.set_active(h);
    }

    /// Deactivate: back to hovering, the hovered panel unchanged.
    pub fn cancel(&mut self)
        ensures
            final(self)@ == (BlocksV { focus: old(self)@.focus.spec_cancel(), ..old(self)@ }),
            old(self).inv() ==> final(self).inv(),
    {
        self.active = None;
    }

    /// The most recent history entry a recall may land on, or the library
    /// panel when the history offers none.  `from_search` selects which
    /// panels qualify: the browsing panels for a move out of search, the
    /// two left panels for a move out of the main panel.
    fn recall_target(&self, from_search: bool) -> (r: Blokka)
        ensures
            ({
                let f = if from_search {
                    |b: Blokka| recall_from_search(b)
                } else {
                    |b: Blokka| recall_from_main(b)
                };
                r == (match first_recall(self@.focus.history, f) {
                    Some(t) => t,
                    None => Blokka::Library,
                })
            }),
    {
        let ghost f = if from_search {
            |b: Blokka| recall_from_search(b)
        } else {
            |b: Blokka| recall_from_main(b)
        };
        let ghost h = self@.focus.history;
        let mut i: usize = 0;
        proof {
            assert(h.skip(0) =~= h);
        }
        while i < self.hover_history.len()
            invariant
                0 <= i <= h.len(),
                h == self@.focus.history,
                h.len() == self.hover_history.len(),
                first_recall(h, f) == first_recall(h.skip(i as int), f),
                f == (if from_search {
                    |b: Blokka| recall_from_search(b)
                } else {
                    |b: Blokka| recall_from_main(b)
                }),
            decreases h.len() - i,
        {
            let b = *(&self.hover_history[i]);
            let hit = if from_search {
                b == Blokka::Library || b == Blokka::Main
            } else {
                b == Blokka::Library || b == Blokka::Playlists
            };
            proof {
                assert(h.skip(i as int).len() > 0);
                assert(h.skip(i as int)[0] == h[i as int]);
                assert(hit == f(b));
            }
            if hit {
                return b;
            }
            proof {
                assert(h.skip(i as int).drop_first() =~= h.skip(i as int + 1));
            }
            i += 1;
        }
        proof {
            assert(h.skip(i as int) =~= Seq::<Blokka>::empty());
        }
        Blokka::Library
    }

    /// Move the hover towards `d`: a history recall, a configured neighbor,
    /// or — with neither — no change at all.
    pub fn move_hover(&mut self, d: Direction)
        requires
            old(self).active is None,
        ensures
            final(self)@ == (BlocksV { focus: spec_move(old(self)@.focus, d), ..old(self)@ }),
            old(self).inv() ==> final(self).inv(),
    {
        if self.hovered == Blokka::Search && d == Direction::Down {
            let t = self.recall_target(true);
            self.set_hover(t);
        } else if self.hovered == Blokka::Main && d == Direction::Left {
            let t = self.recall_target(false);
            self.set_hover(t);
        } else {
            let n = match (self.hovered, d) {
                (Blokka::Search, Direction::Right) => Some(Blokka::Sort),
                (Blokka::Sort, Direction::Left) => Some(Blokka::Search),
                (Blokka::Sort, Direction::Down) => Some(Blokka::Main),
                (Blokka::Library, Direction::Up) => Some(Blokka::Search),
                (Blokka::Library, Direction::Down) => Some(Blokka::Playlists),
                (Blokka::Library, Direction::Right) => Some(Blokka::Main),
                (Blokka::Playlists, Direction::Up) => Some(Blokka::Library),
                (Blokka::Playlists, Direction::Right) => Some(Blokka::Main),
                (Blokka::Main, Direction::Up) => Some(Blokka::Search),
                (Blokka::Main, Direction::Right) => Some(Blokka::Sort),
                _ => None,
            };
            proof {
                assert(n == neighbor_of(self.hovered, d));
            }
            match n {
                Some(t) => self.set_hover(t),
                None => (),
            }
        }
    }
}

/// The fetch a library entry asks for when selected.  The entry set is
/// closed, so the mapping is total: no selection can miss.
pub open spec fn entry_request(e: LibraryEntry) -> FetchRequestV {
    match e {
        LibraryEntry::Queue => FetchRequestV::Queue,
        LibraryEntry::Tracks => FetchRequestV::Tracks(TrackKindV::All),
        LibraryEntry::Albums => FetchRequestV::Albums(AlbumKindV::All),
        LibraryEntry::Artists => FetchRequestV::Artists,
        LibraryEntry::Podcasts => FetchRequestV::Podcasts,
    }
}

/// What one key does while nothing is active: direction keys move the
/// hover, enter activates the hovered panel, anything else is absorbed.
pub open spec fn spec_hovered_event(s: BlocksV, key: Key) -> BlocksV {
    match dir_of_key(key) {
        Some(d) => BlocksV { focus: spec_move(s.focus, d), ..s },
        None => if key == Key::Enter {
            BlocksV { focus: s.focus.spec_confirm(), ..s }
        } else {
            s
        },
    }
}

/// What one key does inside the active panel: list panels move their
/// cursor or select their entry, the main panel moves its cursor or plays
/// the selected row; everything else is absorbed.  The search panel is not
/// handled here — its keys are text, handled by `spec_search_event`.
pub open spec fn spec_active_event(s: BlocksV, key: Key) -> (BlocksV, UpdateActionV) {
    match s.focus.active {
        Some(Blokka::Library) => match key {
            Key::Up => (BlocksV { library_index: s.library_index.spec_dec(), ..s },
                UpdateActionV::Nothing),
            Key::Down => (BlocksV { library_index: s.library_index.spec_inc(), ..s },
                UpdateActionV::Nothing),
            Key::Enter => (s, UpdateActionV::Fetch(
                entry_request(library_entries()[s.library_index.inner as int]),
            )),
            _ => (s, UpdateActionV::Nothing),
        },
        Some(Blokka::Playlists) => match key {
            Key::Up => (BlocksV { playlists_index: s.playlists_index.spec_dec(), ..s },
                UpdateActionV::Nothing),
            Key::Down => (BlocksV { playlists_index: s.playlists_index.spec_inc(), ..s },
                UpdateActionV::Nothing),
            Key::Enter => if s.playlists.len() > 0 {
                (s, UpdateActionV::Fetch(FetchRequestV::PlaylistTracks(
                    s.playlists[s.playlists_index.inner as int],
                )))
            } else {
                (s, UpdateActionV::Nothing)
            },
            _ => (s, UpdateActionV::Nothing),
        },
        Some(Blokka::Main) => match key {
            Key::Up => (BlocksV { main: s.main.with_index(s.main.index().spec_dec()), ..s },
                UpdateActionV::Nothing),
            Key::Down => (BlocksV { main: s.main.with_index(s.main.index().spec_inc()), ..s },
                UpdateActionV::Nothing),
            Key::Enter => if s.main.tracks().len() > 0 {
                (s, UpdateActionV::Player(PlayerCmd::PlaySong(
                    s.main.tracks()[s.main.index().inner as int].id,
                )))
            } else {
                (s, UpdateActionV::Nothing)
            },
            Key::Char(c) => if c == 'c' && (s.main matches MainV::Queue { .. }) {
                (s, UpdateActionV::Player(PlayerCmd::ClearQueue))
            } else {
                (s, UpdateActionV::Nothing)
            },
            _ => (s, UpdateActionV::Nothing),
        },
        _ => (s, UpdateActionV::Nothing),
    }
}

/// What one key does while the search panel is editing: printable keys
/// extend the buffer, backspace shortens it, enter asks for a search over
/// the buffer as it stands; everything else is absorbed.
pub open spec fn spec_search_event(s: BlocksV, key: Key) -> (BlocksV, UpdateActionV) {
    match key {
        Key::Char(c) => if s.query.len() < query_capacity() {
            (BlocksV { query: s.query.push(c), cursor: (s.cursor + 1) as u16, ..s },
                UpdateActionV::Nothing)
        } else {
            (s, UpdateActionV::Nothing)
        },
        Key::Backspace => if s.query.len() > 0 {
            (BlocksV { query: s.query.drop_last(), cursor: (s.cursor - 1) as u16, ..s },
                UpdateActionV::Nothing)
        } else {
            (s, UpdateActionV::Nothing)
        },
        Key::Enter => (s, UpdateActionV::Fetch(FetchRequestV::Search(s.query))),
        _ => (s, UpdateActionV::Nothing),
    }
}

impl Blocks {
    /// Handle one key while nothing is active.
    pub fn hovered_event(&mut self, key: Key)
        requires
            old(self).inv(),
            old(self).active is None,
        ensures
            final(self).inv(),
            final(self)@ == spec_hovered_event(old(self)@, key),
    {
        match key {
            Key::Up => self.move_hover(Direction::Up),
            Key::Down => self.move_hover(Direction::Down),
            Key::Left => self.move_hover(Direction::Left),
            Key::Right => self.move_hover(Direction::Right),
            Key::Enter => self.confirm(),
            _ => (),
        }
    }

    /// Handle one key inside the active panel, handing back whatever the
    /// caller must now do.
    pub fn active_event(&mut self, key: Key) -> (r: UpdateAction)
        requires
            old(self).inv(),
        ensures
            final(self).inv(),
            (final(self)@, r@) == spec_active_event(old(self)@, key),
    {
        match self.active {
            Some(Blokka::Library) => match key {
                Key::Up => {
                    self.library.index.dec();
                    UpdateAction::Nothing
                },
                Key::Down => {
                    self.library.index.inc();
                    UpdateAction::Nothing
                },
                Key::Enter => {
                    let e = self.library.inner.entries[self.library.index.inner];
                    let req = match e {
                        LibraryEntry::Queue => FetchRequest::Queue,
                        LibraryEntry::Tracks => FetchRequest::Tracks(TrackKind::All),
                        LibraryEntry::Albums => FetchRequest::Albums(AlbumKind::All),
                        LibraryEntry::Artists => FetchRequest::Artists,
                        LibraryEntry::Podcasts => FetchRequest::Podcasts,
                    };
                    UpdateAction::Fetch(req)
                },
                _ => UpdateAction::Nothing,
            },
            Some(Blokka::Playlists) => match key {
                Key::Up => {
                    self.playlists.index.dec();
                    UpdateAction::Nothing
                },
                Key::Down => {
                    self.playlists.index.inc();
                    UpdateAction::Nothing
                },
                Key::Enter => {
                    if self.playlists.inner.entries.len() > 0 {
                        let name = self.playlists.inner.entries[self.playlists.index.inner].clone();
                        UpdateAction::Fetch(FetchRequest::PlaylistTracks(name))
                    } else {
                        UpdateAction::Nothing
                    }
                },
                _ => UpdateAction::Nothing,
            },
            Some(Blokka::Main) => match key {
                Key::Up => {
                    self.main.index_dec();
                    UpdateAction::Nothing
                },
                Key::Down => {
                    self.main.index_inc();
                    UpdateAction::Nothing
                },
                Key::Enter => {
                    match self.main.selected_id() {
                        Some(id) => UpdateAction::Player(PlayerCmd::PlaySong(id)),
                        None => UpdateAction::Nothing,
                    }
                },
                Key::Char(c) => {
                    let is_queue = match &self.main {
                        MainBlock::Queue(_) => true,
                        _ => false,
                    };
                    if c == 'c' && is_queue {
                        UpdateAction::Player(PlayerCmd::ClearQueue)
                    } else {
                        UpdateAction::Nothing
                    }
                },
                _ => UpdateAction::Nothing,
            },
            _ => UpdateAction::Nothing,
        }
    }

    /// Handle one key while the search panel is editing, handing back
    /// whatever the caller must now do.
    pub fn search_event(&mut self, key: Key) -> (r: UpdateAction)
        requires
            old(self).inv(),
        ensures
            final(self).inv(),
            (final(self)@, r@) == spec_search_event(old(self)@, key),
    {
        match key {
            Key::Char(c) => {
                self.search.inner.append(c);
                UpdateAction::Nothing
            },
            Key::Backspace => {
                self.search.inner.backspace();
                UpdateAction::Nothing
            },
            Key::Enter => {
                let q = self.search.inner.query.clone();
                UpdateAction::Fetch(FetchRequest::Search(q))
            },
            _ => UpdateAction::Nothing,
        }
    }

    /// Swap the main panel's content and focus it: the one way any new main
    /// view ever appears, and it appears whole.
    pub fn set_main(&mut self, blk: MainBlock)
        requires
            blk@.inv(),
        ensures
            final(self)@ == (BlocksV {
                main: blk@,
                focus: old(self)@.focus.spec_set_active(Blokka::Main),
                ..old(self)@
            }),
            old(self).inv() ==> final(self).inv(),
    {
        self.main = blk;
        self.set_active(Blokka::Main);
    }

    /// Show a transient message in the reserved error panel.
    pub fn show_error(&mut self, msg: String)
        ensures
            final(self)@ == (BlocksV { error: Some(msg@), ..old(self)@ }),
            old(self).inv() ==> final(self).inv(),
    {
        self.error = Some(msg);
    }

    /// Dismiss the error panel's message.
    pub fn dismiss_error(&mut self)
        ensures
            final(self)@ == (BlocksV { error: None, ..old(self)@ }),
            old(self).inv() ==> final(self).inv(),
    {
        self.error = None;
    }
}

/// What the renderer is handed for one list panel, once per frame: the
/// panel's labels, the highlighted position, and the two highlight flags.
/// The renderer draws this and reports nothing back.
pub struct ListModel {
    pub title: String,
    pub items: Vec<String>,
    pub selected: Option<usize>,
    pub active: bool,
    pub hovered: bool,
}

/// The heading over the main panel, for each of its views.
pub open spec fn main_title_of(m: MainV) -> Seq<char> {
    match m {
        MainV::Queue { .. } => " Queue "@,
        MainV::Tracks { kind, .. } => tracks::heading_of(kind),
        MainV::Albums { .. } => " Albums "@,
        MainV::Artists { .. } => " Artists "@,
        MainV::Podcasts { .. } => " Podcasts "@,
        MainV::SearchResults { .. } => " Search Results "@,
        MainV::PlaylistTracks { name, .. } => " Playlist "@ + name + " "@,
    }
}

impl Blocks {
    /// The library panel's draw data: its five labels under the cursor.
    pub fn library_model(&self) -> (r: ListModel)
        requires
            self.inv(),
        ensures
            r.title@ == " Library "@,
            r.items@.len() == library_entries().len(),
            forall|i: int|
                0 <= i < r.items@.len() ==> r.items@[i]@ == library_entries()[i].label_spec(),
            r.selected == Some(self.library.index.inner),
            r.active == (self@.focus.active == Some(Blokka::Library)),
            r.hovered == (self@.focus.hovered == Blokka::Library),
    {
        let mut items: Vec<String> = Vec::new();
        let n = self.library.inner.entries.len();
        let mut i: usize = 0;
        while i < n
            invariant
                0 <= i <= n,
                n == self.library.inner.entries@.len(),
                self.library.inner.inv(),
                items@.len() == i,
                forall|j: int|
                    0 <= j < i ==> items@[j]@ == library_entries()[j].label_spec(),
            decreases n - i,
        {
            items.push(String::from_str(self.library.inner.entries[i].label()));
            i += 1;
        }
        ListModel {
            title: String::from_str(" Library "),
            items,
            selected: Some(self.library.index.inner),
            active: self.is_active(Blokka::Library),
            hovered: self.is_hovered(Blokka::Library),
        }
    }

    /// The playlists panel's draw data: the playlist names under the cursor.
    pub fn playlists_model(&self) -> (r: ListModel)
        requires
            self.inv(),
        ensures
            r.title@ == " Playlists "@,
            r.items@.len() == self@.playlists.len(),
            forall|i: int| 0 <= i < r.items@.len() ==> r.items@[i]@ == self@.playlists[i],
            r.selected == Some(self.playlists.index.inner),
            r.active == (self@.focus.active == Some(Blokka::Playlists)),
            r.hovered == (self@.focus.hovered == Blokka::Playlists),
    {
        let mut items: Vec<String> = Vec::new();
        let n = self.playlists.inner.entries.len();
        let mut i: usize = 0;
        while i < n
            invariant
                0 <= i <= n,
                n == self.playlists.inner.entries@.len(),
                items@.len() == i,
                forall|j: int| 0 <= j < i ==> items@[j]@ == self@.playlists[j],
            decreases n - i,
        {
            items.push(self.playlists.inner.entries[i].clone());
            i += 1;
        }
        ListModel {
            title: String::from_str(" Playlists "),
            items,
            selected: Some(self.playlists.index.inner),
            active: self.is_active(Blokka::Playlists),
            hovered: self.is_hovered(Blokka::Playlists),
        }
    }

    /// The heading the main panel is drawn under.
    pub fn main_title(&self) -> (r: String)
        ensures
            r@ == main_title_of(self@.main),
    {
        match &self.main {
            MainBlock::Queue(_) => String::from_str(" Queue "),
            MainBlock::Tracks(t) => t.kind.heading(),
            MainBlock::Albums(_) => String::from_str(" Albums "),
            MainBlock::Artists(_) => String::from_str(" Artists "),
            MainBlock::Podcasts(_) => String::from_str(" Podcasts "),
            MainBlock::SearchResults(_) => String::from_str(" Search Results "),
            MainBlock::PlaylistTracks(p) => String::from_str(" Playlist ").concat(
                p.name.as_str(),
            ).concat(" "),
        }
    }
}

} // verus!
