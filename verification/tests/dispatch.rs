//! The dispatcher: one key in, one state change and at most one request
//! out; and the fetch round trip that swaps the main panel.

use strofa::block::{Blokka, Main, MainBlock};
use strofa::block::search::Search;
use strofa::block::tracks::{Track, TrackKind};
use strofa::client::{FetchRequest, PlayerCmd, UpdateAction};
use strofa::event::Key;
use strofa::state::State;

fn fresh() -> State {
    State::new(Vec::new(), Vec::new())
}

fn track(id: u64, title: &str) -> Track {
    Track {
        id,
        title: title.to_string(),
        artist: "somebody".to_string(),
        duration_secs: 180,
    }
}

#[test]
fn ctrl_c_quits() {
    let mut st = fresh();
    assert_eq!(st.handle_key(Key::Ctrl('c')), UpdateAction::Quit);
}

#[test]
fn player_commands_are_forwarded_verbatim() {
    let mut st = fresh();
    assert_eq!(
        st.handle_key(Key::Char(' ')),
        UpdateAction::Player(PlayerCmd::TogglePlayback)
    );
    assert_eq!(
        st.handle_key(Key::Char('-')),
        UpdateAction::Player(PlayerCmd::SetVolume(-5))
    );
    assert_eq!(
        st.handle_key(Key::Char('+')),
        UpdateAction::Player(PlayerCmd::SetVolume(5))
    );
    assert_eq!(
        st.handle_key(Key::Char('<')),
        UpdateAction::Player(PlayerCmd::SeekBackwards(10))
    );
    assert_eq!(
        st.handle_key(Key::Char('>')),
        UpdateAction::Player(PlayerCmd::SeekForwards(10))
    );
    assert_eq!(
        st.handle_key(Key::Char(']')),
        UpdateAction::Player(PlayerCmd::NextTrack)
    );
    assert_eq!(
        st.handle_key(Key::Char('[')),
        UpdateAction::Player(PlayerCmd::PreviousTrack)
    );
    assert_eq!(
        st.handle_key(Key::Char('s')),
        UpdateAction::Player(PlayerCmd::ToggleShuffle)
    );
    assert_eq!(
        st.handle_key(Key::Char('r')),
        UpdateAction::Player(PlayerCmd::ToggleRepeat)
    );
}

#[test]
fn jump_bindings_change_focus_locally() {
    let mut st = fresh();
    assert_eq!(st.handle_key(Key::Char('e')), UpdateAction::Nothing);
    assert_eq!(st.blocks.active, Some(Blokka::Playlists));
    assert_eq!(st.blocks.hovered, Blokka::Playlists);
    let mut st = fresh();
    assert_eq!(st.handle_key(Key::Char('/')), UpdateAction::Nothing);
    assert_eq!(st.blocks.active, Some(Blokka::Search));
}

#[test]
fn to_queue_asks_for_a_fetch() {
    let mut st = fresh();
    assert_eq!(
        st.handle_key(Key::Char('q')),
        UpdateAction::Fetch(FetchRequest::Queue)
    );
}

#[test]
fn toggle_top_flips_the_top_strip() {
    let mut st = fresh();
    assert!(st.chunks.top.show);
    assert_eq!(st.handle_key(Key::Ctrl('b')), UpdateAction::Nothing);
    assert!(!st.chunks.top.show);
    st.handle_key(Key::Ctrl('b'));
    assert!(st.chunks.top.show);
}

#[test]
fn library_selection_fetches_the_selected_view() {
    // activate the library, step to the last entry, select it
    let mut st = fresh();
    st.handle_key(Key::Enter);
    assert_eq!(st.blocks.active, Some(Blokka::Library));
    for _ in 0..4 {
        assert_eq!(st.handle_key(Key::Down), UpdateAction::Nothing);
    }
    assert_eq!(st.blocks.library.index.inner, 4);
    let action = st.handle_key(Key::Enter);
    assert_eq!(action, UpdateAction::Fetch(FetchRequest::Podcasts));
    // the resolved fetch swaps the main panel and focuses it
    st.resolve_fetch(FetchRequest::Podcasts, Ok(Vec::new()));
    assert!(matches!(st.blocks.main, MainBlock::Podcasts(_)));
    assert_eq!(st.blocks.active, Some(Blokka::Main));
}

#[test]
fn library_first_entry_is_the_queue() {
    let mut st = fresh();
    st.handle_key(Key::Enter);
    assert_eq!(
        st.handle_key(Key::Enter),
        UpdateAction::Fetch(FetchRequest::Queue)
    );
}

#[test]
fn library_second_entry_is_all_tracks() {
    let mut st = fresh();
    st.handle_key(Key::Enter);
    st.handle_key(Key::Down);
    assert_eq!(
        st.handle_key(Key::Enter),
        UpdateAction::Fetch(FetchRequest::Tracks(TrackKind::All))
    );
}

#[test]
fn playlist_selection_fetches_its_tracks() {
    let names = vec!["morning".to_string(), "evening".to_string()];
    let mut st = State::new(names, Vec::new());
    st.handle_key(Key::Char('e'));
    st.handle_key(Key::Down);
    let action = st.handle_key(Key::Enter);
    assert_eq!(
        action,
        UpdateAction::Fetch(FetchRequest::PlaylistTracks("evening".to_string()))
    );
    let tracks = vec![track(7, "first"), track(8, "second")];
    st.resolve_fetch(
        FetchRequest::PlaylistTracks("evening".to_string()),
        Ok(tracks),
    );
    match &st.blocks.main {
        MainBlock::PlaylistTracks(p) => {
            assert_eq!(p.name, "evening");
            assert_eq!(p.tracks.len(), 2);
            assert_eq!(p.index.inner, 0);
        }
        _ => panic!("expected the playlist's tracks in the main panel"),
    }
    assert_eq!(st.blocks.active, Some(Blokka::Main));
}

#[test]
fn selecting_from_an_empty_playlist_panel_does_nothing() {
    let mut st = fresh();
    st.handle_key(Key::Char('e'));
    assert_eq!(st.handle_key(Key::Enter), UpdateAction::Nothing);
}

#[test]
fn enter_in_the_queue_plays_the_selected_row() {
    let mut st = State::new(Vec::new(), vec![track(40, "a"), track(41, "b")]);
    // focus the main panel: library -> right, then confirm
    st.handle_key(Key::Right);
    st.handle_key(Key::Enter);
    assert_eq!(st.blocks.active, Some(Blokka::Main));
    st.handle_key(Key::Down);
    assert_eq!(
        st.handle_key(Key::Enter),
        UpdateAction::Player(PlayerCmd::PlaySong(41))
    );
}

#[test]
fn enter_in_an_empty_queue_does_nothing() {
    let mut st = fresh();
    st.handle_key(Key::Right);
    st.handle_key(Key::Enter);
    assert_eq!(st.handle_key(Key::Enter), UpdateAction::Nothing);
}

#[test]
fn scenario_search_editing_and_submit() {
    // editing the search buffer: append, backspace, submit
    let mut st = fresh();
    st.handle_key(Key::Char('/'));
    assert_eq!(st.blocks.active, Some(Blokka::Search));
    assert_eq!(st.blocks.search.inner.query, "");
    assert_eq!(st.blocks.search.inner.cursor_position, 0);
    st.handle_key(Key::Char('a'));
    st.handle_key(Key::Char('b'));
    assert_eq!(st.blocks.search.inner.query, "ab");
    assert_eq!(st.blocks.search.inner.cursor_position, 2);
    st.handle_key(Key::Backspace);
    assert_eq!(st.blocks.search.inner.query, "a");
    assert_eq!(st.blocks.search.inner.cursor_position, 1);
    let action = st.handle_key(Key::Enter);
    assert_eq!(
        action,
        UpdateAction::Fetch(FetchRequest::Search("a".to_string()))
    );
    // on success the results replace the main panel and focus moves there
    let results = vec![track(9, "answer")];
    st.resolve_fetch(FetchRequest::Search("a".to_string()), Ok(results));
    match &st.blocks.main {
        MainBlock::SearchResults(r) => {
            assert_eq!(r.query, "a");
            assert_eq!(r.songs.len(), 1);
            assert_eq!(r.songs[0].id, 9);
        }
        _ => panic!("expected search results in the main panel"),
    }
    assert_eq!(st.blocks.active, Some(Blokka::Main));
}

#[test]
fn backspace_on_an_empty_buffer_is_absorbed() {
    let mut st = fresh();
    st.handle_key(Key::Char('/'));
    st.handle_key(Key::Backspace);
    assert_eq!(st.blocks.search.inner.query, "");
    assert_eq!(st.blocks.search.inner.cursor_position, 0);
}

#[test]
fn editing_consumes_bound_printable_keys() {
    // while editing, a key bound to a command is still text
    let mut st = fresh();
    st.handle_key(Key::Char('/'));
    assert_eq!(st.handle_key(Key::Char('q')), UpdateAction::Nothing);
    assert_eq!(st.blocks.search.inner.query, "q");
}

#[test]
fn failed_search_keeps_editing_and_shows_the_error() {
    let mut st = fresh();
    st.handle_key(Key::Char('/'));
    st.handle_key(Key::Char('a'));
    st.handle_key(Key::Enter);
    st.resolve_fetch(
        FetchRequest::Search("a".to_string()),
        Err("connection lost".to_string()),
    );
    // still editing, previous content standing, message shown
    assert_eq!(st.blocks.active, Some(Blokka::Search));
    assert!(matches!(st.blocks.main, MainBlock::Queue(_)));
    assert_eq!(st.blocks.error, Some("connection lost".to_string()));
    // and the message can be dismissed
    st.dismiss_error();
    assert_eq!(st.blocks.error, None);
}

#[test]
fn failed_player_command_shows_the_error() {
    let mut st = fresh();
    st.resolve_player_result(Err("rejected".to_string()));
    assert_eq!(st.blocks.error, Some("rejected".to_string()));
    let mut st = fresh();
    st.resolve_player_result(Ok(()));
    assert_eq!(st.blocks.error, None);
}

#[test]
fn escape_always_cancels() {
    let mut st = fresh();
    st.handle_key(Key::Char('/'));
    st.handle_key(Key::Char('a'));
    assert_eq!(st.handle_key(Key::Esc), UpdateAction::Nothing);
    assert!(st.blocks.active.is_none());
    assert_eq!(st.blocks.hovered, Blokka::Search);
    // the buffer survives the cancellation
    assert_eq!(st.blocks.search.inner.query, "a");
}

#[test]
fn main_views_expose_their_cursor() {
    let mut st = State::new(Vec::new(), vec![track(1, "a"), track(2, "b")]);
    assert_eq!(st.blocks.main.index().inner, 0);
    st.handle_key(Key::Right);
    st.handle_key(Key::Enter);
    st.handle_key(Key::Down);
    assert_eq!(st.blocks.main.index().inner, 1);
    assert_eq!(st.blocks.main.index().max, 2);
}

#[test]
fn search_buffer_edits_directly() {
    let mut s = Search::new();
    s.append('h');
    s.append('i');
    assert_eq!(s.query, "hi");
    assert_eq!(s.cursor_position, 2);
    s.backspace();
    assert_eq!(s.query, "h");
    assert_eq!(s.cursor_position, 1);
    s.backspace();
    s.backspace();
    assert_eq!(s.query, "");
    assert_eq!(s.cursor_position, 0);
}

#[test]
fn replaying_the_same_keys_gives_the_same_state() {
    let keys = vec![
        Key::Down,
        Key::Enter,
        Key::Up,
        Key::Esc,
        Key::Char('/'),
        Key::Char('x'),
        Key::Backspace,
        Key::Char('y'),
        Key::Esc,
        Key::Up,
        Key::Right,
    ];
    let names = vec!["one".to_string(), "two".to_string()];
    let mut a = State::new(names.clone(), vec![track(1, "t")]);
    let mut b = State::new(names, vec![track(1, "t")]);
    let actions_a: Vec<UpdateAction> = keys.iter().map(|k| a.handle_key(*k)).collect();
    let actions_b: Vec<UpdateAction> = keys.iter().map(|k| b.handle_key(*k)).collect();
    assert_eq!(actions_a, actions_b);
    assert_eq!(a.blocks.hovered, b.blocks.hovered);
    assert_eq!(a.blocks.active, b.blocks.active);
    assert_eq!(a.blocks.hover_history, b.blocks.hover_history);
    assert_eq!(a.blocks.search.inner.query, b.blocks.search.inner.query);
    assert_eq!(a.blocks.library.index.inner, b.blocks.library.index.inner);
}
