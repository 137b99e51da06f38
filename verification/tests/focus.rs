//! The focus graph: moves, activation, cancellation, and the bounded hover
//! history.

use strofa::block::{Blocks, Blokka, Direction};
use strofa::client::UpdateAction;
use strofa::event::Key;
use strofa::state::State;

fn fresh() -> Blocks {
    Blocks::new(Vec::new(), Vec::new())
}

#[test]
fn starts_hovering_library() {
    let b = fresh();
    assert_eq!(b.hovered, Blokka::Library);
    assert!(b.active.is_none());
    assert!(b.hover_history.is_empty());
    assert!(b.is_hovered(Blokka::Library));
    assert!(!b.is_active(Blokka::Library));
}

#[test]
fn moves_follow_the_neighbor_table() {
    let mut b = fresh();
    b.move_hover(Direction::Down);
    assert_eq!(b.hovered, Blokka::Playlists);
    b.move_hover(Direction::Up);
    assert_eq!(b.hovered, Blokka::Library);
    b.move_hover(Direction::Up);
    assert_eq!(b.hovered, Blokka::Search);
    b.move_hover(Direction::Right);
    assert_eq!(b.hovered, Blokka::Sort);
    b.move_hover(Direction::Down);
    assert_eq!(b.hovered, Blokka::Main);
    b.move_hover(Direction::Up);
    assert_eq!(b.hovered, Blokka::Search);
}

#[test]
fn move_without_neighbor_is_a_noop() {
    // every hovered panel and direction for which the table configures
    // nothing and no recall applies: hovered and history stay untouched
    let cases: Vec<(Vec<Direction>, Direction)> = vec![
        (vec![], Direction::Left),                                   // library, left
        (vec![Direction::Up], Direction::Up),                        // search, up
        (vec![Direction::Up], Direction::Left),                      // search, left
        (vec![Direction::Up, Direction::Right], Direction::Up),      // sort, up
        (vec![Direction::Up, Direction::Right], Direction::Right),   // sort, right
        (vec![Direction::Down], Direction::Down),                    // playlists, down
        (vec![Direction::Down], Direction::Left),                    // playlists, left
        (vec![Direction::Right], Direction::Down),                   // main, down
    ];
    for (path, blocked) in cases {
        let mut b = fresh();
        for d in path {
            b.move_hover(d);
        }
        let hovered_before = b.hovered;
        let history_before: Vec<Blokka> = b.hover_history.iter().cloned().collect();
        b.move_hover(blocked);
        let history_after: Vec<Blokka> = b.hover_history.iter().cloned().collect();
        assert_eq!(b.hovered, hovered_before);
        assert_eq!(history_after, history_before);
    }
}

#[test]
fn confirm_activates_the_hovered_panel() {
    let mut b = fresh();
    b.move_hover(Direction::Down);
    b.confirm();
    assert_eq!(b.active, Some(Blokka::Playlists));
    assert_eq!(b.hovered, Blokka::Playlists);
}

#[test]
fn cancel_clears_active_and_keeps_hover() {
    let mut b = fresh();
    b.move_hover(Direction::Down);
    b.confirm();
    b.cancel();
    assert!(b.active.is_none());
    assert_eq!(b.hovered, Blokka::Playlists);
}

#[test]
fn scenario_hover_confirm_cancel() {
    // start hovering the library, nothing active
    let mut b = fresh();
    assert_eq!(b.hovered, Blokka::Library);
    assert!(b.active.is_none());
    // down: playlists hovered
    b.move_hover(Direction::Down);
    assert_eq!(b.hovered, Blokka::Playlists);
    // confirm: playlists active and hovered
    b.confirm();
    assert_eq!(b.active, Some(Blokka::Playlists));
    assert_eq!(b.hovered, Blokka::Playlists);
    // cancel: nothing active, playlists still hovered
    b.cancel();
    assert!(b.active.is_none());
    assert_eq!(b.hovered, Blokka::Playlists);
}

#[test]
fn set_hover_pushes_exactly_one_entry() {
    let mut b = fresh();
    assert_eq!(b.hover_history.len(), 0);
    b.set_hover(Blokka::Main);
    assert_eq!(b.hover_history.len(), 1);
    assert_eq!(b.hover_history[0], Blokka::Library);
    b.set_hover(Blokka::Sort);
    assert_eq!(b.hover_history.len(), 2);
    assert_eq!(b.hover_history[0], Blokka::Main);
}

#[test]
fn history_never_exceeds_five_and_forgets_the_oldest() {
    let mut b = fresh();
    // six hovers over panels other than the initial library
    b.set_hover(Blokka::Main);
    b.set_hover(Blokka::Sort);
    b.set_hover(Blokka::Search);
    b.set_hover(Blokka::Playlists);
    b.set_hover(Blokka::Playbar);
    b.set_hover(Blokka::Error);
    assert_eq!(b.hover_history.len(), 5);
    // most recent first: the five panels hovered in between
    let got: Vec<Blokka> = b.hover_history.iter().cloned().collect();
    assert_eq!(
        got,
        vec![
            Blokka::Playbar,
            Blokka::Playlists,
            Blokka::Search,
            Blokka::Sort,
            Blokka::Main,
        ]
    );
    // the entry pushed by the first of the six — the initial library — is gone
    assert!(!b.hover_history.contains(&Blokka::Library));
}

#[test]
fn down_from_search_recalls_the_last_browsed_panel() {
    let mut b = fresh();
    b.move_hover(Direction::Right); // library -> main
    b.move_hover(Direction::Up);    // main -> search, history [main, library]
    b.move_hover(Direction::Down);  // recall: main, not a fixed neighbor
    assert_eq!(b.hovered, Blokka::Main);
}

#[test]
fn down_from_search_falls_back_to_library() {
    let mut b = fresh();
    b.move_hover(Direction::Up);   // library -> search, history [library]
    b.move_hover(Direction::Down); // recall finds library
    assert_eq!(b.hovered, Blokka::Library);
}

#[test]
fn down_from_search_defaults_to_library_without_a_browsed_entry() {
    // fill the history with panels that are neither library nor main, so
    // the recall finds nothing and falls back to the library
    let mut b = fresh();
    b.set_hover(Blokka::Sort);     // pushes library
    b.set_hover(Blokka::Playbar);
    b.set_hover(Blokka::Error);
    b.set_hover(Blokka::Playlists);
    b.set_hover(Blokka::Playbar);
    b.set_hover(Blokka::Search);   // history now holds no library, no main
    assert!(!b.hover_history.contains(&Blokka::Library));
    assert!(!b.hover_history.contains(&Blokka::Main));
    b.move_hover(Direction::Down);
    assert_eq!(b.hovered, Blokka::Library);
}

#[test]
fn unknown_keys_are_absorbed() {
    let mut st = State::new(Vec::new(), Vec::new());
    assert_eq!(st.handle_key(Key::Tab), UpdateAction::Nothing);
    assert_eq!(st.handle_key(Key::Unknown), UpdateAction::Nothing);
    assert_eq!(st.handle_key(Key::Alt('p')), UpdateAction::Nothing);
    assert_eq!(st.blocks.hovered, Blokka::Library);
    assert!(st.blocks.active.is_none());
    assert!(st.blocks.hover_history.is_empty());
}

#[test]
fn left_from_main_recalls_the_last_left_panel() {
    let mut b = fresh();
    b.move_hover(Direction::Down);  // library -> playlists
    b.move_hover(Direction::Right); // playlists -> main, history [playlists, library]
    b.move_hover(Direction::Left);  // recall: playlists
    assert_eq!(b.hovered, Blokka::Playlists);
}
