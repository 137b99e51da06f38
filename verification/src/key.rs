//! The key-to-command table.  A binding maps one key to one named command;
//! the dispatcher looks a key up and either changes focus locally or
//! forwards a playback command to the player service.

use vstd::prelude::*;
use crate::block::Blokka;
use crate::client::FetchRequest;
use crate::client::PlayerCmd;
use crate::client::UpdateAction;
use crate::event::Key;
use crate::state::State;
use crate::state::spec_execute;

verus! {

/// Every command a key can be bound to.  The first group changes the
/// interface; the second is forwarded to the player service verbatim.
#[derive(Copy, Clone, PartialEq, Eq, Structural, Debug)]
pub enum Cmd {
    Back,
    ToQueue,
    ToPlaylists,
    ToggleTop,
    JumpToStart,
    JumpToEnd,
    JumpToAlbum,
    JumpToArtist,
    DecreaseVolume,
    IncreaseVolume,
    TogglePlayback,
    SeekBackwards,
    SeekForwards,
    NextTrack,
    PreviousTrack,
    Shuffle,
    Repeat,
    GoSearch,
    AddItemToQueue,
}

/// The table every session starts with.
pub open spec fn default_bindings() -> Seq<(Key, Cmd)> {
    seq![
        (Key::Backspace, Cmd::Back),
        (Key::Char('q'), Cmd::ToQueue),
        (Key::Char('e'), Cmd::ToPlaylists),
        (Key::Ctrl('b'), Cmd::ToggleTop),
        (Key::Char('v'), Cmd::JumpToStart),
        (Key::Char('z'), Cmd::JumpToEnd),
        (Key::Char('f'), Cmd::JumpToAlbum),
        (Key::Char('c'), Cmd::JumpToArtist),
        (Key::Char('-'), Cmd::DecreaseVolume),
        (Key::Char('+'), Cmd::IncreaseVolume),
        (Key::Char(' '), Cmd::TogglePlayback),
        (Key::Char('<'), Cmd::SeekBackwards),
        (Key::Char('>'), Cmd::SeekForwards),
        (Key::Char(']'), Cmd::NextTrack),
        (Key::Char('['), Cmd::PreviousTrack),
        (Key::Char('s'), Cmd::Shuffle),
        (Key::Char('r'), Cmd::Repeat),
        (Key::Char('/'), Cmd::GoSearch),
        (Key::Char('x'), Cmd::AddItemToQueue),
    ]
}

/// The command of the first binding for `k`, if any binding holds it.
pub open spec fn spec_lookup(bs: Seq<(Key, Cmd)>, k: Key) -> Option<Cmd>
    decreases bs.len(),
{
    if bs.len() == 0 {
        None
    } else if bs[0].0 == k {
        Some(bs[0].1)
    } else {
        spec_lookup(bs.drop_first(), k)
    }
}

/// What the default table binds each key to, stated directly.
pub open spec fn spec_default_cmd(k: Key) -> Option<Cmd> {
    match k {
        Key::Backspace => Some(Cmd::Back),
        Key::Ctrl(c) => if c == 'b' {
            Some(Cmd::ToggleTop)
        } else {
            None
        },
        Key::Char(c) => if c == 'q' {
            Some(Cmd::ToQueue)
        } else if c == 'e' {
            Some(Cmd::ToPlaylists)
        } else if c == 'v' {
            Some(Cmd::JumpToStart)
        } else if c == 'z' {
            Some(Cmd::JumpToEnd)
        } else if c == 'f' {
            Some(Cmd::JumpToAlbum)
        } else if c == 'c' {
            Some(Cmd::JumpToArtist)
        } else if c == '-' {
            Some(Cmd::DecreaseVolume)
        } else if c == '+' {
            Some(Cmd::IncreaseVolume)
        } else if c == ' ' {
            Some(Cmd::TogglePlayback)
        } else if c == '<' {
            Some(Cmd::SeekBackwards)
        } else if c == '>' {
            Some(Cmd::SeekForwards)
        } else if c == ']' {
            Some(Cmd::NextTrack)
        } else if c == '[' {
            Some(Cmd::PreviousTrack)
        } else if c == 's' {
            Some(Cmd::Shuffle)
        } else if c == 'r' {
            Some(Cmd::Repeat)
        } else if c == '/' {
            Some(Cmd::GoSearch)
        } else if c == 'x' {
            Some(Cmd::AddItemToQueue)
        } else {
            None
        },
        _ => None,
    }
}

/// Looking a key up in the default table gives exactly what
/// `spec_default_cmd` states of it.
pub proof fn lemma_default_lookup(k: Key)
    ensures
        spec_lookup(default_bindings(), k) == spec_default_cmd(k),
{
    reveal_with_fuel(spec_lookup, 21);
}

/// The static key-to-command table, consumed only via lookup.
pub struct KeyBindings(pub Vec<(Key, Cmd)>);

impl View for KeyBindings {
    type V = Seq<(Key, Cmd)>;

    open spec fn view(&self) -> Seq<(Key, Cmd)> {
        self.0@
    }
}

impl Default for KeyBindings {
    fn default() -> (r: KeyBindings)
        ensures
            r@ == default_bindings(),
    {
        let bindings = vec![
            (Key::Backspace, Cmd::Back),
            (Key::Char('q'), Cmd::ToQueue),
            (Key::Char('e'), Cmd::ToPlaylists),
            (Key::Ctrl('b'), Cmd::ToggleTop),
            (Key::Char('v'), Cmd::JumpToStart),
            (Key::Char('z'), Cmd::JumpToEnd),
            (Key::Char('f'), Cmd::JumpToAlbum),
            (Key::Char('c'), Cmd::JumpToArtist),
            (Key::Char('-'), Cmd::DecreaseVolume),
            (Key::Char('+'), Cmd::IncreaseVolume),
            (Key::Char(' '), Cmd::TogglePlayback),
            (Key::Char('<'), Cmd::SeekBackwards),
            (Key::Char('>'), Cmd::SeekForwards),
            (Key::Char(']'), Cmd::NextTrack),
            (Key::Char('['), Cmd::PreviousTrack),
            (Key::Char('s'), Cmd::Shuffle),
            (Key::Char('r'), Cmd::Repeat),
            (Key::Char('/'), Cmd::GoSearch),
            (Key::Char('x'), Cmd::AddItemToQueue),
        ];
        proof {
            assert(bindings@ =~= default_bindings());
        }
        KeyBindings(bindings)
    }
}

impl KeyBindings {
    /// Run one bound command against the whole state: the interface
    /// commands change focus or the layout locally, the player commands are
    /// handed out as requests.
    pub fn execute(state: &mut State, cmd: Cmd) -> (a: UpdateAction)
        requires
            old(state).inv(),
        ensures
            final(state).inv(),
            (final(state)@, a@) == spec_execute(old(state)@, cmd),
    {
        match cmd {
            Cmd::ToPlaylists => {
                state.blocks.set_active(Blokka::Playlists);
                UpdateAction::Nothing
            },
            Cmd::GoSearch => {
                state.blocks.set_active(Blokka::Search);
                UpdateAction::Nothing
            },
            Cmd::ToQueue => UpdateAction::Fetch(FetchRequest::Queue),
            Cmd::ToggleTop => {
                state.chunks.toggle_top();
                UpdateAction::Nothing
            },
            Cmd::TogglePlayback => UpdateAction::Player(PlayerCmd::TogglePlayback),
            Cmd::DecreaseVolume => UpdateAction::Player(PlayerCmd::SetVolume(-5)),
            Cmd::IncreaseVolume => UpdateAction::Player(PlayerCmd::SetVolume(5)),
            Cmd::NextTrack => UpdateAction::Player(PlayerCmd::NextTrack),
            Cmd::PreviousTrack => UpdateAction::Player(PlayerCmd::PreviousTrack),
            Cmd::SeekForwards => UpdateAction::Player(PlayerCmd::SeekForwards(10)),
            Cmd::SeekBackwards => UpdateAction::Player(PlayerCmd::SeekBackwards(10)),
            Cmd::Shuffle => UpdateAction::Player(PlayerCmd::ToggleShuffle),
            Cmd::Repeat => UpdateAction::Player(PlayerCmd::ToggleRepeat),
            _ => UpdateAction::Nothing,
        }
    }

    /// Look one key up: the command of its first binding, if any.
    pub fn get(&self, key: Key) -> (r: Option<Cmd>)
        ensures
            r == spec_lookup(self@, key),
    {
        let ghost bs = self@;
        let mut i: usize = 0;
        proof {
            assert(bs.skip(0) =~= bs);
        }
        while i < self.0.len()
            invariant
                0 <= i <= bs.len(),
                bs == self@,
                bs.len() == self.0.len(),
                spec_lookup(bs, key) == spec_lookup(bs.skip(i as int), key),
            decreases bs.len() - i,
        {
            let (k, c) = self.0[i];
            proof {
                assert(bs.skip(i as int)[0] == bs[i as int]);
            }
            if k == key {
                return Some(c);
            }
            proof {
                assert(bs.skip(i as int).drop_first() =~= bs.skip(i as int + 1));
            }
            i += 1;
        }
        proof {
            assert(bs.skip(i as int) =~= Seq::<(Key, Cmd)>::empty());
        }
        None
    }
}

} // verus!
