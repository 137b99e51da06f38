//! The laws of the navigation core, each proved once and for all: what
//! repeated cursor steps can and cannot do, how the hover history grows and
//! forgets, what confirming and cancelling leave behind, and that a session
//! is a pure fold of its key sequence.

use vstd::prelude::*;
use vstd::math::min;
use crate::block::Blokka;
use crate::block::Direction;
use crate::block::FocusV;
use crate::block::Index;
use crate::block::has_move;
use crate::block::history_cap;
use crate::block::spec_move;
use crate::event::Key;
use crate::state::StateV;
use crate::state::spec_handle;

verus! {

/// The cursor after `n` backward steps.
pub open spec fn apply_dec(i: Index, n: nat) -> Index
    decreases n,
{
    if n == 0 {
        i
    } else {
        apply_dec(i, (n - 1) as nat).spec_dec()
    }
}

/// The cursor after `n` forward steps.
pub open spec fn apply_inc(i: Index, n: nat) -> Index
    decreases n,
{
    if n == 0 {
        i
    } else {
        apply_inc(i, (n - 1) as nat).spec_inc()
    }
}

/// A cursor on the first entry stays there under any number of backward
/// steps.
pub proof fn lemma_dec_stays_at_zero(i: Index, n: nat)
    requires
        i.inner == 0,
    ensures
        apply_dec(i, n) == i,
    decreases n,
{
    if n > 0 {
        lemma_dec_stays_at_zero(i, (n - 1) as nat);
    }
}

/// `n` forward steps saturate at the last entry: the cursor lands on the
/// smaller of where the steps would take it and the last position.
pub proof fn lemma_inc_saturates(i: Index, n: nat)
    requires
        i.inv(),
    ensures
        apply_inc(i, n).inv(),
        apply_inc(i, n).bound() == i.bound(),
        apply_inc(i, n).inner == if i.bound() == 0 {
            0int
        } else {
            min(i.inner + n, i.bound() - 1)
        },
    decreases n,
{
    if n > 0 {
        lemma_inc_saturates(i, (n - 1) as nat);
    }
}

/// The cursor after a whole sequence of steps, one flag per step: a true
/// flag steps forward, a false one steps back.
pub open spec fn apply_steps(i: Index, steps: Seq<bool>) -> Index
    decreases steps.len(),
{
    if steps.len() == 0 {
        i
    } else {
        let j = if steps[0] {
            i.spec_inc()
        } else {
            i.spec_dec()
        };
        apply_steps(j, steps.drop_first())
    }
}

/// Under every sequence of forward and backward steps, the cursor stays in
/// `[0, bound-1]` — or at `0` over an empty list — and the bound never
/// changes: boundary hits are absorbed, never an error.
pub proof fn lemma_steps_stay_in_range(i: Index, steps: Seq<bool>)
    requires
        i.inv(),
    ensures
        apply_steps(i, steps).inv(),
        apply_steps(i, steps).bound() == i.bound(),
    decreases steps.len(),
{
    if steps.len() > 0 {
        let j = if steps[0] {
            i.spec_inc()
        } else {
            i.spec_dec()
        };
        lemma_steps_stay_in_range(j, steps.drop_first());
    }
}

/// Moving towards a direction with no configured neighbor and no history
/// recall changes nothing: not the hovered panel, not the history.
pub proof fn lemma_move_without_neighbor(s: FocusV, d: Direction)
    requires
        !has_move(s.hovered, d),
    ensures
        spec_move(s, d) == s,
{
}

/// Hovering a panel pushes exactly one history entry — the panel left
/// behind, at the front — and the history never outgrows its cap.
pub proof fn lemma_set_hover_pushes_one(s: FocusV, b: Blokka)
    ensures
        s.spec_set_hover(b).hovered == b,
        s.spec_set_hover(b).active == s.active,
        s.spec_set_hover(b).history.len() == min(s.history.len() as int + 1, history_cap()),
        s.spec_set_hover(b).history[0] == s.hovered,
        s.spec_set_hover(b).history.len() <= history_cap(),
{
}

/// Six hovers in a row fill the whole history with the five panels hovered
/// in between, most recent first: what was hovered before the first of the
/// six is forgotten, as long as none of the five brings it back.
pub proof fn lemma_sixth_hover_forgets_first(
    s: FocusV,
    v1: Blokka,
    v2: Blokka,
    v3: Blokka,
    v4: Blokka,
    v5: Blokka,
    v6: Blokka,
)
    requires
        s.inv(),
    ensures
        ({
            let t = s.spec_set_hover(v1).spec_set_hover(v2).spec_set_hover(v3).spec_set_hover(
                v4,
            ).spec_set_hover(v5).spec_set_hover(v6);
            &&& t.history == seq![v5, v4, v3, v2, v1]
            &&& t.hovered == v6
            &&& (s.hovered != v1 && s.hovered != v2 && s.hovered != v3 && s.hovered != v4
                && s.hovered != v5 ==> !t.history.contains(s.hovered))
        }),
{
    let t = s.spec_set_hover(v1).spec_set_hover(v2).spec_set_hover(v3).spec_set_hover(
        v4,
    ).spec_set_hover(v5).spec_set_hover(v6);
    assert(t.history =~= seq![v5, v4, v3, v2, v1]);
    if s.hovered != v1 && s.hovered != v2 && s.hovered != v3 && s.hovered != v4 && s.hovered
        != v5 {
        assert(forall|j: int| 0 <= j < t.history.len() ==> t.history[j] != s.hovered);
        assert(!t.history.contains(s.hovered));
    }
}

/// Confirming while a panel is hovered activates exactly that panel and
/// leaves the hover where it was.
pub proof fn lemma_confirm_activates_hovered(s: FocusV)
    ensures
        s.spec_confirm().active == Some(s.hovered),
        s.spec_confirm().hovered == s.hovered,
        s.spec_confirm().history == s.history,
{
}

/// Cancelling while a panel is active deactivates it and leaves the hover
/// on that very panel.
pub proof fn lemma_cancel_keeps_hover(s: FocusV)
    requires
        s.inv(),
        s.active is Some,
    ensures
        s.spec_cancel().active is None,
        s.spec_cancel().hovered == s.hovered,
        s.spec_cancel().hovered == s.active->0,
        s.spec_cancel().history == s.history,
{
}

/// The state a key sequence ends in, replayed from `s`: a pure fold of
/// `spec_handle` over the keys.
pub open spec fn spec_run(s: StateV, keys: Seq<Key>) -> StateV
    decreases keys.len(),
{
    if keys.len() == 0 {
        s
    } else {
        spec_run(spec_handle(s, keys[0]).0, keys.drop_first())
    }
}

/// A processing step is a pure function of the state and the key: two
/// replays of equal key sequences from equal states end in equal states —
/// nothing else, no clock and no terminal, enters the transition.
pub proof fn lemma_replay_deterministic(s1: StateV, s2: StateV, keys1: Seq<Key>, keys2: Seq<Key>)
    requires
        s1 == s2,
        keys1 == keys2,
    ensures
        spec_run(s1, keys1) == spec_run(s2, keys2),
{
}

} // verus!
