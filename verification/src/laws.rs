//! Laws of the navigator, proved of its state machine. Every operation of
//! [`DualPaneNavigator`](crate::navigator::DualPaneNavigator) is specified by
//! the transition of the same name, so each law holds of the navigator too.

use crate::model::{
    child_keys, first_index, lemma_next_index, scalar_at, scalar_of, Command, Focus,
    NavigatorState,
};
use crate::tree::{
    entries_wf, keys_of, lemma_lookup_own_key, lookup, node_wf, position, Entries, Node,
};
use vstd::arithmetic::div_mod::{
    lemma_add_mod_noop_right, lemma_mod_add_multiples_vanish, lemma_small_mod,
};
use vstd::prelude::*;

verus! {

impl NavigatorState {
    /// The state after `count` steps forward.
    pub open spec fn move_next_times(self, count: nat) -> NavigatorState
        decreases count,
    {
        if count == 0 {
            self
        } else {
            self.move_next_times((count - 1) as nat).move_next()
        }
    }
}

/// Browsing starts in a consistent state.
pub proof fn law_init_is_consistent(tree: Entries)
    requires
        entries_wf(tree),
    ensures
        NavigatorState::init(tree).wf(),
{
}

/// Over a tree with entries, browsing starts with the primary cursor on the
/// first key, the secondary pane showing the keys below the first entry, and
/// the secondary cursor on the first of them, if there is one.
pub proof fn law_init_selects_first(tree: Entries)
    requires
        tree.len() > 0,
    ensures
        NavigatorState::init(tree).primary_keys == keys_of(tree),
        NavigatorState::init(tree).primary_selected == Some(0int),
        NavigatorState::init(tree).primary_node() == Some(tree[0].1),
        NavigatorState::init(tree).secondary_keys == child_keys(Some(tree[0].1)),
        NavigatorState::init(tree).secondary_selected == first_index(
            child_keys(Some(tree[0].1)).len(),
        ),
        NavigatorState::init(tree).focus == Focus::Primary,
{
    assert(position(tree, tree[0].0) == Some(0int));
}

/// Over a tree without entries, browsing starts with nothing selected and
/// nothing to display.
pub proof fn law_init_of_empty_tree(tree: Entries)
    requires
        tree.len() == 0,
    ensures
        NavigatorState::init(tree).primary_selected.is_none(),
        NavigatorState::init(tree).secondary_keys.len() == 0,
        NavigatorState::init(tree).secondary_selected.is_none(),
        NavigatorState::init(tree).resolved().is_none(),
{
}

/// Every command leads from a consistent state to a consistent state, and
/// never changes the tree or the primary list.
pub proof fn law_commands_keep_consistency(state: NavigatorState, command: Command)
    requires
        state.wf(),
    ensures
        state.apply(command).wf(),
        state.apply(command).tree == state.tree,
        state.apply(command).primary_keys == state.primary_keys,
{
    match state.primary_selected {
        Some(i) => {
            lemma_next_index(i, state.primary_keys.len());
        },
        None => {},
    }
    match state.secondary_selected {
        Some(j) => {
            lemma_next_index(j, state.secondary_keys.len());
        },
        None => {},
    }
}

/// A move in the secondary pane changes the secondary cursor and nothing
/// else; a move in the primary pane leaves the focus where it is.
pub proof fn law_moves_keep_focus(state: NavigatorState)
    ensures
        state.move_next().focus == state.focus,
        state.move_previous().focus == state.focus,
        state.focus == Focus::Secondary ==> state.move_next() == (NavigatorState {
            secondary_selected: state.move_next().secondary_selected,
            ..state
        }),
        state.focus == Focus::Secondary ==> state.move_previous() == (NavigatorState {
            secondary_selected: state.move_previous().secondary_selected,
            ..state
        }),
{
}

/// A step forward and then a step back bring the focused cursor back to
/// where it was. In the secondary pane the whole state comes back. In the
/// primary pane the state comes back but for the secondary cursor, which
/// stands on the first key again.
pub proof fn law_next_then_previous(state: NavigatorState)
    requires
        state.wf(),
    ensures
        state.focus == Focus::Secondary ==> state.move_next().move_previous() == state,
        state.focus == Focus::Primary ==> state.move_next().move_previous() == state.recompute(),
        state.move_next().move_previous().primary_selected == state.primary_selected,
{
    match state.focus {
        Focus::Primary => {
            if let Some(i) = state.primary_selected {
                lemma_next_index(i, state.primary_keys.len());
            }
        },
        Focus::Secondary => {
            if let Some(j) = state.secondary_selected {
                lemma_next_index(j, state.secondary_keys.len());
            }
        },
    }
}

/// A step back and then a step forward bring the focused cursor back to
/// where it was, in the same way.
pub proof fn law_previous_then_next(state: NavigatorState)
    requires
        state.wf(),
    ensures
        state.focus == Focus::Secondary ==> state.move_previous().move_next() == state,
        state.focus == Focus::Primary ==> state.move_previous().move_next() == state.recompute(),
        state.move_previous().move_next().primary_selected == state.primary_selected,
{
    match state.focus {
        Focus::Primary => {
            if let Some(i) = state.primary_selected {
                let n = state.primary_keys.len();
                lemma_next_index(if i == 0 { n - 1 } else { i - 1 }, n);
            }
        },
        Focus::Secondary => {
            if let Some(j) = state.secondary_selected {
                let n = state.secondary_keys.len();
                lemma_next_index(if j == 0 { n - 1 } else { j - 1 }, n);
            }
        },
    }
}

/// After `count` steps forward from index `i`, the secondary cursor stands
/// at `(i + count) mod n`, and nothing else has changed.
proof fn lemma_secondary_steps(state: NavigatorState, count: nat)
    requires
        state.wf(),
        state.focus == Focus::Secondary,
    ensures
        state.move_next_times(count) == (NavigatorState {
            secondary_selected: Some(
                (state.secondary_selected->0 + count) % (state.secondary_keys.len() as int),
            ),
            ..state
        }),
    decreases count,
{
    let n = state.secondary_keys.len() as int;
    let i = state.secondary_selected->0;
    if count == 0 {
        lemma_small_mod(i as nat, n as nat);
    } else {
        lemma_secondary_steps(state, (count - 1) as nat);
        lemma_add_mod_noop_right(1, i + count - 1, n);
        assert(1 + (i + count - 1) == i + count);
        assert(((i + count - 1) % n) + 1 == 1 + ((i + count - 1) % n));
    }
}

/// After `count` steps forward from index `i`, with `count > 0`, the primary
/// cursor stands at `(i + count) mod n` and the secondary pane is fresh.
proof fn lemma_primary_steps(state: NavigatorState, count: nat)
    requires
        state.wf(),
        state.focus == Focus::Primary,
        state.primary_keys.len() > 0,
        count > 0,
    ensures
        state.move_next_times(count) == (NavigatorState {
            primary_selected: Some(
                (state.primary_selected->0 + count) % (state.primary_keys.len() as int),
            ),
            ..state
        }).recompute(),
    decreases count,
{
    let n = state.primary_keys.len() as int;
    let i = state.primary_selected->0;
    if count == 1 {
        assert(state.move_next_times(0) == state);
    } else {
        lemma_primary_steps(state, (count - 1) as nat);
        lemma_add_mod_noop_right(1, i + count - 1, n);
        assert(1 + (i + count - 1) == i + count);
        assert(((i + count - 1) % n) + 1 == 1 + ((i + count - 1) % n));
    }
}

/// As many steps forward as the focused list has keys bring the focused
/// cursor back to where it started. In the secondary pane the whole state
/// comes back. In the primary pane the state comes back but for the
/// secondary cursor, which stands on the first key again.
pub proof fn law_full_round(state: NavigatorState)
    requires
        state.wf(),
    ensures
        state.focus == Focus::Secondary ==> state.move_next_times(state.secondary_keys.len())
            == state,
        state.focus == Focus::Primary ==> state.move_next_times(state.primary_keys.len())
            == state.recompute(),
        state.focus == Focus::Primary ==> state.move_next_times(
            state.primary_keys.len(),
        ).primary_selected == state.primary_selected,
{
    match state.focus {
        Focus::Secondary => {
            let n = state.secondary_keys.len();
            let i = state.secondary_selected->0;
            lemma_secondary_steps(state, n);
            lemma_mod_add_multiples_vanish(i, n as int);
            lemma_small_mod(i as nat, n);
            assert(i + n == n + i);
        },
        Focus::Primary => {
            let n = state.primary_keys.len();
            if n > 0 {
                let i = state.primary_selected->0;
                lemma_primary_steps(state, n);
                lemma_mod_add_multiples_vanish(i, n as int);
                lemma_small_mod(i as nat, n);
                assert(i + n == n + i);
            } else {
                assert(state.secondary_keys =~= state.recompute().secondary_keys);
            }
        },
    }
}

/// While the secondary pane is empty, a move to the right changes nothing,
/// wherever the focus is.
pub proof fn law_move_right_needs_keys(state: NavigatorState)
    requires
        state.secondary_keys.len() == 0,
    ensures
        state.move_right() == state,
{
}

/// While the focus is on the primary pane, a move to the left changes
/// nothing.
pub proof fn law_move_left_from_primary(state: NavigatorState)
    requires
        state.focus == Focus::Primary,
    ensures
        state.move_left() == state,
{
}

/// A move to the right followed by a move to the left leaves the focus on
/// the primary pane and everything else as it was.
pub proof fn law_right_then_left(state: NavigatorState)
    ensures
        state.move_right().move_left() == (NavigatorState { focus: Focus::Primary, ..state }),
{
}

/// In a consistent state the cursors address entries by their place: the
/// primary cursor the entry of the tree at its index, and, where that entry
/// is a mapping, the secondary cursor the entry of the mapping at its index,
/// whose scalar is displayed.
pub proof fn law_cursors_address_entries(state: NavigatorState)
    requires
        state.wf(),
    ensures
        state.primary_selected matches Some(i) ==> {
            &&& state.primary_node() == Some(state.tree[i].1)
            &&& state.tree[i].1 matches Node::Branch(entries) ==> (state.secondary_selected matches Some(
                j,
            ) ==> state.resolved() == scalar_of(entries[j].1))
        },
{
    if let Some(i) = state.primary_selected {
        lemma_lookup_own_key(state.tree, i);
        if let Node::Branch(entries) = state.tree[i].1 {
            assert(node_wf(state.tree[i].1));
            assert(entries_wf(entries));
            if let Some(j) = state.secondary_selected {
                lemma_lookup_own_key(entries, j);
            }
        }
    }
}

/// Where the primary selection leads to a scalar, that scalar is displayed,
/// whatever the secondary cursor holds.
pub proof fn law_scalar_ignores_secondary(
    state: NavigatorState,
    text: Seq<char>,
    secondary_selected: Option<int>,
)
    requires
        state.primary_node() == Some(Node::Leaf(text)),
    ensures
        state.resolved() == Some(text),
        (NavigatorState { secondary_selected, ..state }).resolved() == Some(text),
{
}

/// Where the secondary pane was just made anew over a mapping with entries,
/// the value of the first entry is displayed if it is a scalar.
pub proof fn law_fresh_secondary_shows_first(state: NavigatorState, entries: Entries)
    requires
        state.primary_node() == Some(Node::Branch(entries)),
        entries.len() > 0,
    ensures
        state.recompute().secondary_selected == Some(0int),
        state.recompute().resolved() == scalar_at(entries, entries[0].0),
        lookup(entries, entries[0].0) == Some(entries[0].1),
{
    assert(position(entries, entries[0].0) == Some(0int));
}

} // verus!
