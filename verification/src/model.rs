//! The navigator as a state machine over mathematical values.

use crate::tree::{entries_wf, keys_of, lookup, Entries, Node};
use vstd::arithmetic::div_mod::{lemma_mod_self_0, lemma_small_mod};
use vstd::prelude::*;

verus! {

/// The pane that receives the move commands.
#[derive(Debug, Clone, Copy, PartialEq, Eq, Structural)]
pub enum Focus {
    Primary,
    Secondary,
}

/// A navigation command.
#[derive(Debug, Clone, Copy, PartialEq, Eq, Structural)]
pub enum Command {
    MoveNext,
    MovePrevious,
    MoveLeft,
    MoveRight,
}

/// The cursor after one step forward in a list of `len` items: the next
/// index, the first one after the last. Without a selection, or in an empty
/// list, there is none.
pub open spec fn next_index(selected: Option<int>, len: nat) -> Option<int> {
    match selected {
        Some(i) => if len > 0 {
            Some((i + 1) % (len as int))
        } else {
            None
        },
        None => None,
    }
}

/// The cursor after one step back in a list of `len` items: the index
/// before, the last one before the first. Without a selection, or in an empty
/// list, there is none.
pub open spec fn previous_index(selected: Option<int>, len: nat) -> Option<int> {
    match selected {
        Some(i) => if len > 0 {
            Some(if i == 0 { len - 1 } else { i - 1 })
        } else {
            None
        },
        None => None,
    }
}

/// Within a list, a step forward goes to the next index, and from the last
/// index to the first.
pub proof fn lemma_next_index(i: int, len: nat)
    requires
        0 <= i < len,
    ensures
        next_index(Some(i), len) == Some(
            if i + 1 == len {
                0
            } else {
                i + 1
            },
        ),
{
    if i + 1 == len {
        lemma_mod_self_0(len as int);
    } else {
        lemma_small_mod((i + 1) as nat, len);
    }
}

/// A cursor is in place: on an item of the list, or absent where the list is
/// empty.
pub open spec fn cursor_in_place(selected: Option<int>, len: nat) -> bool {
    match selected {
        Some(i) => 0 <= i < len,
        None => len == 0,
    }
}

/// The cursor on the first item of a list, if it has one.
pub open spec fn first_index(len: nat) -> Option<int> {
    if len > 0 {
        Some(0)
    } else {
        None
    }
}

/// The keys to show beside a value: those of a mapping, none beside a scalar
/// or beside nothing.
pub open spec fn child_keys(node: Option<Node>) -> Seq<Seq<char>> {
    match node {
        Some(Node::Branch(entries)) => keys_of(entries),
        _ => Seq::empty(),
    }
}

/// The scalar that a value is, if it is one.
pub open spec fn scalar_of(node: Node) -> Option<Seq<char>> {
    match node {
        Node::Leaf(text) => Some(text),
        Node::Branch(_) => None,
    }
}

/// The scalar under `key` in a mapping, if a scalar is stored there.
pub open spec fn scalar_at(entries: Entries, key: Seq<char>) -> Option<Seq<char>> {
    match lookup(entries, key) {
        Some(node) => scalar_of(node),
        None => None,
    }
}

/// The state of the two panes over a tree.
pub struct NavigatorState {
    pub tree: Entries,
    pub primary_keys: Seq<Seq<char>>,
    pub primary_selected: Option<int>,
    pub secondary_keys: Seq<Seq<char>>,
    pub secondary_selected: Option<int>,
    pub focus: Focus,
}

impl NavigatorState {
    /// The value under the selected primary key.
    pub open spec fn primary_node(self) -> Option<Node> {
        match self.primary_selected {
            Some(i) => lookup(self.tree, self.primary_keys[i]),
            None => None,
        }
    }

    /// The state is consistent: the primary list holds the keys of the tree,
    /// the secondary list holds the keys below the selected primary entry,
    /// both cursors are in place, and the focus is on a pane with items.
    pub open spec fn wf(self) -> bool {
        &&& entries_wf(self.tree)
        &&& self.primary_keys == keys_of(self.tree)
        &&& cursor_in_place(self.primary_selected, self.primary_keys.len())
        &&& self.secondary_keys == child_keys(self.primary_node())
        &&& cursor_in_place(self.secondary_selected, self.secondary_keys.len())
        &&& self.focus == Focus::Secondary ==> self.secondary_keys.len() > 0
    }

    /// The secondary pane made anew from the selected primary entry, with
    /// the cursor on its first key.
    pub open spec fn recompute(self) -> NavigatorState {
        let keys = child_keys(self.primary_node());
        NavigatorState { secondary_keys: keys, secondary_selected: first_index(keys.len()), ..self }
    }

    /// The state in which browsing of `tree` starts.
    pub open spec fn init(tree: Entries) -> NavigatorState {
        let keys = keys_of(tree);
        NavigatorState {
            tree,
            primary_keys: keys,
            primary_selected: first_index(keys.len()),
            secondary_keys: Seq::empty(),
            secondary_selected: None,
            focus: Focus::Primary,
        }.recompute()
    }

    /// One step forward in the focused pane. A step in the primary pane
    /// makes the secondary pane anew.
    pub open spec fn move_next(self) -> NavigatorState {
        match self.focus {
            Focus::Primary => NavigatorState {
                primary_selected: next_index(self.primary_selected, self.primary_keys.len()),
                ..self
            }.recompute(),
            Focus::Secondary => NavigatorState {
                secondary_selected: next_index(self.secondary_selected, self.secondary_keys.len()),
                ..self
            },
        }
    }

    /// One step back in the focused pane. A step in the primary pane makes
    /// the secondary pane anew.
    pub open spec fn move_previous(self) -> NavigatorState {
        match self.focus {
            Focus::Primary => NavigatorState {
                primary_selected: previous_index(self.primary_selected, self.primary_keys.len()),
                ..self
            }.recompute(),
            Focus::Secondary => NavigatorState {
                secondary_selected: previous_index(
                    self.secondary_selected,
                    self.secondary_keys.len(),
                ),
                ..self
            },
        }
    }

    /// The focus goes to the secondary pane if that pane has items.
    pub open spec fn move_right(self) -> NavigatorState {
        if self.focus == Focus::Primary && self.secondary_keys.len() > 0 {
            NavigatorState { focus: Focus::Secondary, ..self }
        } else {
            self
        }
    }

    /// The focus goes back to the primary pane.
    pub open spec fn move_left(self) -> NavigatorState {
        if self.focus == Focus::Secondary {
            NavigatorState { focus: Focus::Primary, ..self }
        } else {
            self
        }
    }

    /// The state after a command.
    pub open spec fn apply(self, command: Command) -> NavigatorState {
        match command {
            Command::MoveNext => self.move_next(),
            Command::MovePrevious => self.move_previous(),
            Command::MoveLeft => self.move_left(),
            Command::MoveRight => self.move_right(),
        }
    }

    /// The scalar to display: that of the selected primary entry, or, where
    /// that entry is a mapping, the scalar under the selected secondary key.
    /// There is none without a primary selection, in a mapping without
    /// entries, and where the secondary key leads to a further mapping.
    pub open spec fn resolved(self) -> Option<Seq<char>> {
        match self.primary_node() {
            Some(Node::Leaf(text)) => Some(text),
            Some(Node::Branch(entries)) => match self.secondary_selected {
                Some(j) => scalar_at(entries, self.secondary_keys[j]),
                None => None,
            },
            None => None,
        }
    }
}

} // verus!
