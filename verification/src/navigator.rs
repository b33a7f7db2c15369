//! The navigator: two cursors and a focus, kept consistent with a tree.

use crate::laws::law_init_selects_first;
use crate::model::{
    child_keys, cursor_in_place, first_index, lemma_next_index, next_index, previous_index,
    Command, Focus, NavigatorState,
};
use crate::tree::{StateTree, StateValue};
use vstd::prelude::*;

verus! {

/// A cursor as a mathematical index.
pub open spec fn cursor_view(selected: Option<usize>) -> Option<int> {
    match selected {
        Some(i) => Some(i as int),
        None => None,
    }
}

/// One step forward from a cursor in a list of `len` items.
fn step_forward(selected: Option<usize>, len: usize) -> (next: Option<usize>)
    requires
        cursor_in_place(cursor_view(selected), len as nat),
    ensures
        cursor_view(next) == next_index(cursor_view(selected), len as nat),
        cursor_in_place(cursor_view(next), len as nat),
{
    match selected {
        Some(i) => {
            proof {
                lemma_next_index(i as int, len as nat);
            }
            if i >= len - 1 {
                Some(0)
            } else {
                Some(i + 1)
            }
        },
        None => None,
    }
}

/// One step back from a cursor in a list of `len` items.
fn step_back(selected: Option<usize>, len: usize) -> (previous: Option<usize>)
    requires
        cursor_in_place(cursor_view(selected), len as nat),
    ensures
        cursor_view(previous) == previous_index(cursor_view(selected), len as nat),
        cursor_in_place(cursor_view(previous), len as nat),
{
    match selected {
        Some(i) => {
            if i == 0 {
                Some(len - 1)
            } else {
                Some(i - 1)
            }
        },
        None => None,
    }
}

/// Two selectable key lists over a tree. The primary list holds the keys of
/// the tree, the secondary list the keys below the selected primary entry.
pub struct DualPaneNavigator<'a> {
    tree: &'a StateTree,
    primary_keys: Vec<String>,
    primary_selected: Option<usize>,
    secondary_keys: Vec<String>,
    secondary_selected: Option<usize>,
    focus: Focus,
}

impl<'a> View for DualPaneNavigator<'a> {
    type V = NavigatorState;

    closed spec fn view(&self) -> NavigatorState {
        NavigatorState {
            tree: self.tree@,
            primary_keys: self.primary_keys.deep_view(),
            primary_selected: cursor_view(self.primary_selected),
            secondary_keys: self.secondary_keys.deep_view(),
            secondary_selected: cursor_view(self.secondary_selected),
            focus: self.focus,
        }
    }
}

impl<'a> DualPaneNavigator<'a> {
    /// The navigator is consistent with its tree.
    pub open spec fn wf(&self) -> bool {
        self@.wf()
    }

    /// Makes the secondary list anew from the selected primary entry and
    /// puts its cursor on the first key.
    fn update_secondary(&mut self)
        requires
            old(self)@.primary_selected matches Some(i) ==> 0 <= i < old(self)@.primary_keys.len(),
        ensures
            final(self)@ == old(self)@.recompute(),
    {
        let mut keys: Vec<String> = Vec::new();
        if let Some(i) = self.primary_selected {
            if let Ok(StateValue::Mapping { map }) = self.tree.get(self.primary_keys[i].as_str()) {
                keys = map.keys();
            }
        }
        self.secondary_selected = if keys.len() > 0 {
            Some(0)
        } else {
            None
        };
        self.secondary_keys = keys;
        assert(self@.secondary_keys =~= old(self)@.recompute().secondary_keys);
    }

    /// Starts browsing `tree`: the cursor of the primary pane stands on the
    /// first key, the secondary pane shows what lies below it, and the focus
    /// is on the primary pane.
    pub fn new(tree: &'a StateTree) -> (navigator: DualPaneNavigator<'a>)
        requires
            tree.wf(),
        ensures
            navigator@ == NavigatorState::init(tree@),
            navigator.wf(),
            tree@.len() > 0 ==> {
                &&& navigator@.primary_selected == Some(0int)
                &&& navigator@.secondary_keys == child_keys(Some(tree@[0].1))
                &&& navigator@.secondary_selected == first_index(navigator@.secondary_keys.len())
            },
    {
        proof {
            if tree@.len() > 0 {
                law_init_selects_first(tree@);
            }
        }
        let keys = tree.keys();
        let selected = if keys.len() > 0 {
            Some(0)
        } else {
            None
        };
        let mut navigator = DualPaneNavigator {
            tree,
            primary_keys: keys,
            primary_selected: selected,
            secondary_keys: Vec::new(),
            secondary_selected: None,
            focus: Focus::Primary,
        };
        assert(navigator@.secondary_keys =~= Seq::empty());
        navigator.update_secondary();
        navigator
    }

    /// Moves the cursor of the focused pane one step forward, from the last
    /// key to the first. A move in the primary pane makes the secondary pane
    /// anew, with its cursor on the first key; a move in the secondary pane
    /// leaves the primary pane as it is.
    pub fn move_next(&mut self)
        requires
            old(self).wf(),
        ensures
            final(self)@ == old(self)@.move_next(),
            final(self).wf(),
    {
        match self.focus {
            Focus::Primary => {
                self.primary_selected = step_forward(self.primary_selected, self.primary_keys.len());
                self.update_secondary();
            },
            Focus::Secondary => {
                self.secondary_selected = step_forward(
                    self.secondary_selected,
                    self.secondary_keys.len(),
                );
            },
        }
    }

    /// Moves the cursor of the focused pane one step back, from the first
    /// key to the last. A move in the primary pane makes the secondary pane
    /// anew, with its cursor on the first key; a move in the secondary pane
    /// leaves the primary pane as it is.
    pub fn move_previous(&mut self)
        requires
            old(self).wf(),
        ensures
            final(self)@ == old(self)@.move_previous(),
            final(self).wf(),
    {
        match self.focus {
            Focus::Primary => {
                self.primary_selected = step_back(self.primary_selected, self.primary_keys.len());
                self.update_secondary();
            },
            Focus::Secondary => {
                self.secondary_selected = step_back(
                    self.secondary_selected,
                    self.secondary_keys.len(),
                );
            },
        }
    }

    /// Gives the focus to the secondary pane if that pane has keys, and
    /// changes nothing otherwise: an empty pane takes no focus.
    pub fn move_right(&mut self)
        requires
            old(self).wf(),
        ensures
            final(self)@ == old(self)@.move_right(),
            final(self).wf(),
            old(self)@.secondary_keys.len() == 0 ==> final(self)@ == old(self)@,
    {
        if self.focus == Focus::Primary && self.secondary_keys.len() > 0 {
            self.focus = Focus::Secondary;
        }
    }

    /// Gives the focus back to the primary pane, and changes nothing if it
    /// is there already.
    pub fn move_left(&mut self)
        requires
            old(self).wf(),
        ensures
            final(self)@ == old(self)@.move_left(),
            final(self).wf(),
            old(self)@.focus == Focus::Primary ==> final(self)@ == old(self)@,
    {
        if self.focus == Focus::Secondary {
            self.focus = Focus::Primary;
        }
    }

    /// Carries out a navigation command.
    pub fn apply(&mut self, command: Command)
        requires
            old(self).wf(),
        ensures
            final(self)@ == old(self)@.apply(command),
            final(self).wf(),
    {
        match command {
            Command::MoveNext => self.move_next(),
            Command::MovePrevious => self.move_previous(),
            Command::MoveLeft => self.move_left(),
            Command::MoveRight => self.move_right(),
        }
    }

    /// The scalar to display for the current selection, or `None` where the
    /// selection leads to no scalar.
    pub fn resolved_value(&self) -> (value: Option<&'a str>)
        requires
            self.wf(),
        ensures
            match value {
                Some(text) => self@.resolved() == Some(text@),
                None => self@.resolved().is_none(),
            },
    {
        let i = match self.primary_selected {
            Some(i) => i,
            None => { return None; },
        };
        match self.tree.get(self.primary_keys[i].as_str()) {
            Ok(StateValue::Item { value }) => Some(value.as_str()),
            Ok(StateValue::Mapping { map }) => {
                let j = match self.secondary_selected {
                    Some(j) => j,
                    None => { return None; },
                };
                match map.get(self.secondary_keys[j].as_str()) {
                    Ok(StateValue::Item { value }) => Some(value.as_str()),
                    _ => None,
                }
            },
            Err(_) => None,
        }
    }

    /// The tree that is browsed.
    pub fn tree(&self) -> (tree: &'a StateTree)
        ensures
            tree@ == self@.tree,
    {
        self.tree
    }

    /// The keys of the primary pane.
    pub fn primary_keys(&self) -> (keys: &Vec<String>)
        ensures
            keys.deep_view() == self@.primary_keys,
    {
        &self.primary_keys
    }

    /// The cursor of the primary pane.
    pub fn primary_selected(&self) -> (selected: Option<usize>)
        ensures
            cursor_view(selected) == self@.primary_selected,
    {
        self.primary_selected
    }

    /// The keys of the secondary pane.
    pub fn secondary_keys(&self) -> (keys: &Vec<String>)
        ensures
            keys.deep_view() == self@.secondary_keys,
    {
        &self.secondary_keys
    }

    /// The cursor of the secondary pane.
    pub fn secondary_selected(&self) -> (selected: Option<usize>)
        ensures
            cursor_view(selected) == self@.secondary_selected,
    {
        self.secondary_selected
    }

    /// The pane that receives the move commands.
    pub fn focus(&self) -> (focus: Focus)
        ensures
            focus == self@.focus,
    {
        self.focus
    }
}

} // verus!
