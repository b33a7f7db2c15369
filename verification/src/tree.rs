//! The state tree: an ordered mapping from keys to scalars or nested mappings.

use crate::text::same_text;
use vstd::prelude::*;

verus! {

/// What a value of the tree is, as mathematics: a scalar, or the ordered
/// entries of a mapping.
pub enum Node {
    Leaf(Seq<char>),
    Branch(Seq<(Seq<char>, Node)>),
}

/// The ordered entries of a mapping.
pub type Entries = Seq<(Seq<char>, Node)>;

/// The keys of a mapping, in the order of its entries.
pub open spec fn keys_of(entries: Entries) -> Seq<Seq<char>> {
    Seq::new(entries.len(), |i: int| entries[i].0)
}

/// The index of the first entry with this key.
pub open spec fn position(entries: Entries, key: Seq<char>) -> Option<int>
    decreases entries.len(),
{
    if entries.len() == 0 {
        None
    } else if entries[0].0 == key {
        Some(0)
    } else {
        match position(entries.drop_first(), key) {
            Some(i) => Some(i + 1),
            None => None,
        }
    }
}

/// The value stored under `key`: that of the first entry with this key.
pub open spec fn lookup(entries: Entries, key: Seq<char>) -> Option<Node> {
    match position(entries, key) {
        Some(i) => Some(entries[i].1),
        None => None,
    }
}

/// The entries after `node` was stored under `key`: an entry with this key
/// keeps its place and takes the new value, a new key goes to the end.
pub open spec fn upsert(entries: Entries, key: Seq<char>, node: Node) -> Entries {
    match position(entries, key) {
        Some(i) => entries.update(i, (key, node)),
        None => entries.push((key, node)),
    }
}

/// No key occurs twice among the entries.
pub open spec fn distinct_keys(entries: Entries) -> bool {
    forall|i: int, j: int|
        0 <= i < j < entries.len() ==> (#[trigger] entries[i]).0 != (#[trigger] entries[j]).0
}

/// Keys are unique in the mapping and in every mapping nested in it.
pub open spec fn entries_wf(entries: Entries) -> bool
    decreases entries,
{
    &&& distinct_keys(entries)
    &&& forall|i: int| 0 <= i < entries.len() ==> node_wf((#[trigger] entries[i]).1)
}

/// Keys are unique in every mapping of the value.
pub open spec fn node_wf(node: Node) -> bool
    decreases node,
{
    match node {
        Node::Leaf(_) => true,
        Node::Branch(entries) => entries_wf(entries),
    }
}

/// `position` finds `i` when the first entry with the key stands there.
pub proof fn lemma_position_found(entries: Entries, key: Seq<char>, i: int)
    requires
        0 <= i < entries.len(),
        entries[i].0 == key,
        forall|j: int| 0 <= j < i ==> (#[trigger] entries[j]).0 != key,
    ensures
        position(entries, key) == Some(i),
    decreases i,
{
    if i > 0 {
        let rest = entries.drop_first();
        assert forall|j: int| 0 <= j < i - 1 implies (#[trigger] rest[j]).0 != key by {
            assert(rest[j] == entries[j + 1]);
        }
        lemma_position_found(rest, key, i - 1);
    }
}

/// `position` finds nothing when no entry has the key.
pub proof fn lemma_position_absent(entries: Entries, key: Seq<char>)
    requires
        forall|j: int| 0 <= j < entries.len() ==> (#[trigger] entries[j]).0 != key,
    ensures
        position(entries, key).is_none(),
    decreases entries.len(),
{
    if entries.len() > 0 {
        let rest = entries.drop_first();
        assert forall|j: int| 0 <= j < rest.len() implies (#[trigger] rest[j]).0 != key by {
            assert(rest[j] == entries[j + 1]);
        }
        lemma_position_absent(rest, key);
    }
}

/// What `position` returns is the first entry with the key, and it returns
/// nothing only if there is none.
pub proof fn lemma_position_is_first(entries: Entries, key: Seq<char>)
    ensures
        match position(entries, key) {
            Some(i) => {
                &&& 0 <= i < entries.len()
                &&& entries[i].0 == key
                &&& forall|j: int| 0 <= j < i ==> (#[trigger] entries[j]).0 != key
            },
            None => forall|j: int| 0 <= j < entries.len() ==> (#[trigger] entries[j]).0 != key,
        },
    decreases entries.len(),
{
    if entries.len() > 0 && entries[0].0 != key {
        let rest = entries.drop_first();
        lemma_position_is_first(rest, key);
        match position(rest, key) {
            Some(i) => {
                assert(rest[i] == entries[i + 1]);
                assert forall|j: int| 0 <= j < i + 1 implies (#[trigger] entries[j]).0 != key by {
                    if j > 0 {
                        assert(rest[j - 1] == entries[j]);
                    }
                }
            },
            None => {
                assert forall|j: int| 0 <= j < entries.len() implies (#[trigger] entries[j]).0
                    != key by {
                    if j > 0 {
                        assert(rest[j - 1] == entries[j]);
                    }
                }
            },
        }
    }
}

/// With unique keys, every entry is found under its own key.
pub proof fn lemma_lookup_own_key(entries: Entries, i: int)
    requires
        distinct_keys(entries),
        0 <= i < entries.len(),
    ensures
        position(entries, entries[i].0) == Some(i),
        lookup(entries, entries[i].0) == Some(entries[i].1),
{
    lemma_position_found(entries, entries[i].0, i);
}

/// Storing a well-formed value keeps the keys unique at every level.
pub proof fn lemma_upsert_wf(entries: Entries, key: Seq<char>, node: Node)
    requires
        entries_wf(entries),
        node_wf(node),
    ensures
        entries_wf(upsert(entries, key, node)),
{
    let after = upsert(entries, key, node);
    lemma_position_is_first(entries, key);
    match position(entries, key) {
        Some(i) => {
            assert forall|a: int, b: int| 0 <= a < b < after.len() implies (#[trigger] after[a]).0
                != (#[trigger] after[b]).0 by {
                assert(after[a].0 == entries[a].0);
                assert(after[b].0 == entries[b].0);
            }
            assert forall|a: int| 0 <= a < after.len() implies node_wf((#[trigger] after[a]).1) by {
                if a != i {
                    assert(after[a] == entries[a]);
                }
            }
        },
        None => {
            assert forall|a: int, b: int| 0 <= a < b < after.len() implies (#[trigger] after[a]).0
                != (#[trigger] after[b]).0 by {
                assert(after[a] == entries[a]);
                if b < entries.len() {
                    assert(after[b] == entries[b]);
                }
            }
            assert forall|a: int| 0 <= a < after.len() implies node_wf((#[trigger] after[a]).1) by {
                if a < entries.len() {
                    assert(after[a] == entries[a]);
                }
            }
        },
    }
}

/// A lookup named a key that the mapping does not hold.
#[derive(Debug, Clone, Copy, PartialEq, Eq)]
pub struct KeyNotFound;

/// A value of the tree: a scalar, or a mapping to further values.
#[derive(Debug, PartialEq, Eq)]
pub enum StateValue {
    Item { value: String },
    Mapping { map: StateTree },
}

/// An ordered mapping from keys to values. Entries keep the order in which
/// their keys were first inserted.
#[derive(Debug, PartialEq, Eq)]
pub struct StateTree {
    entries: Vec<(String, StateValue)>,
}

impl View for StateValue {
    type V = Node;

    open spec fn view(&self) -> Node
        decreases self,
    {
        match self {
            StateValue::Item { value } => Node::Leaf(value@),
            StateValue::Mapping { map } => Node::Branch(map@),
        }
    }
}

impl View for StateTree {
    type V = Entries;

    closed spec fn view(&self) -> Entries
        decreases self,
    {
        Seq::new(
            self.entries.len() as nat,
            |i: int|
                if 0 <= i < self.entries.len() {
                    (self.entries[i].0@, self.entries[i].1@)
                } else {
                    arbitrary()
                },
        )
    }
}

impl StateValue {
    /// Keys are unique in every mapping of the value.
    pub open spec fn wf(&self) -> bool {
        node_wf(self@)
    }
}

impl StateTree {
    /// Keys are unique in the tree and in every mapping nested in it.
    pub open spec fn wf(&self) -> bool {
        entries_wf(self@)
    }

    /// The empty tree.
    pub fn new() -> (tree: StateTree)
        ensures
            tree@ == Entries::empty(),
            tree.wf(),
    {
        StateTree { entries: Vec::new() }
    }

    /// Stores `value` under `key` and returns the value that was there
    /// before, if there was one.
    pub fn insert(&mut self, key: String, value: StateValue) -> (previous: Option<StateValue>)
        requires
            old(self).wf(),
            value.wf(),
        ensures
            final(self)@ == upsert(old(self)@, key@, value@),
            final(self).wf(),
            match previous {
                Some(was) => lookup(old(self)@, key@) == Some(was@),
                None => lookup(old(self)@, key@).is_none(),
            },
    {
        let mut i: usize = 0;
        while i < self.entries.len()
            invariant
                0 <= i <= self.entries.len(),
                *self == *old(self),
                self.wf(),
                value.wf(),
                forall|j: int| 0 <= j < i ==> (#[trigger] self@[j]).0 != key@,
            decreases self.entries.len() - i,
        {
            if same_text(self.entries[i].0.as_str(), key.as_str()) {
                proof {
                    lemma_position_found(self@, key@, i as int);
                    lemma_upsert_wf(self@, key@, value@);
                }
                let mut slot = value;
                core::mem::swap(&mut self.entries[i].1, &mut slot);
                return Some(slot);
            }
            i += 1;
        }
        proof {
            lemma_position_absent(self@, key@);
            lemma_upsert_wf(self@, key@, value@);
        }
        self.entries.push((key, value));
        assert(self@ =~= upsert(old(self)@, key@, value@));
        None
    }

    /// The value stored under `key`.
    pub fn get(&self, key: &str) -> (result: Result<&StateValue, KeyNotFound>)
        ensures
            match result {
                Ok(value) => lookup(self@, key@) == Some(value@),
                Err(_) => lookup(self@, key@).is_none(),
            },
    {
        let mut i: usize = 0;
        while i < self.entries.len()
            invariant
                0 <= i <= self.entries.len(),
                forall|j: int| 0 <= j < i ==> (#[trigger] self@[j]).0 != key@,
            decreases self.entries.len() - i,
        {
            if same_text(self.entries[i].0.as_str(), key) {
                proof {
                    lemma_position_found(self@, key@, i as int);
                }
                return Ok(&self.entries[i].1);
            }
            i += 1;
        }
        proof {
            lemma_position_absent(self@, key@);
        }
        Err(KeyNotFound)
    }

    /// Whether a value is stored under `key`.
    pub fn contains_key(&self, key: &str) -> (found: bool)
        ensures
            found == lookup(self@, key@).is_some(),
    {
        self.get(key).is_ok()
    }

    /// The keys, in the order of the entries.
    pub fn keys(&self) -> (keys: Vec<String>)
        ensures
            keys.deep_view() == keys_of(self@),
    {
        let mut keys: Vec<String> = Vec::new();
        let mut i: usize = 0;
        while i < self.entries.len()
            invariant
                0 <= i <= self.entries.len(),
                keys.len() == i,
                forall|j: int| 0 <= j < i ==> (#[trigger] keys[j])@ == self@[j].0,
            decreases self.entries.len() - i,
        {
            keys.push(self.entries[i].0.clone());
            i += 1;
        }
        assert(keys.deep_view() =~= keys_of(self@));
        keys
    }

    /// Whether the tree has no entry.
    pub fn is_empty(&self) -> (empty: bool)
        ensures
            empty == (self@.len() == 0),
    {
        self.entries.len() == 0
    }

    /// The number of entries.
    pub fn len(&self) -> (n: usize)
        ensures
            n == self@.len(),
    {
        self.entries.len()
    }
}

} // verus!
