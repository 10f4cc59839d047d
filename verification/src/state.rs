//! The state that every chain keeps: the set of active nodes and the chat log.

use vstd::prelude::*;

use crate::identity::PublicKey;
use crate::interaction::{log_view, ChatInteraction, ChatInteractionView};

verus! {

/// A set of node keys in which no key occurs twice.
///
/// The view is the mathematical set of the keys held.
#[derive(Debug)]
pub struct NodeSet {
    keys: Vec<PublicKey>,
}

impl View for NodeSet {
    type V = Set<PublicKey>;

    closed spec fn view(&self) -> Set<PublicKey> {
        self.keys@.to_set()
    }
}

/// Finds the first place of `key` in `keys`, if it occurs there.
pub fn position(keys: &[PublicKey], key: &PublicKey) -> (found: Option<usize>)
    ensures
        match found {
            Some(index) => {
                &&& index < keys@.len()
                &&& keys@[index as int] == *key
                &&& !keys@.take(index as int).contains(*key)
            },
            None => !keys@.contains(*key),
        },
{
    let mut index: usize = 0;
    while index < keys.len()
        invariant
            index <= keys.len(),
            forall|i: int| 0 <= i < index ==> keys[i] != *key,
        decreases keys.len() - index,
    {
        if keys[index] == *key {
            return Some(index);
        }
        index += 1;
    }
    None
}

/// Taking one place out of a sequence without duplicates leaves a sequence
/// without duplicates, whose set is the set before without the key removed.
proof fn lemma_remove_from_set(keys: Seq<PublicKey>, index: int)
    requires
        keys.no_duplicates(),
        0 <= index < keys.len(),
    ensures
        keys.remove(index).no_duplicates(),
        keys.remove(index).to_set() == keys.to_set().remove(keys[index]),
{
    let rest = keys.remove(index);
    assert forall|key: PublicKey| rest.to_set().contains(key) implies keys.to_set().remove(
        keys[index],
    ).contains(key) by {
        let i = choose|i: int| 0 <= i < rest.len() && rest[i] == key;
        if i < index {
            assert(keys[i] == key);
        } else {
            assert(keys[i + 1] == key);
        }
    }
    assert forall|key: PublicKey| keys.to_set().remove(keys[index]).contains(key) implies rest.to_set().contains(
        key,
    ) by {
        let i = choose|i: int| 0 <= i < keys.len() && keys[i] == key;
        if i < index {
            assert(rest[i] == key);
        } else {
            assert(rest[i - 1] == key);
        }
    }
    assert(rest.to_set() =~= keys.to_set().remove(keys[index]));
}

impl NodeSet {
    #[verifier::type_invariant]
    spec fn well_formed(self) -> bool {
        self.keys@.no_duplicates()
    }

    /// Every node set is finite.
    pub proof fn lemma_finite(self)
        ensures
            self@.finite(),
    {
        vstd::seq_lib::seq_to_set_is_finite(self.keys@);
    }

    /// The empty set.
    pub fn new() -> (nodes: Self)
        ensures
            nodes@ == Set::<PublicKey>::empty(),
    {
        let nodes = NodeSet { keys: Vec::new() };
        assert(nodes.keys@.to_set() =~= Set::<PublicKey>::empty());
        nodes
    }

    /// Whether `key` is in the set.
    pub fn contains(&self, key: &PublicKey) -> (present: bool)
        ensures
            present == self@.contains(*key),
    {
        position(self.keys.as_slice(), key).is_some()
    }

    /// The number of keys in the set.
    pub fn len(&self) -> (count: usize)
        ensures
            count == self@.len(),
            self@.finite(),
    {
        proof {
            use_type_invariant(self);
            self.keys@.unique_seq_to_set();
            vstd::seq_lib::seq_to_set_is_finite(self.keys@);
        }
        self.keys.len()
    }

    /// Whether the set holds no key.
    pub fn is_empty(&self) -> (empty: bool)
        ensures
            empty == (self@ == Set::<PublicKey>::empty()),
    {
        let empty = self.keys.len() == 0;
        proof {
            if empty {
                assert(self.keys@.to_set() =~= Set::<PublicKey>::empty());
            } else {
                assert(self.keys@.to_set().contains(self.keys@[0]));
            }
        }
        empty
    }

    /// Adds `key` to the set. Adding a key that is already there changes nothing.
    pub fn insert(&mut self, key: PublicKey)
        ensures
            final(self)@ == old(self)@.insert(key),
    {
        proof {
            use_type_invariant(&*self);
        }
        if position(self.keys.as_slice(), &key).is_none() {
            let mut keys = Vec::new();
            std::mem::swap(&mut keys, &mut self.keys);
            let ghost before = keys@;
            keys.push(key);
            proof {
                before.lemma_push_to_set_commute(key);
            }
            self.keys = keys;
        } else {
            assert(self.keys@.to_set() =~= self.keys@.to_set().insert(key));
        }
    }

    /// Takes `key` out of the set. Taking out a key that is not there changes nothing.
    pub fn remove(&mut self, key: &PublicKey)
        ensures
            final(self)@ == old(self)@.remove(*key),
    {
        proof {
            use_type_invariant(&*self);
        }
        match position(self.keys.as_slice(), key) {
            Some(index) => {
                let mut keys = Vec::new();
                std::mem::swap(&mut keys, &mut self.keys);
                let ghost before = keys@;
                keys.remove(index);
                proof {
                    lemma_remove_from_set(before, index as int);
                }
                self.keys = keys;
            },
            None => {
                assert(self.keys@.to_set() =~= self.keys@.to_set().remove(*key));
            },
        }
    }

    /// The keys of the set, each once.
    pub fn to_vec(&self) -> (keys: Vec<PublicKey>)
        ensures
            keys@.to_set() == self@,
            keys@.no_duplicates(),
    {
        proof {
            use_type_invariant(self);
        }
        self.keys.clone()
    }
}

impl Clone for NodeSet {
    fn clone(&self) -> (copy: Self)
        ensures
            copy@ == self@,
    {
        proof {
            use_type_invariant(self);
        }
        let keys = self.keys.clone();
        assert(keys@ =~= self.keys@);
        NodeSet { keys }
    }
}

/// What a chain stores: its copy of the active nodes and its chat log.
#[derive(Clone, Debug)]
pub struct Application {
    pub active_atoma_nodes: NodeSet,
    pub chat_log: Vec<ChatInteraction>,
}

/// The mathematical content of an [`Application`].
pub struct ApplicationView {
    pub active_atoma_nodes: Set<PublicKey>,
    pub chat_log: Seq<ChatInteractionView>,
}

impl View for Application {
    type V = ApplicationView;

    open spec fn view(&self) -> ApplicationView {
        ApplicationView {
            active_atoma_nodes: self.active_atoma_nodes@,
            chat_log: log_view(self.chat_log@),
        }
    }
}

impl Application {
    /// The state of a chain on which nothing has happened yet: no node, no entry.
    pub fn new() -> (state: Self)
        ensures
            state@.active_atoma_nodes == Set::<PublicKey>::empty(),
            state@.chat_log == Seq::<ChatInteractionView>::empty(),
    {
        let state = Application { active_atoma_nodes: NodeSet::new(), chat_log: Vec::new() };
        assert(log_view(state.chat_log@) =~= Seq::<ChatInteractionView>::empty());
        state
    }
}

} // verus!
