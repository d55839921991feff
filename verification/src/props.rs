//! The bag of properties that a user adds to a record.

use crate::json::{
    as_map, distinct_keys, has_key, key_index, members_view, Json, JsonView, Members,
};
use vstd::prelude::*;

verus! {

/// The members after a write: a key that is present keeps its place and takes
/// the new value, a new key goes to the end.
pub open spec fn with_member(members: Members, key: Seq<char>, value: JsonView) -> Members {
    if has_key(members, key) {
        members.update(key_index(members, key), (key, value))
    } else {
        members.push((key, value))
    }
}

/// A write keeps the keys distinct and is an insertion into the mapping.
pub proof fn lemma_with_member(members: Members, key: Seq<char>, value: JsonView)
    requires
        distinct_keys(members),
    ensures
        distinct_keys(with_member(members, key, value)),
        as_map(with_member(members, key, value)) == as_map(members).insert(key, value),
{
    let after = with_member(members, key, value);
    if has_key(members, key) {
        assert forall|i: int| 0 <= i < after.len() implies (#[trigger] after[i]).0
            == members[i].0 by {}
        assert forall|k: Seq<char>| has_key(after, k) == has_key(members, k) by {
            if has_key(members, k) {
                let i = key_index(members, k);
                assert(after[i].0 == k);
            }
            if has_key(after, k) {
                let i = key_index(after, k);
                assert(members[i].0 == k);
            }
        }
        assert forall|k: Seq<char>| has_key(after, k) implies #[trigger] as_map(after)[k]
            == as_map(members).insert(key, value)[k] by {
            let i = key_index(after, k);
            let j = key_index(members, k);
            assert(members[i].0 == k);
            assert(i == j);
        }
    } else {
        assert forall|k: Seq<char>| has_key(after, k) == (has_key(members, k) || k == key) by {
            if has_key(members, k) {
                let i = key_index(members, k);
                assert(after[i].0 == k);
            }
            if k == key {
                assert(after[members.len() as int].0 == k);
            }
            if has_key(after, k) {
                let i = key_index(after, k);
                if i < members.len() {
                    assert(members[i].0 == k);
                }
            }
        }
        assert forall|k: Seq<char>| has_key(after, k) implies #[trigger] as_map(after)[k]
            == as_map(members).insert(key, value)[k] by {
            let i = key_index(after, k);
            if k != key {
                let j = key_index(members, k);
                assert(i < members.len());
                assert(members[i].0 == k);
                assert(i == j);
            } else {
                if i < members.len() {
                    assert(members[i].0 == k);
                }
            }
        }
    }
    assert(as_map(after) =~= as_map(members).insert(key, value));
}

/// The members after a key was taken away: without the member that carried
/// it, the others in their order.
pub open spec fn without_member(members: Members, key: Seq<char>) -> Members {
    if has_key(members, key) {
        members.remove(key_index(members, key))
    } else {
        members
    }
}

/// Taking a key away keeps the keys distinct and removes it from the mapping.
pub proof fn lemma_without_member(members: Members, key: Seq<char>)
    requires
        distinct_keys(members),
    ensures
        distinct_keys(without_member(members, key)),
        as_map(without_member(members, key)) == as_map(members).remove(key),
{
    let after = without_member(members, key);
    if has_key(members, key) {
        let at = key_index(members, key);
        assert forall|i: int| 0 <= i < after.len() implies #[trigger] after[i] == members[if i
            < at {
            i
        } else {
            i + 1
        }] by {}
        assert forall|i: int, j: int| 0 <= i < j < after.len() implies (#[trigger] after[i]).0 != (
        #[trigger] after[j]).0 by {
            let a = if i < at { i } else { i + 1 };
            let b = if j < at { j } else { j + 1 };
            assert(after[i] == members[a] && after[j] == members[b]);
        }
        assert forall|k: Seq<char>| has_key(after, k) == (has_key(members, k) && k != key) by {
            if has_key(members, k) && k != key {
                let i = key_index(members, k);
                let moved = if i < at { i } else { i - 1 };
                assert(after[moved] == members[i]);
            }
            if has_key(after, k) {
                let i = key_index(after, k);
                let from = if i < at { i } else { i + 1 };
                assert(after[i] == members[from]);
                assert(members[from].0 == k);
            }
        }
        assert forall|k: Seq<char>| has_key(after, k) implies #[trigger] as_map(after)[k]
            == as_map(members)[k] by {
            let i = key_index(after, k);
            let from = if i < at { i } else { i + 1 };
            assert(after[i] == members[from]);
            assert(members[from].0 == k);
            assert(key_index(members, k) == from);
        }
    }
    assert(as_map(after) =~= as_map(members).remove(key));
}

/// The user's properties: a mapping from keys to JSON values that remembers
/// the order in which its keys were first written. Two bags are equal when
/// they hold the same entries in the same order.
#[derive(Debug, PartialEq, Eq)]
pub struct PropertyBag {
    entries: Vec<(String, Json)>,
}

impl View for PropertyBag {
    type V = Map<Seq<char>, JsonView>;

    open spec fn view(&self) -> Map<Seq<char>, JsonView> {
        as_map(self.members())
    }
}

impl PropertyBag {
    /// The entries in the order in which their keys were first written.
    pub closed spec fn members(&self) -> Members {
        members_view(self.entries@)
    }

    /// What holds of every bag: its keys are distinct.
    #[verifier::type_invariant]
    pub open spec fn keys_stay_distinct(&self) -> bool {
        distinct_keys(self.members())
    }

    /// An empty bag.
    pub fn new() -> (bag: PropertyBag)
        ensures
            bag.members() == Members::empty(),
            bag@ == Map::<Seq<char>, JsonView>::empty(),
    {
        let bag = PropertyBag { entries: Vec::new() };
        assert(bag.members() =~= Members::empty());
        assert(bag@ =~= Map::<Seq<char>, JsonView>::empty());
        bag
    }

    /// The number of keys.
    pub fn len(&self) -> (n: usize)
        ensures
            n == self.members().len(),
    {
        self.entries.len()
    }

    /// Where the key stands among the entries, if it is there.
    fn position(&self, key: &str) -> (at: Option<usize>)
        ensures
            match at {
                Some(i) => i < self.members().len() && self.members()[i as int].0 == key@ && i
                    == key_index(self.members(), key@),
                None => !has_key(self.members(), key@),
            },
    {
        proof {
            use_type_invariant(self);
        }
        let mut i: usize = 0;
        while i < self.entries.len()
            invariant
                i <= self.entries.len(),
                distinct_keys(self.members()),
                forall|j: int| 0 <= j < i ==> (#[trigger] self.members()[j]).0 != key@,
            decreases self.entries.len() - i,
        {
            if self.entries[i].0.as_str().eq(key) {
                assert(self.members()[i as int].0 == key@);
                assert(self.members()[key_index(self.members(), key@)].0 == key@);
                return Some(i);
            }
            i = i + 1;
        }
        None
    }

    /// Whether the key has a value.
    pub fn contains_key(&self, key: &str) -> (found: bool)
        ensures
            found == self@.contains_key(key@),
    {
        self.position(key).is_some()
    }

    /// The value written last under the key.
    pub fn get(&self, key: &str) -> (value: Option<&Json>)
        ensures
            match value {
                Some(v) => self@.contains_key(key@) && v@ == self@[key@],
                None => !self@.contains_key(key@),
            },
    {
        match self.position(key) {
            Some(i) => Some(&self.entries[i].1),
            None => None,
        }
    }

    /// Writes the value under the key: over the value that the key had, or as
    /// a new last entry.
    pub fn insert(&mut self, key: String, value: Json)
        ensures
            final(self).members() == with_member(old(self).members(), key@, value@),
            final(self)@ == old(self)@.insert(key@, value@),
    {
        let ghost before = self.members();
        let ghost after = with_member(before, key@, value@);
        proof {
            use_type_invariant(&*self);
            lemma_with_member(before, key@, value@);
        }
        let at = self.position(key.as_str());
        let mut entries: Vec<(String, Json)> = Vec::new();
        std::mem::swap(&mut entries, &mut self.entries);
        match at {
            Some(i) => {
                entries.set(i, (key, value));
            },
            None => {
                entries.push((key, value));
            },
        }
        assert(members_view(entries@) =~= after);
        self.entries = entries;
    }

    /// Takes the key away and hands out the value that it had. The other
    /// entries keep their order.
    pub fn remove(&mut self, key: &str) -> (removed: Option<Json>)
        ensures
            final(self).members() == without_member(old(self).members(), key@),
            final(self)@ == old(self)@.remove(key@),
            match removed {
                Some(value) => old(self)@.contains_key(key@) && value@ == old(self)@[key@],
                None => !old(self)@.contains_key(key@),
            },
    {
        let ghost before = self.members();
        proof {
            use_type_invariant(&*self);
            lemma_without_member(before, key@);
        }
        match self.position(key) {
            Some(i) => {
                let mut entries: Vec<(String, Json)> = Vec::new();
                std::mem::swap(&mut entries, &mut self.entries);
                let entry = entries.remove(i);
                assert(members_view(entries@) =~= without_member(before, key@));
                self.entries = entries;
                Some(entry.1)
            },
            None => None,
        }
    }

    /// The bag as a JSON object with the entries in their order.
    pub fn to_json(&self) -> (object: Json)
        ensures
            object@ == JsonView::Object(self.members()),
    {
        let mut members: Vec<(String, Json)> = Vec::new();
        let mut i: usize = 0;
        while i < self.entries.len()
            invariant
                i <= self.entries.len(),
                members.len() == i,
                forall|j: int|
                    0 <= j < i ==> members@[j].0@ == self.entries@[j].0@ && members@[j].1@
                        == self.entries@[j].1@,
            decreases self.entries.len() - i,
        {
            let name = self.entries[i].0.clone();
            let value = self.entries[i].1.clone();
            members.push((name, value));
            i = i + 1;
        }
        assert(members_view(members@) =~= self.members());
        Json::object(members)
    }
}

impl Clone for PropertyBag {
    /// Copies the bag; the copy has the same entries in the same order.
    fn clone(&self) -> (copy: PropertyBag)
        ensures
            copy.members() == self.members(),
            copy@ == self@,
    {
        proof {
            use_type_invariant(self);
        }
        let mut entries: Vec<(String, Json)> = Vec::new();
        let mut i: usize = 0;
        while i < self.entries.len()
            invariant
                i <= self.entries.len(),
                entries.len() == i,
                forall|j: int|
                    0 <= j < i ==> entries@[j].0@ == self.entries@[j].0@ && entries@[j].1@
                        == self.entries@[j].1@,
            decreases self.entries.len() - i,
        {
            let name = self.entries[i].0.clone();
            let value = self.entries[i].1.clone();
            entries.push((name, value));
            i = i + 1;
        }
        assert(members_view(entries@) =~= self.members());
        PropertyBag { entries }
    }
}

} // verus!
