//! A name-keyed collection with verified map semantics.
//!
//! The scene keys entities and cameras by name. The collection is a
//! sequence of pairs with pairwise-distinct keys, and its mathematical
//! view is the `Map` from key characters to values; every operation's
//! contract is stated against that view.

use vstd::prelude::*;
use vstd::pervasive::VecAdditionalExecFns;

verus! {

/// The keys of an entry sequence are pairwise distinct.
pub open spec fn seq_keys_unique<T>(s: Seq<(String, T)>) -> bool {
    forall|i: int, j: int|
        0 <= i < j < s.len() ==> (#[trigger] s[i]).0@ != (#[trigger] s[j]).0@
}

/// The mapping an entry sequence denotes; on duplicate keys the later
/// entry wins, though well-formed collections never hold a key twice.
pub open spec fn as_map<T>(s: Seq<(String, T)>) -> Map<Seq<char>, T>
    decreases s.len(),
{
    if s.len() == 0 {
        Map::empty()
    } else {
        as_map(s.drop_last()).insert(s.last().0@, s.last().1)
    }
}

/// A key occurs in the denoted map exactly when some entry carries it.
pub proof fn lemma_as_map_contains<T>(s: Seq<(String, T)>, k: Seq<char>)
    ensures
        as_map(s).dom().contains(k) <==> exists|i: int| 0 <= i < s.len() && (#[trigger] s[i]).0@ == k,
    decreases s.len(),
{
    if s.len() > 0 {
        lemma_as_map_contains(s.drop_last(), k);
        assert(forall|i: int| 0 <= i < s.len() - 1 ==> s.drop_last()[i] == s[i]);
        if as_map(s).dom().contains(k) {
            if s.last().0@ == k {
                assert(s[s.len() - 1].0@ == k);
            }
        }
        if exists|i: int| 0 <= i < s.len() && (#[trigger] s[i]).0@ == k {
            let i = choose|i: int| 0 <= i < s.len() && (#[trigger] s[i]).0@ == k;
            if i < s.len() - 1 {
                assert(s.drop_last()[i].0@ == k);
            }
        }
    }
}

/// With distinct keys, the denoted map sends an entry's key to that
/// entry's value.
pub proof fn lemma_as_map_value<T>(s: Seq<(String, T)>, k: Seq<char>, i: int)
    requires
        seq_keys_unique(s),
        0 <= i < s.len(),
        s[i].0@ == k,
    ensures
        as_map(s).dom().contains(k),
        as_map(s)[k] == s[i].1,
    decreases s.len(),
{
    lemma_as_map_contains(s, k);
    if i == s.len() - 1 {
    } else {
        assert(s.last().0@ != k);
        assert(forall|j: int| 0 <= j < s.len() - 1 ==> s.drop_last()[j] == s[j]);
        lemma_as_map_value(s.drop_last(), k, i);
    }
}

/// With distinct keys, the denoted map has exactly one element per entry.
pub proof fn lemma_as_map_dom_len<T>(s: Seq<(String, T)>)
    requires
        seq_keys_unique(s),
    ensures
        as_map(s).dom().finite(),
        as_map(s).dom().len() == s.len(),
    decreases s.len(),
{
    if s.len() > 0 {
        assert(forall|j: int| 0 <= j < s.len() - 1 ==> s.drop_last()[j] == s[j]);
        lemma_as_map_dom_len(s.drop_last());
        lemma_as_map_contains(s.drop_last(), s.last().0@);
        assert(!as_map(s.drop_last()).dom().contains(s.last().0@));
        assert(as_map(s).dom() =~= as_map(s.drop_last()).dom().insert(s.last().0@));
    }
}

/// Replacing the entry that carries a key denotes the same map as
/// inserting the new value at that key.
proof fn lemma_as_map_update<T>(s: Seq<(String, T)>, i: int, name: String, value: T)
    requires
        seq_keys_unique(s),
        0 <= i < s.len(),
        s[i].0@ == name@,
    ensures
        as_map(s.update(i, (name, value))) =~= as_map(s).insert(name@, value),
        seq_keys_unique(s.update(i, (name, value))),
    decreases s.len(),
{
    let su = s.update(i, (name, value));
    assert(forall|j: int| 0 <= j < s.len() && j != i ==> su[j] == s[j]);
    if i == s.len() - 1 {
        assert(su.drop_last() =~= s.drop_last());
        assert(su.last() == (name, value));
    } else {
        assert(su.drop_last() =~= s.drop_last().update(i, (name, value)));
        assert(forall|j: int| 0 <= j < s.len() - 1 ==> s.drop_last()[j] == s[j]);
        lemma_as_map_update(s.drop_last(), i, name, value);
        assert(s.last().0@ != name@);
        assert(su.last() == s.last());
    }
}

/// A name-keyed collection of values with verified map semantics.
pub struct NameMap<T> {
    entries: Vec<(String, T)>,
}

impl<T> View for NameMap<T> {
    type V = Map<Seq<char>, T>;

    closed spec fn view(&self) -> Map<Seq<char>, T> {
        as_map(self.entries@)
    }
}

impl<T> NameMap<T> {
    /// The underlying entry sequence, in insertion order.
    pub closed spec fn entries_spec(self) -> Seq<(String, T)> {
        self.entries@
    }

    /// Keys are pairwise distinct; every operation preserves this.
    pub closed spec fn wf(self) -> bool {
        seq_keys_unique(self.entries@)
    }

    /// An empty collection.
    pub fn new() -> (r: NameMap<T>)
        ensures
            r@ == Map::<Seq<char>, T>::empty(),
            r.wf(),
            r.entries_spec().len() == 0,
    {
        NameMap { entries: Vec::new() }
    }

    /// How many entries the collection holds.
    pub fn len(&self) -> (n: usize)
        requires
            self.wf(),
        ensures
            n == self.entries_spec().len(),
            n == self@.dom().len(),
    {
        proof {
            lemma_as_map_dom_len(self.entries@);
        }
        self.entries.len()
    }

    /// The index of the entry carrying `name`, if any.
    fn index_of(&self, name: &String) -> (r: Option<usize>)
        ensures
            match r {
                Option::Some(i) => i < self.entries@.len() && self.entries@[i as int].0@
                    == name@,
                Option::None => forall|i: int|
                    0 <= i < self.entries@.len() ==> (#[trigger] self.entries@[i]).0@ != name@,
            },
    {
        let n = self.entries.len();
        let mut i: usize = 0;
        while i < n
            invariant
                0 <= i <= n,
                n == self.entries@.len(),
                forall|k: int| 0 <= k < i ==> (#[trigger] self.entries@[k]).0@ != name@,
            decreases n - i,
        {
            if self.entries[i].0 == *name {
                return Some(i);
            }
            i = i + 1;
        }
        None
    }

    /// Whether an entry carries `name`.
    pub fn contains_key(&self, name: &String) -> (r: bool)
        ensures
            r == self@.dom().contains(name@),
    {
        proof {
            lemma_as_map_contains(self.entries@, name@);
        }
        self.index_of(name).is_some()
    }

    /// The value keyed by `name`, if any.
    pub fn get(&self, name: &String) -> (r: Option<&T>)
        requires
            self.wf(),
        ensures
            match r {
                Option::Some(v) => self@.dom().contains(name@) && *v == self@[name@],
                Option::None => !self@.dom().contains(name@),
            },
    {
        proof {
            lemma_as_map_contains(self.entries@, name@);
        }
        match self.index_of(name) {
            Some(i) => {
                proof {
                    lemma_as_map_value(self.entries@, name@, i as int);
                }
                Some(&self.entries[i].1)
            },
            None => None,
        }
    }

    /// Inserts `value` under `name`, replacing any previous value at that
    /// name.
    pub fn insert(&mut self, name: String, value: T)
        requires
            old(self).wf(),
        ensures
            final(self)@ == old(self)@.insert(name@, value),
            final(self).wf(),
    {
        let ghost s0 = self.entries@;
        match self.index_of(&name) {
            Some(i) => {
                proof {
                    lemma_as_map_update(s0, i as int, name, value);
                }
                self.entries.set(i, (name, value));
            },
            None => {
                self.entries.push((name, value));
                proof {
                    assert(self.entries@.drop_last() =~= s0);
                    assert(self.entries@.last() == (name, value));
                    assert(as_map(self.entries@) =~= as_map(s0).insert(name@, value));
                    assert(forall|j: int|
                        0 <= j < s0.len() ==> self.entries@[j] == s0[j]);
                }
            },
        }
    }

    /// A mutable borrow of the value keyed by `name`; looking up a name
    /// the collection does not hold is a scene-authoring bug, so callers
    /// establish presence first.
    #[verifier::loop_isolation(false)]
    pub fn get_mut(&mut self, name: &String) -> (r: &mut T)
        requires
            old(self).wf(),
            old(self)@.dom().contains(name@),
        ensures
            *r == old(self)@[name@],
            final(self)@ == old(self)@.insert(name@, *final(r)),
            final(self).wf(),
            final(self).entries_spec().len() == old(self).entries_spec().len(),
    {
        proof {
            lemma_as_map_contains(self.entries@, name@);
        }
        let ghost s0 = self.entries@;
        let n = self.entries.len();
        let mut i: usize = 0;
        while i < n
            invariant
                0 <= i <= n,
                n == self.entries@.len(),
                self.entries@ == s0,
                seq_keys_unique(s0),
                as_map(s0).dom().contains(name@),
                forall|k: int| 0 <= k < i ==> (#[trigger] self.entries@[k]).0@ != name@,
            decreases n - i,
        {
            if self.entries[i].0 == *name {
                proof {
                    lemma_as_map_value(s0, name@, i as int);
                    let key = s0[i as int].0;
                    assert forall|v: T|
                        as_map(s0.update(i as int, (key, v))) == as_map(s0).insert(name@, v)
                            && seq_keys_unique(s0.update(i as int, (key, v))) by {
                        lemma_as_map_update(s0, i as int, key, v);
                    }
                }
                return &mut self.entries[i].1;
            }
            i = i + 1;
        }
        proof {
            lemma_as_map_contains(s0, name@);
            assert(false);
        }
        vstd::pervasive::unreached()
    }

    /// The entry at a position, for iteration; its key maps to its value.
    pub fn get_at(&self, i: usize) -> (r: &(String, T))
        requires
            self.wf(),
            i < self.entries_spec().len(),
        ensures
            *r == self.entries_spec()[i as int],
            self@.dom().contains(r.0@),
            self@[r.0@] == r.1,
    {
        proof {
            lemma_as_map_value(self.entries@, self.entries@[i as int].0@, i as int);
        }
        &self.entries[i]
    }
}

} // verus!
