use vstd::prelude::*;
use vstd::pervasive::VecAdditionalExecFns;

use crate::account_info::U256;

verus! {

/// One storage slot of an incoming transition: the value seen at the start of
/// the transition and the value after the transition executed.
#[derive(Clone, Copy, PartialEq, Eq, Structural, Debug)]
pub struct StorageSlot {
    pub original_value: U256,
    pub present_value: U256,
}

/// Pairwise distinct keys in an entry list.
pub open spec fn unique_keys<V>(s: Seq<(U256, V)>) -> bool {
    forall|i: int, j: int|
        0 <= i < j < s.len() ==> (#[trigger] s[i]).0 != (#[trigger] s[j]).0
}

/// The finite map described by a list of key/value entries, later entries
/// winning.
pub open spec fn entries_to_map<V>(s: Seq<(U256, V)>) -> Map<U256, V>
    decreases s.len(),
{
    if s.len() == 0 {
        Map::empty()
    } else {
        entries_to_map(s.drop_last()).insert(s.last().0, s.last().1)
    }
}

/// Key/value map with 256-bit word keys, kept as a vector of entries with
/// pairwise distinct keys. Iteration order carries no meaning; the view is the
/// finite map the entries describe.
#[derive(Debug)]
pub struct SlotMap<V> {
    pub entries: Vec<(U256, V)>,
}

/// Present and original per-slot values of an incoming transition, keyed by
/// slot.
pub type Storage = SlotMap<StorageSlot>;

/// Per-slot present values of an account held by the bundle.
pub type PlainStorage = SlotMap<U256>;

impl<V> View for SlotMap<V> {
    type V = Map<U256, V>;

    open spec fn view(&self) -> Map<U256, V> {
        entries_to_map(self.entries@)
    }
}

impl<V> SlotMap<V> {
    /// Entry keys are pairwise distinct, so the entry list and the map it
    /// describes carry the same information.
    pub open spec fn wf(&self) -> bool {
        unique_keys(self.entries@)
    }
}

pub proof fn lemma_entries_to_map_push<V>(s: Seq<(U256, V)>, p: (U256, V))
    ensures
        entries_to_map(s.push(p)) == entries_to_map(s).insert(p.0, p.1),
{
    assert(s.push(p).drop_last() =~= s);
    assert(s.push(p).last() == p);
}

/// A key occurs in the map exactly when some entry carries it.
pub proof fn lemma_entries_to_map_props<V>(s: Seq<(U256, V)>)
    ensures
        entries_to_map(s).dom().finite(),
        forall|i: int|
            0 <= i < s.len() ==> entries_to_map(s).dom().contains((#[trigger] s[i]).0),
        forall|k: U256|
            #[trigger] entries_to_map(s).dom().contains(k) ==> exists|i: int|
                0 <= i < s.len() && (#[trigger] s[i]).0 == k,
    decreases s.len(),
{
    if s.len() == 0 {
    } else {
        let t = s.drop_last();
        lemma_entries_to_map_props(t);
        assert forall|i: int|
            0 <= i < s.len() implies entries_to_map(s).dom().contains((#[trigger] s[i]).0) by {
            if i < s.len() - 1 {
                assert(t[i] == s[i]);
                assert(entries_to_map(t).dom().contains(s[i].0));
            }
        }
        assert forall|k: U256|
            #[trigger] entries_to_map(s).dom().contains(k) implies exists|i: int|
            0 <= i < s.len() && (#[trigger] s[i]).0 == k by {
            if k == s.last().0 {
                assert(0 <= s.len() - 1 < s.len() && s[s.len() - 1].0 == k);
            } else {
                assert(entries_to_map(t).dom().contains(k));
                let i = choose|i: int| 0 <= i < t.len() && (#[trigger] t[i]).0 == k;
                assert(s[i] == t[i]);
                assert(0 <= i < s.len() && s[i].0 == k);
            }
        }
    }
}

/// Under distinct keys, the entry at any index gives the map's value at its
/// key.
pub proof fn lemma_entries_to_map_lookup<V>(s: Seq<(U256, V)>, i: int)
    requires
        unique_keys(s),
        0 <= i < s.len(),
    ensures
        entries_to_map(s).dom().contains(s[i].0),
        entries_to_map(s)[s[i].0] == s[i].1,
    decreases s.len(),
{
    lemma_entries_to_map_props(s);
    if i == s.len() - 1 {
    } else {
        let t = s.drop_last();
        assert(unique_keys(t)) by {
            assert forall|a: int, b: int|
                0 <= a < b < t.len() implies (#[trigger] t[a]).0 != (#[trigger] t[b]).0 by {
                assert(t[a] == s[a] && t[b] == s[b]);
            }
        }
        assert(t[i] == s[i]);
        lemma_entries_to_map_lookup(t, i);
        assert(s[i].0 != s.last().0);
    }
}

/// A key absent from every entry is absent from the map.
pub proof fn lemma_entries_to_map_absent<V>(s: Seq<(U256, V)>, k: U256)
    requires
        forall|i: int| 0 <= i < s.len() ==> (#[trigger] s[i]).0 != k,
    ensures
        !entries_to_map(s).dom().contains(k),
{
    lemma_entries_to_map_props(s);
    if entries_to_map(s).dom().contains(k) {
        let i = choose|i: int| 0 <= i < s.len() && (#[trigger] s[i]).0 == k;
        assert(false);
    }
}

/// Replacing the value of the entry at index `i` updates the map at that
/// entry's key.
pub proof fn lemma_entries_to_map_update<V>(s: Seq<(U256, V)>, i: int, v: V)
    requires
        unique_keys(s),
        0 <= i < s.len(),
    ensures
        unique_keys(s.update(i, (s[i].0, v))),
        entries_to_map(s.update(i, (s[i].0, v))) == entries_to_map(s).insert(s[i].0, v),
    decreases s.len(),
{
    let k = s[i].0;
    let su = s.update(i, (k, v));
    assert(unique_keys(su)) by {
        assert forall|a: int, b: int|
            0 <= a < b < su.len() implies (#[trigger] su[a]).0 != (#[trigger] su[b]).0 by {
            assert(su[a].0 == s[a].0 && su[b].0 == s[b].0);
        }
    }
    if i == s.len() - 1 {
        assert(su.drop_last() =~= s.drop_last());
        assert(su.last() == (k, v));
        assert(entries_to_map(su) == entries_to_map(s.drop_last()).insert(k, v));
        assert(entries_to_map(s.drop_last()).insert(k, s[i].1).insert(k, v) =~= entries_to_map(
            s.drop_last(),
        ).insert(k, v));
    } else {
        let t = s.drop_last();
        assert(unique_keys(t)) by {
            assert forall|a: int, b: int|
                0 <= a < b < t.len() implies (#[trigger] t[a]).0 != (#[trigger] t[b]).0 by {
                assert(t[a] == s[a] && t[b] == s[b]);
            }
        }
        assert(t[i] == s[i]);
        lemma_entries_to_map_update(t, i, v);
        assert(su.drop_last() =~= t.update(i, (k, v)));
        assert(su.last() == s.last());
        assert(s[i].0 != s.last().0);
        assert(entries_to_map(t).insert(k, v).insert(s.last().0, s.last().1) =~= entries_to_map(
            t,
        ).insert(s.last().0, s.last().1).insert(k, v));
    }
}

/// Under distinct keys the map has exactly one member per entry.
pub proof fn lemma_entries_to_map_len<V>(s: Seq<(U256, V)>)
    requires
        unique_keys(s),
    ensures
        entries_to_map(s).dom().len() == s.len(),
    decreases s.len(),
{
    lemma_entries_to_map_props(s);
    if s.len() == 0 {
        assert(entries_to_map(s).dom() =~= Set::<U256>::empty());
    } else {
        let t = s.drop_last();
        assert(unique_keys(t)) by {
            assert forall|a: int, b: int|
                0 <= a < b < t.len() implies (#[trigger] t[a]).0 != (#[trigger] t[b]).0 by {
                assert(t[a] == s[a] && t[b] == s[b]);
            }
        }
        lemma_entries_to_map_len(t);
        lemma_entries_to_map_props(t);
        assert(!entries_to_map(t).dom().contains(s.last().0)) by {
            if entries_to_map(t).dom().contains(s.last().0) {
                let i = choose|i: int| 0 <= i < t.len() && (#[trigger] t[i]).0 == s.last().0;
                assert(s[i] == t[i]);
                assert(false);
            }
        }
        assert(entries_to_map(s).dom() =~= entries_to_map(t).dom().insert(s.last().0));
        vstd::set::axiom_set_insert_len(entries_to_map(t).dom(), s.last().0);
    }
}

/// An entry's key is absent from the map of any earlier prefix.
pub proof fn lemma_take_key_fresh<V>(s: Seq<(U256, V)>, i: int)
    requires
        unique_keys(s),
        0 <= i < s.len(),
    ensures
        !entries_to_map(s.take(i)).dom().contains(s[i].0),
{
    let t = s.take(i);
    assert forall|j: int| 0 <= j < t.len() implies (#[trigger] t[j]).0 != s[i].0 by {
        assert(t[j] == s[j]);
    }
    lemma_entries_to_map_absent(t, s[i].0);
}

impl<V: Copy> SlotMap<V> {
    pub fn new() -> (r: SlotMap<V>)
        ensures
            r@ == Map::<U256, V>::empty(),
            r.wf(),
    {
        SlotMap { entries: Vec::new() }
    }

    /// Index of the entry carrying `key`, if any.
    fn find(&self, key: U256) -> (r: Option<usize>)
        ensures
            match r {
                Option::Some(i) => i < self.entries@.len() && self.entries@[i as int].0 == key,
                Option::None => forall|j: int|
                    0 <= j < self.entries@.len() ==> (#[trigger] self.entries@[j]).0 != key,
            },
    {
        let n = self.entries.len();
        let mut i: usize = 0;
        while i < n
            invariant
                n == self.entries@.len(),
                i <= n,
                forall|j: int| 0 <= j < i ==> (#[trigger] self.entries@[j]).0 != key,
            decreases n - i,
        {
            if self.entries[i].0 == key {
                return Option::Some(i);
            }
            i = i + 1;
        }
        Option::None
    }

    /// Value at `key`, if the map has the key.
    pub fn get(&self, key: U256) -> (r: Option<V>)
        requires
            self.wf(),
        ensures
            self@.contains_key(key) ==> r == Option::Some(self@[key]),
            !self@.contains_key(key) ==> r is None,
    {
        match self.find(key) {
            Option::Some(i) => {
                proof {
                    lemma_entries_to_map_lookup(self.entries@, i as int);
                }
                Option::Some(self.entries[i].1)
            },
            Option::None => {
                proof {
                    lemma_entries_to_map_absent(self.entries@, key);
                }
                Option::None
            },
        }
    }

    /// Whether the map has the key.
    pub fn contains_key(&self, key: U256) -> (r: bool)
        requires
            self.wf(),
        ensures
            r == self@.contains_key(key),
    {
        self.get(key).is_some()
    }

    /// Number of keys in the map.
    pub fn len(&self) -> (n: usize)
        requires
            self.wf(),
        ensures
            n == self@.dom().len(),
    {
        proof {
            lemma_entries_to_map_len(self.entries@);
        }
        self.entries.len()
    }

    /// Bind `key` to `value`, replacing any earlier binding.
    pub fn insert(&mut self, key: U256, value: V)
        requires
            old(self).wf(),
        ensures
            final(self).wf(),
            final(self)@ == old(self)@.insert(key, value),
    {
        match self.find(key) {
            Option::Some(i) => {
                proof {
                    lemma_entries_to_map_update(self.entries@, i as int, value);
                }
                self.entries.set(i, (key, value));
            },
            Option::None => {
                proof {
                    let s = self.entries@;
                    lemma_entries_to_map_push(s, (key, value));
                    assert forall|a: int, b: int|
                        0 <= a < b < s.push((key, value)).len() implies (#[trigger] s.push(
                        (key, value),
                    )[a]).0 != (#[trigger] s.push((key, value))[b]).0 by {
                        if b < s.len() {
                            assert(s.push((key, value))[a] == s[a] && s.push((key, value))[b]
                                == s[b]);
                        } else {
                            assert(s.push((key, value))[a] == s[a]);
                            assert(s.push((key, value))[b] == (key, value));
                        }
                    }
                }
                self.entries.push((key, value));
            },
        }
    }

    /// Add every binding of `other`, `other` winning on shared keys.
    pub fn extend(&mut self, other: SlotMap<V>)
        requires
            old(self).wf(),
            other.wf(),
        ensures
            final(self).wf(),
            final(self)@ == old(self)@.union_prefer_right(other@),
    {
        let n = other.entries.len();
        let mut i: usize = 0;
        while i < n
            invariant
                n == other.entries@.len(),
                i <= n,
                other.wf(),
                self.wf(),
                self@ == old(self)@.union_prefer_right(entries_to_map(other.entries@.take(i as int))),
            decreases n - i,
        {
            let p = other.entries[i];
            self.insert(p.0, p.1);
            proof {
                let pre = other.entries@.take(i as int);
                assert(other.entries@.take(i + 1) =~= pre.push(other.entries@[i as int]));
                lemma_entries_to_map_push(pre, other.entries@[i as int]);
                assert(old(self)@.union_prefer_right(entries_to_map(pre)).insert(p.0, p.1) =~= old(
                    self,
                )@.union_prefer_right(entries_to_map(other.entries@.take(i + 1))));
            }
            i = i + 1;
        }
        proof {
            assert(other.entries@.take(n as int) =~= other.entries@);
        }
    }
}

impl<V: Copy> Clone for SlotMap<V> {
    fn clone(&self) -> (r: Self)
        ensures
            r.entries@ == self.entries@,
            r@ == self@,
            r.wf() == self.wf(),
    {
        let mut entries: Vec<(U256, V)> = Vec::new();
        let n = self.entries.len();
        let mut i: usize = 0;
        while i < n
            invariant
                n == self.entries@.len(),
                i <= n,
                entries@ == self.entries@.take(i as int),
            decreases n - i,
        {
            entries.push(self.entries[i]);
            proof {
                assert(self.entries@.take(i + 1) =~= self.entries@.take(i as int).push(
                    self.entries@[i as int],
                ));
            }
            i = i + 1;
        }
        proof {
            assert(self.entries@.take(n as int) =~= self.entries@);
        }
        SlotMap { entries }
    }
}

/// The per-slot present values of a transition's storage: the bundle keeps
/// these and forgets the originals.
pub open spec fn present_of(u: Map<U256, StorageSlot>) -> Map<U256, U256> {
    Map::new(|k: U256| u.dom().contains(k), |k: U256| u[k].present_value)
}

/// Build the present-value map of a transition's storage.
pub fn present_part(u: &Storage) -> (r: PlainStorage)
    requires
        u.wf(),
    ensures
        r.wf(),
        r@ == present_of(u@),
{
    let mut r = SlotMap::<U256>::new();
    let n = u.entries.len();
    let mut i: usize = 0;
    while i < n
        invariant
            n == u.entries@.len(),
            i <= n,
            u.wf(),
            r.wf(),
            r@ == present_of(entries_to_map(u.entries@.take(i as int))),
        decreases n - i,
    {
        let p = u.entries[i];
        r.insert(p.0, p.1.present_value);
        proof {
            let pre = u.entries@.take(i as int);
            assert(u.entries@.take(i + 1) =~= pre.push(u.entries@[i as int]));
            lemma_entries_to_map_push(pre, u.entries@[i as int]);
            assert(present_of(entries_to_map(pre)).insert(p.0, p.1.present_value) =~= present_of(
                entries_to_map(u.entries@.take(i + 1)),
            ));
        }
        i = i + 1;
    }
    proof {
        assert(u.entries@.take(n as int) =~= u.entries@);
    }
    r
}

} // verus!
