//! Event properties: a list of named JSON values with distinct names, kept in
//! the order in which the names were first set.
use crate::json::entries_view;
use vstd::prelude::*;
use vstd::string::StringExecFns;

verus! {

/// A list of named values.
pub type Entries = Seq<(Seq<char>, serde_json::Value)>;

/// No name occurs twice.
pub open spec fn keys_distinct(s: Entries) -> bool {
    forall|i: int, j: int| 0 <= i < j < s.len() ==> s[i].0 != s[j].0
}

/// The last position holding name `k`, or -1 where there is none.
pub open spec fn index_of(s: Entries, k: Seq<char>) -> int
    decreases s.len(),
{
    if s.len() == 0 {
        -1
    } else if s.last().0 == k {
        s.len() - 1
    } else {
        index_of(s.drop_last(), k)
    }
}

/// Setting name `k` to `v`: in place where `k` is present, else appended.
pub open spec fn set_entry(s: Entries, k: Seq<char>, v: serde_json::Value) -> Entries {
    let i = index_of(s, k);
    if i >= 0 {
        s.update(i, (k, v))
    } else {
        s.push((k, v))
    }
}

/// Setting each entry of `t` in turn, starting from `s`.
pub open spec fn set_all(s: Entries, t: Entries) -> Entries
    decreases t.len(),
{
    if t.len() == 0 {
        s
    } else {
        set_entry(set_all(s, t.drop_last()), t.last().0, t.last().1)
    }
}

/// The mapping a list of entries denotes; a later entry wins over an
/// earlier one with the same name.
pub open spec fn as_map(s: Entries) -> Map<Seq<char>, serde_json::Value>
    decreases s.len(),
{
    if s.len() == 0 {
        Map::empty()
    } else {
        as_map(s.drop_last()).insert(s.last().0, s.last().1)
    }
}

proof fn lemma_index_of(s: Entries, k: Seq<char>)
    ensures
        -1 <= index_of(s, k) < s.len(),
        index_of(s, k) >= 0 ==> s[index_of(s, k)].0 == k,
        index_of(s, k) == -1 <==> (forall|i: int| 0 <= i < s.len() ==> s[i].0 != k),
        keys_distinct(s) ==> forall|i: int| 0 <= i < s.len() && s[i].0 == k ==> index_of(s, k) == i,
    decreases s.len(),
{
    if s.len() > 0 {
        let d = s.drop_last();
        lemma_index_of(d, k);
        assert forall|i: int| 0 <= i < d.len() implies d[i] == s[i] by {}
    }
}

proof fn lemma_as_map_update(s: Entries, i: int, v: serde_json::Value)
    requires
        keys_distinct(s),
        0 <= i < s.len(),
    ensures
        as_map(s.update(i, (s[i].0, v))) == as_map(s).insert(s[i].0, v),
    decreases s.len(),
{
    let k = s[i].0;
    let u = s.update(i, (k, v));
    let d = s.drop_last();
    if i == s.len() - 1 {
        assert(u.drop_last() =~= d);
        assert(as_map(u) =~= as_map(s).insert(k, v));
    } else {
        assert(u.drop_last() =~= d.update(i, (d[i].0, v)));
        lemma_as_map_update(d, i, v);
        assert(s.last().0 != k);
        assert(as_map(u) =~= as_map(s).insert(k, v));
    }
}

proof fn lemma_as_map_push(s: Entries, k: Seq<char>, v: serde_json::Value)
    ensures
        as_map(s.push((k, v))) == as_map(s).insert(k, v),
{
    assert(s.push((k, v)).drop_last() =~= s);
}

/// Setting an entry sets it in the denoted mapping and keeps names distinct.
pub proof fn lemma_set_entry(s: Entries, k: Seq<char>, v: serde_json::Value)
    requires
        keys_distinct(s),
    ensures
        keys_distinct(set_entry(s, k, v)),
        as_map(set_entry(s, k, v)) == as_map(s).insert(k, v),
{
    lemma_index_of(s, k);
    let i = index_of(s, k);
    if i >= 0 {
        lemma_as_map_update(s, i, v);
    } else {
        lemma_as_map_push(s, k, v);
    }
}

/// Setting all entries of `t` yields the union in which `t` wins.
pub proof fn lemma_set_all(s: Entries, t: Entries)
    requires
        keys_distinct(s),
    ensures
        keys_distinct(set_all(s, t)),
        as_map(set_all(s, t)) == as_map(s).union_prefer_right(as_map(t)),
    decreases t.len(),
{
    if t.len() > 0 {
        lemma_set_all(s, t.drop_last());
        lemma_set_entry(set_all(s, t.drop_last()), t.last().0, t.last().1);
        assert(as_map(set_all(s, t)) =~= as_map(s).union_prefer_right(as_map(t)));
    } else {
        assert(as_map(s).union_prefer_right(as_map(t)) =~= as_map(s));
    }
}

/// Merging keeps each default whose name the overrides lack, takes every
/// override, and adds no other name.
pub proof fn lemma_merge_precedence(defaults: Entries, overrides: Entries)
    requires
        keys_distinct(defaults),
    ensures
        ({
            let m = as_map(set_all(defaults, overrides));
            let a = as_map(defaults);
            let b = as_map(overrides);
            &&& forall|k: Seq<char>| a.contains_key(k) && !b.contains_key(k) ==> m.contains_key(k) && m[k] == a[k]
            &&& forall|k: Seq<char>| b.contains_key(k) ==> m.contains_key(k) && m[k] == b[k]
            &&& forall|k: Seq<char>| m.contains_key(k) ==> a.contains_key(k) || b.contains_key(k)
        }),
{
    lemma_set_all(defaults, overrides);
}

/// Named JSON values with distinct names.
pub struct Properties {
    entries: Vec<(String, serde_json::Value)>,
}

impl View for Properties {
    type V = Entries;

    closed spec fn view(&self) -> Entries {
        entries_view(self.entries@)
    }
}

impl Properties {
    #[verifier::type_invariant]
    spec fn distinct_names(&self) -> bool {
        keys_distinct(entries_view(self.entries@))
    }

    /// Names are distinct; this holds of every value of the type.
    pub open spec fn wf(&self) -> bool {
        keys_distinct(self@)
    }

    /// The mapping from names to values.
    pub open spec fn map(&self) -> Map<Seq<char>, serde_json::Value> {
        as_map(self@)
    }

    /// No properties.
    pub fn new() -> (r: Properties)
        ensures
            r.wf(),
            r@ == Seq::<(Seq<char>, serde_json::Value)>::empty(),
    {
        Properties { entries: Vec::new() }
    }

    /// The number of names.
    pub fn len(&self) -> (r: usize)
        ensures
            r == self@.len(),
    {
        self.entries.len()
    }

    /// The entry at position `i`.
    pub fn entry(&self, i: usize) -> (r: (&String, &serde_json::Value))
        requires
            i < self@.len(),
        ensures
            r.0@ == self@[i as int].0,
            *r.1 == self@[i as int].1,
    {
        (&self.entries[i].0, &self.entries[i].1)
    }

    /// The value of name `key`, if it is set.
    pub fn get(&self, key: &str) -> (r: Option<&serde_json::Value>)
        ensures
            r is Some == self.map().contains_key(key@),
            r matches Some(v) ==> *v == self.map()[key@],
    {
        proof { use_type_invariant(self); }
        let wanted = <String as StringExecFns>::from_str(key);
        let mut i: usize = 0;
        while i < self.entries.len()
            invariant
                self.wf(),
                wanted@ == key@,
                0 <= i <= self.entries@.len(),
                forall|j: int| 0 <= j < i ==> self@[j].0 != key@,
            decreases self.entries@.len() - i,
        {
            assert(self@[i as int].0 == self.entries@[i as int].0@);
            if self.entries[i].0 == wanted {
                proof { self.lemma_map_at(i as int); }
                return Some(&self.entries[i].1);
            }
            i = i + 1;
        }
        proof { self.lemma_map_absent(key@); }
        None
    }

    proof fn lemma_map_at(&self, i: int)
        requires
            self.wf(),
            0 <= i < self@.len(),
        ensures
            self.map().contains_key(self@[i].0),
            self.map()[self@[i].0] == self@[i].1,
    {
        let s = self@;
        lemma_as_map_update(s, i, s[i].1);
        assert(s.update(i, (s[i].0, s[i].1)) =~= s);
    }

    proof fn lemma_map_absent(&self, k: Seq<char>)
        requires
            forall|j: int| 0 <= j < self@.len() ==> self@[j].0 != k,
        ensures
            !self.map().contains_key(k),
    {
        lemma_as_map_absent(self@, k);
    }

    /// Sets name `key` to `value`, in place where the name is present.
    pub fn insert(&mut self, key: String, value: serde_json::Value)
        ensures
            final(self).wf(),
            final(self)@ == set_entry(old(self)@, key@, value),
            final(self).map() == old(self).map().insert(key@, value),
    {
        proof { use_type_invariant(&*self); }
        let ghost k = key@;
        let ghost before = self@;
        let mut taken = Properties::new();
        std::mem::swap(self, &mut taken);
        let Properties { entries: mut v } = taken;
        assert(entries_view(v@) == before);
        let mut i: usize = 0;
        while i < v.len()
            invariant
                entries_view(v@) == before,
                before == old(self)@,
                keys_distinct(before),
                k == key@,
                0 <= i <= v@.len(),
                forall|j: int| 0 <= j < i ==> before[j].0 != k,
            decreases v@.len() - i,
        {
            assert(before[i as int].0 == v@[i as int].0@);
            if v[i].0 == key {
                let _replaced = v.remove(i);
                v.insert(i, (key, value));
                assert(entries_view(v@) =~= before.update(i as int, (k, value)));
                proof {
                    lemma_index_of(before, k);
                    lemma_set_entry(before, k, value);
                }
                *self = Properties { entries: v };
                return;
            }
            i = i + 1;
        }
        v.push((key, value));
        assert(entries_view(v@) =~= before.push((k, value)));
        proof {
            lemma_index_of(before, k);
            lemma_set_entry(before, k, value);
        }
        *self = Properties { entries: v };
    }

    /// The entries, in order.
    pub fn into_entries(self) -> (r: Vec<(String, serde_json::Value)>)
        ensures
            entries_view(r@) == self@,
    {
        self.entries
    }

    /// Sets each entry of `entries` in turn.
    pub fn set_each(&mut self, entries: Vec<(String, serde_json::Value)>)
        ensures
            final(self).wf(),
            final(self)@ == set_all(old(self)@, entries_view(entries@)),
    {
        proof { use_type_invariant(&*self); }
        let ghost start = self@;
        let ghost src = entries_view(entries@);
        let n: usize = entries.len();
        let mut rest = entries;
        let mut k: usize = 0;
        assert(src.subrange(0, 0) =~= Seq::<(Seq<char>, serde_json::Value)>::empty());
        while rest.len() > 0
            invariant
                self.wf(),
                0 <= k <= n,
                n == src.len(),
                src == entries_view(entries@),
                rest@.len() == n - k,
                entries_view(rest@) =~= src.subrange(k as int, n as int),
                self@ == set_all(start, src.subrange(0, k as int)),
            decreases rest@.len(),
        {
            let ghost prev = self@;
            let ghost before = rest@;
            assert(entries_view(before)[0] == src[k as int]);
            let (key, value) = rest.remove(0);
            assert(key@ == src[k as int].0 && value == src[k as int].1);
            assert(entries_view(rest@) =~= entries_view(before).subrange(1, before.len() as int));
            proof { lemma_set_entry(prev, key@, value); }
            self.insert(key, value);
            assert(src.subrange(0, k + 1).drop_last() =~= src.subrange(0, k as int));
            k = k + 1;
        }
        assert(src.subrange(0, n as int) =~= src);
    }

    /// Properties from a list of entries, each set in turn: where a name
    /// occurs more than once the last value wins.
    pub fn from_entries(entries: Vec<(String, serde_json::Value)>) -> (r: Properties)
        ensures
            r.wf(),
            r@ == set_all(Seq::empty(), entries_view(entries@)),
    {
        let mut r = Properties::new();
        r.set_each(entries);
        r
    }
}

proof fn lemma_as_map_absent(s: Entries, k: Seq<char>)
    requires
        forall|j: int| 0 <= j < s.len() ==> s[j].0 != k,
    ensures
        !as_map(s).contains_key(k),
    decreases s.len(),
{
    if s.len() > 0 {
        lemma_as_map_absent(s.drop_last(), k);
    }
}

/// Merges `overrides` into `base`: every override is set, in place where
/// the name is already present, and new names follow in their order.
pub fn merge_json_values(base: Properties, overrides: Properties) -> (r: Properties)
    ensures
        r.wf(),
        r@ == set_all(base@, overrides@),
        r.map() == base.map().union_prefer_right(overrides.map()),
{
    let mut r = base;
    proof {
        use_type_invariant(&r);
        lemma_set_all(r@, overrides@);
    }
    r.set_each(overrides.entries);
    r
}

} // verus!
