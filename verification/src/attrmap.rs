use vstd::prelude::*;

use crate::value::Value;

verus! {

/// The mapping from attribute name to decoded value that a record carries.
///
/// Keys are unique; inserting under an existing name replaces the value,
/// as the decoder requires when two attribute identifiers resolve to the
/// same display name. Insertion order is not part of the abstraction: the
/// view is a finite map from the name's characters to the value.
#[derive(Debug, Clone, PartialEq)]
pub struct AttrMap {
    entries: Vec<(String, Value)>,
}

/// The map denoted by a prefix of the entry list, later entries overriding
/// earlier ones.
pub open spec fn entries_map(s: Seq<(String, Value)>) -> Map<Seq<char>, Value>
    decreases s.len(),
{
    if s.len() == 0 {
        Map::empty()
    } else {
        entries_map(s.drop_last()).insert(s.last().0@, s.last().1)
    }
}

impl View for AttrMap {
    type V = Map<Seq<char>, Value>;

    closed spec fn view(&self) -> Map<Seq<char>, Value> {
        entries_map(self.entries@)
    }
}

/// Every key of `entries_map(s)` is the name of some entry, and each
/// entry's name is a key.
proof fn lemma_entries_map_dom(s: Seq<(String, Value)>)
    ensures
        forall|k: Seq<char>|
            entries_map(s).contains_key(k) <==> exists|i: int|
                0 <= i < s.len() && #[trigger] s[i].0@ == k,
    decreases s.len(),
{
    if s.len() > 0 {
        lemma_entries_map_dom(s.drop_last());
        assert forall|k: Seq<char>| entries_map(s).contains_key(k) implies exists|i: int|
            0 <= i < s.len() && #[trigger] s[i].0@ == k by {
            if k == s.last().0@ {
                assert(s[s.len() - 1].0@ == k);
            } else {
                assert(entries_map(s.drop_last()).contains_key(k));
                let i = choose|i: int| 0 <= i < s.len() - 1 && #[trigger] s.drop_last()[i].0@ == k;
                assert(s[i].0@ == k);
            }
        }
        assert forall|k: Seq<char>|
            (exists|i: int| 0 <= i < s.len() && #[trigger] s[i].0@ == k) implies entries_map(
            s,
        ).contains_key(k) by {
            let i = choose|i: int| 0 <= i < s.len() && #[trigger] s[i].0@ == k;
            if i < s.len() - 1 {
                assert(s.drop_last()[i].0@ == k);
                assert(entries_map(s.drop_last()).contains_key(k));
            }
        }
    }
}

/// When the names in `s` are distinct, replacing the value stored at
/// position `i` denotes the same map as inserting under that name.
proof fn lemma_entries_map_update(s: Seq<(String, Value)>, i: int, v: Value)
    requires
        0 <= i < s.len(),
        forall|p: int, q: int|
            0 <= p < q < s.len() ==> #[trigger] s[p].0@ != #[trigger] s[q].0@,
    ensures
        entries_map(s.update(i, (s[i].0, v))) == entries_map(s).insert(s[i].0@, v),
    decreases s.len(),
{
    let t = s.update(i, (s[i].0, v));
    if i == s.len() - 1 {
        assert(t.drop_last() =~= s.drop_last());
        assert(entries_map(t) =~= entries_map(s).insert(s[i].0@, v));
    } else {
        assert(t.drop_last() =~= s.drop_last().update(i, (s[i].0, v)));
        lemma_entries_map_update(s.drop_last(), i, v);
        lemma_entries_map_dom(s.drop_last());
        // The final entry's name differs from the updated one, so the two
        // insertions commute.
        assert(s.last().0@ != s[i].0@);
        assert(entries_map(t) =~= entries_map(s).insert(s[i].0@, v));
    }
}

impl AttrMap {
    /// Internal validity: names of distinct entries are distinct. `new`
    /// establishes it and every method preserves it.
    pub closed spec fn wf(self) -> bool {
        forall|p: int, q: int|
            0 <= p < q < self.entries@.len() ==> #[trigger] self.entries@[p].0@
                != #[trigger] self.entries@[q].0@
    }

    /// Builds an empty mapping.
    pub fn new() -> (m: AttrMap)
        ensures
            m.wf(),
            m@ == Map::<Seq<char>, Value>::empty(),
    {
        AttrMap { entries: Vec::new() }
    }

    /// The number of attributes stored.
    pub fn len(&self) -> (n: usize)
        requires
            self.wf(),
        ensures
            n == self@.dom().len(),
    {
        proof {
            lemma_entries_map_len(self.entries@);
        }
        self.entries.len()
    }

    /// Records `value` under `name`, replacing any value already stored
    /// under that name.
    pub fn insert(&mut self, name: String, value: Value)
        requires
            old(self).wf(),
        ensures
            final(self).wf(),
            final(self)@ == old(self)@.insert(name@, value),
    {
        let ghost s0 = self.entries@;
        let n = self.entries.len();
        let mut i: usize = 0;
        while i < n
            invariant
                n == s0.len(),
                self.entries@ == s0,
                old(self).wf(),
                self.entries@ == old(self).entries@,
                forall|j: int| 0 <= j < i ==> #[trigger] s0[j].0@ != name@,
            decreases n - i,
        {
            if self.entries[i].0 == name {
                self.entries[i].1 = value;
                proof {
                    assert(self.entries@ =~= s0.update(i as int, (s0[i as int].0, value)));
                    lemma_entries_map_update(s0, i as int, value);
                }
                return ;
            }
            i += 1;
        }
        self.entries.push((name, value));
        proof {
            assert(self.entries@.drop_last() =~= s0);
        }
    }

    /// Looks up the value stored under `name`.
    pub fn get(&self, name: &str) -> (r: Option<&Value>)
        requires
            self.wf(),
        ensures
            match r {
                Some(v) => self@.contains_key(name@) && *v == self@[name@],
                None => !self@.contains_key(name@),
            },
    {
        proof {
            lemma_entries_map_dom(self.entries@);
        }
        let key = String::from_str(name);
        let n = self.entries.len();
        let mut i: usize = 0;
        while i < n
            invariant
                n == self.entries@.len(),
                self.wf(),
                key@ == name@,
                forall|j: int| 0 <= j < i ==> #[trigger] self.entries@[j].0@ != name@,
            decreases n - i,
        {
            if self.entries[i].0 == key {
                proof {
                    lemma_entries_map_get(self.entries@, i as int);
                }
                return Some(&self.entries[i].1);
            }
            i += 1;
        }
        None
    }

    /// Whether a value is stored under `name`.
    pub fn contains_key(&self, name: &str) -> (r: bool)
        requires
            self.wf(),
        ensures
            r == self@.contains_key(name@),
    {
        self.get(name).is_some()
    }
}

/// With distinct names, the map has as many keys as the list has entries.
proof fn lemma_entries_map_len(s: Seq<(String, Value)>)
    requires
        forall|p: int, q: int|
            0 <= p < q < s.len() ==> #[trigger] s[p].0@ != #[trigger] s[q].0@,
    ensures
        entries_map(s).dom().len() == s.len(),
        entries_map(s).dom().finite(),
    decreases s.len(),
{
    if s.len() > 0 {
        lemma_entries_map_len(s.drop_last());
        lemma_entries_map_dom(s.drop_last());
        assert(!entries_map(s.drop_last()).contains_key(s.last().0@));
    }
}

/// The value stored at position `i` is the one the map assigns to its
/// name, provided the names are distinct.
proof fn lemma_entries_map_get(s: Seq<(String, Value)>, i: int)
    requires
        0 <= i < s.len(),
        forall|p: int, q: int|
            0 <= p < q < s.len() ==> #[trigger] s[p].0@ != #[trigger] s[q].0@,
    ensures
        entries_map(s).contains_key(s[i].0@),
        entries_map(s)[s[i].0@] == s[i].1,
    decreases s.len(),
{
    if i == s.len() - 1 {
    } else {
        lemma_entries_map_get(s.drop_last(), i);
        assert(s.last().0@ != s[i].0@);
    }
}

} // verus!
