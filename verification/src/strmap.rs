//! A small string-keyed map, kept as a vector of key/value pairs in
//! insertion order, with each key held at most once. It backs the
//! parameter bindings of a request and the header fields of requests and
//! responses, and its view is a mathematical map from key text to value
//! text.

use vstd::prelude::*;
use vstd::pervasive::VecAdditionalExecFns;

use crate::strutil::str_eq_str;

verus! {

/// The map described by a sequence of entries, later entries overriding
/// earlier ones.
pub open spec fn entries_map(es: Seq<(String, String)>) -> Map<Seq<char>, Seq<char>>
    decreases es.len(),
{
    if es.len() == 0 {
        Map::empty()
    } else {
        entries_map(es.drop_last()).insert(es.last().0@, es.last().1@)
    }
}

/// The views of a sequence of entries.
pub open spec fn entry_views(es: Seq<(String, String)>) -> Seq<(Seq<char>, Seq<char>)> {
    Seq::new(es.len(), |i: int| (es[i].0@, es[i].1@))
}

/// A string-keyed map in insertion order.
#[derive(PartialEq, Eq, Debug)]
pub struct StringMap {
    pub entries: Vec<(String, String)>,
}

impl View for StringMap {
    type V = Map<Seq<char>, Seq<char>>;

    open spec fn view(&self) -> Map<Seq<char>, Seq<char>> {
        entries_map(self.entries@)
    }
}

/// Membership in the map agrees with membership among the entries.
proof fn lemma_entries_map_domain(es: Seq<(String, String)>, k: Seq<char>)
    ensures
        entries_map(es).contains_key(k) <==> exists|i: int| 0 <= i < es.len() && es[i].0@ == k,
    decreases es.len(),
{
    if es.len() > 0 {
        lemma_entries_map_domain(es.drop_last(), k);
        if exists|i: int| 0 <= i < es.len() && es[i].0@ == k {
            let i = choose|i: int| 0 <= i < es.len() && es[i].0@ == k;
            if i < es.len() - 1 {
                assert(es.drop_last()[i].0@ == k);
            }
        }
        if entries_map(es.drop_last()).contains_key(k) {
            let i = choose|i: int| 0 <= i < es.drop_last().len() && es.drop_last()[i].0@ == k;
            assert(es[i].0@ == k);
        }
    }
}

/// With no key repeated, the value of a key is the value beside its one
/// entry.
proof fn lemma_entries_map_at(es: Seq<(String, String)>, i: int)
    requires
        0 <= i < es.len(),
        forall|p: int, q: int| 0 <= p < q < es.len() ==> es[p].0@ != es[q].0@,
    ensures
        entries_map(es).contains_key(es[i].0@),
        entries_map(es)[es[i].0@] == es[i].1@,
    decreases es.len(),
{
    if i == es.len() - 1 {
        lemma_entries_map_domain(es, es[i].0@);
    } else {
        lemma_entries_map_at(es.drop_last(), i);
        assert(es.drop_last()[i] == es[i]);
        assert(es.last().0@ != es[i].0@);
    }
}

impl StringMap {
    /// No key occurs beside two entries.
    pub open spec fn wf(&self) -> bool {
        forall|p: int, q: int|
            0 <= p < q < self.entries@.len() ==> self.entries@[p].0@ != self.entries@[q].0@
    }

    /// An empty map.
    pub fn new() -> (r: StringMap)
        ensures
            r@ == Map::<Seq<char>, Seq<char>>::empty(),
            r.wf(),
            r.entries@.len() == 0,
    {
        StringMap { entries: Vec::new() }
    }

    /// Binds `key` to `value`, replacing the value in place when the key is
    /// already present and appending a fresh entry otherwise.
    pub fn insert(&mut self, key: String, value: String)
        requires
            old(self).wf(),
        ensures
            final(self).wf(),
            final(self)@ == old(self)@.insert(key@, value@),
    {
        let n = self.entries.len();
        let mut i: usize = 0;
        while i < n
            invariant
                n == self.entries@.len(),
                0 <= i <= n,
                forall|k: int| 0 <= k < i ==> self.entries@[k].0@ != key@,
                self.wf(),
                *self == *old(self),
            decreases n - i,
        {
            if str_eq_str(self.entries[i].0.as_str(), key.as_str()) {
                proof {
                    lemma_insert_at(self.entries@, i as int, key, value);
                }
                self.entries.set(i, (key, value));
                return ;
            }
            i = i + 1;
        }
        proof {
            lemma_entries_map_domain(self.entries@, key@);
            assert(self.entries@.push((key, value)).drop_last() =~= self.entries@);
            let es2 = self.entries@.push((key, value));
            assert(forall|p: int, q: int|
                0 <= p < q < es2.len() ==> es2[p].0@ != es2[q].0@) by {
                assert(forall|p: int| 0 <= p < self.entries@.len() ==> es2[p] == self.entries@[p]);
            }
        }
        self.entries.push((key, value));
    }

    /// Looks the key up, returning its bound value when one exists.
    pub fn get<'a>(&'a self, key: &str) -> (r: Option<&'a String>)
        requires
            self.wf(),
        ensures
            match r {
                Some(v) => self@.contains_key(key@) && v@ == self@[key@],
                None => !self@.contains_key(key@),
            },
    {
        let n = self.entries.len();
        let mut i: usize = 0;
        while i < n
            invariant
                n == self.entries@.len(),
                0 <= i <= n,
                self.wf(),
                forall|k: int| 0 <= k < i ==> self.entries@[k].0@ != key@,
            decreases n - i,
        {
            if str_eq_str(self.entries[i].0.as_str(), key) {
                proof {
                    lemma_entries_map_at(self.entries@, i as int);
                }
                return Some(&self.entries[i].1);
            }
            i = i + 1;
        }
        proof {
            lemma_entries_map_domain(self.entries@, key@);
        }
        None
    }

    /// The number of bound keys.
    pub fn len(&self) -> (r: usize)
        ensures
            r == self.entries@.len(),
    {
        self.entries.len()
    }

    /// An entry-for-entry copy of the map.
    pub fn duplicate(&self) -> (r: StringMap)
        ensures
            r.entries@.len() == self.entries@.len(),
            forall|i: int|
                0 <= i < self.entries@.len() ==> r.entries@[i].0@ == self.entries@[i].0@
                    && r.entries@[i].1@ == self.entries@[i].1@,
            r@ == self@,
            self.wf() ==> r.wf(),
    {
        let n = self.entries.len();
        let mut out: Vec<(String, String)> = Vec::new();
        let mut i: usize = 0;
        while i < n
            invariant
                n == self.entries@.len(),
                0 <= i <= n,
                out@.len() == i,
                forall|k: int|
                    0 <= k < i ==> out@[k].0@ == self.entries@[k].0@ && out@[k].1@
                        == self.entries@[k].1@,
            decreases n - i,
        {
            let k = self.entries[i].0.clone();
            let v = self.entries[i].1.clone();
            out.push((k, v));
            i = i + 1;
        }
        proof {
            lemma_entries_map_congruence(out@, self.entries@);
        }
        StringMap { entries: out }
    }
}

/// Replacing the entry that holds a key rebinds that key and nothing else.
proof fn lemma_insert_at(es: Seq<(String, String)>, i: int, key: String, value: String)
    requires
        0 <= i < es.len(),
        es[i].0@ == key@,
        forall|p: int, q: int| 0 <= p < q < es.len() ==> es[p].0@ != es[q].0@,
    ensures
        entries_map(es.update(i, (key, value))) == entries_map(es).insert(key@, value@),
        forall|p: int, q: int|
            0 <= p < q < es.len() ==> es.update(i, (key, value))[p].0@ != es.update(
                i,
                (key, value),
            )[q].0@,
    decreases es.len(),
{
    let es2 = es.update(i, (key, value));
    if i == es.len() - 1 {
        assert(es2.drop_last() =~= es.drop_last());
        assert(es2.last() == (key, value));
        assert(entries_map(es2) == entries_map(es.drop_last()).insert(key@, value@));
        assert(entries_map(es).insert(key@, value@) == entries_map(es.drop_last()).insert(
            es.last().0@,
            es.last().1@,
        ).insert(key@, value@));
        assert(entries_map(es.drop_last()).insert(es[i].0@, es[i].1@).insert(key@, value@)
            =~= entries_map(es.drop_last()).insert(key@, value@));
    } else {
        lemma_insert_at(es.drop_last(), i, key, value);
        assert(es2.drop_last() =~= es.drop_last().update(i, (key, value)));
        assert(es2.last() == es.last());
        assert(es.last().0@ != key@);
        assert(entries_map(es2) == entries_map(es.drop_last()).insert(key@, value@).insert(
            es.last().0@,
            es.last().1@,
        ));
        assert(entries_map(es.drop_last()).insert(key@, value@).insert(es.last().0@, es.last().1@)
            =~= entries_map(es.drop_last()).insert(es.last().0@, es.last().1@).insert(
            key@,
            value@,
        ));
    }
}

/// Two entry sequences with the same key and value texts describe one map.
proof fn lemma_entries_map_congruence(a: Seq<(String, String)>, b: Seq<(String, String)>)
    requires
        a.len() == b.len(),
        forall|i: int| 0 <= i < a.len() ==> a[i].0@ == b[i].0@ && a[i].1@ == b[i].1@,
    ensures
        entries_map(a) == entries_map(b),
    decreases a.len(),
{
    if a.len() > 0 {
        lemma_entries_map_congruence(a.drop_last(), b.drop_last());
    }
}

} // verus!
