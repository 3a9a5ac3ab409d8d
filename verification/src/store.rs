//! The pending-request store: a mapping from request identifier to the
//! buffered request facet of the start record. `put` overwrites
//! unconditionally (last write wins) and `take` removes and returns the
//! entry, so an identifier is consumed by at most one completion.
//!
//! The store is kept as a vector of entries with pairwise-distinct keys;
//! its abstract value is the map from identifier characters to the
//! buffered method and URL characters.

use vstd::prelude::*;
use crate::record::RequestInfo;

verus! {

/// The abstract value of a sequence of entries: later entries win.
pub open spec fn map_of(s: Seq<(String, RequestInfo)>) -> Map<Seq<char>, (Seq<char>, Seq<char>)>
    decreases s.len(),
{
    if s.len() == 0 {
        Map::empty()
    } else {
        map_of(s.drop_last()).insert(
            s.last().0@,
            (s.last().1.method@, s.last().1.url@),
        )
    }
}

/// Entries carry pairwise-distinct identifiers.
pub open spec fn distinct_keys(s: Seq<(String, RequestInfo)>) -> bool {
    forall|i: int, j: int| 0 <= i < j < s.len() ==> s[i].0@ != s[j].0@
}

proof fn lemma_map_of_contains(s: Seq<(String, RequestInfo)>, k: Seq<char>)
    ensures
        map_of(s).contains_key(k) <==> (exists|i: int| 0 <= i < s.len() && s[i].0@ == k),
    decreases s.len(),
{
    if s.len() == 0 {
    } else {
        lemma_map_of_contains(s.drop_last(), k);
        if s.last().0@ == k {
            assert(s[s.len() - 1].0@ == k);
        } else if map_of(s).contains_key(k) {
            let i = choose|i: int| 0 <= i < s.drop_last().len() && s.drop_last()[i].0@ == k;
            assert(s[i].0@ == k);
        } else {
            if exists|i: int| 0 <= i < s.len() && s[i].0@ == k {
                let i = choose|i: int| 0 <= i < s.len() && s[i].0@ == k;
                assert(s.drop_last()[i].0@ == k);
            }
        }
    }
}

proof fn lemma_map_of_value(s: Seq<(String, RequestInfo)>, i: int)
    requires
        0 <= i < s.len(),
        forall|j: int| i < j < s.len() ==> s[j].0@ != s[i].0@,
    ensures
        map_of(s).contains_key(s[i].0@),
        map_of(s)[s[i].0@] == (s[i].1.method@, s[i].1.url@),
    decreases s.len(),
{
    if i == s.len() - 1 {
    } else {
        assert(s.drop_last()[i] == s[i]);
        lemma_map_of_value(s.drop_last(), i);
    }
}

proof fn lemma_map_of_remove(s: Seq<(String, RequestInfo)>, i: int)
    requires
        distinct_keys(s),
        0 <= i < s.len(),
    ensures
        map_of(s.remove(i)) == map_of(s).remove(s[i].0@),
        distinct_keys(s.remove(i)),
    decreases s.len(),
{
    assert forall|p: int, q: int| 0 <= p < q < s.remove(i).len() implies s.remove(i)[p].0@
        != s.remove(i)[q].0@ by {
        let p0 = if p < i { p } else { p + 1 };
        let q0 = if q < i { q } else { q + 1 };
        assert(s.remove(i)[p] == s[p0]);
        assert(s.remove(i)[q] == s[q0]);
    }
    if i == s.len() - 1 {
        assert(s.remove(i) =~= s.drop_last());
        lemma_map_of_contains(s.drop_last(), s[i].0@);
        assert(map_of(s.drop_last()).remove(s[i].0@) =~= map_of(s.drop_last()));
        assert(map_of(s).remove(s[i].0@) =~= map_of(s.drop_last()));
    } else {
        assert(s.remove(i).drop_last() =~= s.drop_last().remove(i));
        assert(s.remove(i).last() == s.last());
        lemma_map_of_remove(s.drop_last(), i);
        assert(s.drop_last()[i] == s[i]);
        assert(s.last().0@ != s[i].0@);
        assert(map_of(s.remove(i)) =~= map_of(s).remove(s[i].0@));
    }
}

/// The correlation state: buffered request facets, keyed by identifier.
pub struct PendingStore {
    entries: Vec<(String, RequestInfo)>,
}

impl View for PendingStore {
    type V = Map<Seq<char>, (Seq<char>, Seq<char>)>;

    closed spec fn view(&self) -> Map<Seq<char>, (Seq<char>, Seq<char>)> {
        map_of(self.entries@)
    }
}

impl PendingStore {
    /// The store's internal invariant: one entry per identifier.
    pub closed spec fn wf(&self) -> bool {
        distinct_keys(self.entries@)
    }

    /// An empty store.
    pub fn new() -> (s: PendingStore)
        ensures
            s.wf(),
            s@ == Map::<Seq<char>, (Seq<char>, Seq<char>)>::empty(),
    {
        let s = PendingStore { entries: Vec::new() };
        proof {
            assert(s@ =~= Map::<Seq<char>, (Seq<char>, Seq<char>)>::empty());
        }
        s
    }

    fn find_index(&self, id: &String) -> (r: Option<usize>)
        ensures
            match r {
                Some(i) => i < self.entries@.len() && self.entries@[i as int].0@ == id@,
                None => forall|j: int| 0 <= j < self.entries@.len() ==> self.entries@[j].0@ != id@,
            },
    {
        let n = self.entries.len();
        let mut i: usize = 0;
        while i < n
            invariant
                n == self.entries@.len(),
                0 <= i <= n,
                forall|j: int| 0 <= j < i ==> self.entries@[j].0@ != id@,
            decreases n - i,
        {
            let e = &self.entries[i];
            if e.0 == *id {
                return Some(i);
            }
            i = i + 1;
        }
        None
    }

    /// Removes and returns the buffered entry for `id`, if one is present.
    pub fn take(&mut self, id: &String) -> (r: Option<RequestInfo>)
        requires
            old(self).wf(),
        ensures
            final(self).wf(),
            final(self)@ == old(self)@.remove(id@),
            r is Some <==> old(self)@.contains_key(id@),
            r is Some ==> (r->0.method@, r->0.url@) == old(self)@[id@],
    {
        proof {
            lemma_map_of_contains(self.entries@, id@);
        }
        match self.find_index(id) {
            Some(i) => {
                proof {
                    lemma_map_of_value(self.entries@, i as int);
                    lemma_map_of_remove(self.entries@, i as int);
                }
                let e = self.entries.remove(i);
                Some(e.1)
            },
            None => {
                proof {
                    assert(map_of(self.entries@).remove(id@) =~= map_of(self.entries@));
                }
                None
            },
        }
    }

    /// Buffers `entry` under `id`, overwriting any entry already there:
    /// last write wins.
    pub fn put(&mut self, id: String, entry: RequestInfo)
        requires
            old(self).wf(),
        ensures
            final(self).wf(),
            final(self)@ == old(self)@.insert(id@, (entry.method@, entry.url@)),
    {
        let _displaced = self.take(&id);
        let ghost before = self.entries@;
        proof {
            lemma_map_of_contains(before, id@);
            assert(forall|j: int| 0 <= j < before.len() ==> before[j].0@ != id@);
        }
        self.entries.push((id, entry));
        proof {
            assert(self.entries@.drop_last() =~= before);
            assert forall|p: int, q: int| 0 <= p < q < self.entries@.len() implies self.entries@[p].0@
                != self.entries@[q].0@ by {
                if q < self.entries@.len() - 1 {
                    assert(before[p].0@ != before[q].0@);
                } else {
                    assert(before[p].0@ != id@);
                }
            }
            assert(self@ =~= old(self)@.insert(id@, (entry.method@, entry.url@)));
        }
    }
}

} // verus!
