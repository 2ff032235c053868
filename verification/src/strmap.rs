//! A small string-keyed association map. The remote protocol treats a
//! document's field order as irrelevant, so all contracts speak through
//! [`StrMap::spec_get`]; a later entry for the same key shadows an earlier
//! one, matching insert-replaces-value map semantics.

use crate::text::str_eq;
use vstd::prelude::*;

verus! {

/// Lookup in an entry sequence; the most recently added binding wins.
pub open spec fn assoc_get<V>(s: Seq<(String, V)>, k: Seq<char>) -> Option<V>
    decreases s.len(),
{
    if s.len() == 0 {
        None
    } else if s.last().0@ == k {
        Some(s.last().1)
    } else {
        assoc_get(s.drop_last(), k)
    }
}

#[derive(Clone, Debug)]
pub struct StrMap<V> {
    entries: Vec<(String, V)>,
}

impl<V> StrMap<V> {
    /// What this map binds `k` to.
    pub closed spec fn spec_get(&self, k: Seq<char>) -> Option<V> {
        assoc_get(self.entries@, k)
    }

    /// The bindings in insertion order, for wire serialization.
    pub closed spec fn spec_entries(&self) -> Seq<(String, V)> {
        self.entries@
    }

    pub fn new() -> (r: StrMap<V>)
        ensures
            forall|k: Seq<char>| r.spec_get(k) is None,
            r.spec_entries() == Seq::<(String, V)>::empty(),
    {
        let r = StrMap { entries: Vec::new() };
        proof {
            assert(r.entries@ =~= Seq::<(String, V)>::empty());
        }
        r
    }

    /// Binds `k` to `v`, shadowing any earlier binding.
    pub fn insert(&mut self, k: String, v: V)
        ensures
            final (self).spec_get(k@) == Some(v),
            forall|k2: Seq<char>|
                k2 != k@ ==> final (self).spec_get(k2) == old(self).spec_get(k2),
            final (self).spec_entries() == old(self).spec_entries().push((k, v)),
    {
        let ghost gk = k@;
        let ghost gv = v;
        self.entries.push((k, v));
        proof {
            assert(self.entries@.last().0@ == gk);
            assert forall|k2: Seq<char>| k2 != gk implies assoc_get(self.entries@, k2) == assoc_get(
                self.entries@.drop_last(),
                k2,
            ) by {
                assert(self.entries@.last().0@ != k2);
            }
            assert(self.entries@.drop_last() =~= old(self).entries@);
        }
    }

    /// Looks a key up, as the wire name of a field or document addresses it.
    pub fn get(&self, k: &str) -> (r: Option<&V>)
        ensures
            match r {
                Some(v) => self.spec_get(k@) == Some(*v),
                None => self.spec_get(k@) is None,
            },
    {
        let n = self.entries.len();
        let mut i: usize = n;
        proof {
            assert(self.entries@.take(n as int) =~= self.entries@);
        }
        loop
            invariant
                0 <= i <= n,
                n == self.entries@.len(),
                assoc_get(self.entries@, k@) == assoc_get(self.entries@.take(i as int), k@),
            ensures
                0 < i <= n,
                self.entries@[i - 1].0@ == k@,
                assoc_get(self.entries@, k@) == Some(self.entries@[i - 1].1),
            decreases i,
        {
            if i == 0 {
                proof {
                    assert(self.entries@.take(0) =~= Seq::<(String, V)>::empty());
                }
                return None;
            }
            if str_eq(self.entries[i - 1].0.as_str(), k) {
                proof {
                    assert(self.entries@.take(i as int).last() == self.entries@[i - 1]);
                }
                break ;
            }
            proof {
                assert(self.entries@.take(i as int).last() == self.entries@[i - 1]);
                assert(self.entries@.take(i as int).drop_last() =~= self.entries@.take(i - 1));
            }
            i = i - 1;
        }
        Some(&self.entries[i - 1].1)
    }

    /// The bindings in insertion order, for the unverified wire layer to walk.
    pub fn entries(&self) -> (r: &Vec<(String, V)>)
        ensures
            r@ == self.spec_entries(),
    {
        &self.entries
    }

}

} // verus!
