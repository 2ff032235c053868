//! Batch reads: ids already cached under the transaction are removed from
//! the network request, one combined fetch covers the remainder, and the
//! merged answer always has one entry per requested id, in request order.

use crate::client::FirestoreClient;
use crate::codec::DocumentCodec;
use crate::document::Document;
use crate::errors::{DecodeErrorV, Error};
use crate::id::Id;
use crate::transaction::Transaction;
use vstd::prelude::*;

verus! {

/// The names a batch read must fetch: the document names of the requested
/// ids, in order, with the ones the transaction already read left out.
pub open spec fn spec_fetch_names(
    c: FirestoreClient,
    ids: Seq<Id>,
    t: Transaction,
) -> Seq<Seq<char>>
    decreases ids.len(),
{
    if ids.len() == 0 {
        Seq::empty()
    } else {
        let rest = spec_fetch_names(c, ids.drop_last(), t);
        let name = c.spec_doc_name(ids.last()@);
        if t.spec_cached(name) is None {
            rest.push(name)
        } else {
            rest
        }
    }
}

/// Cache hits are removed from the network request: a name goes on the
/// wire exactly when it is the document name of one of the requested ids
/// and the transaction has not read it yet.
pub proof fn lemma_fetch_names_filter(
    c: FirestoreClient,
    ids: Seq<Id>,
    t: Transaction,
    n: Seq<char>,
)
    ensures
        spec_fetch_names(c, ids, t).contains(n) <==> ((exists|i: int|
            0 <= i < ids.len() && c.spec_doc_name(#[trigger] ids[i]@) == n) && t.spec_cached(n)
            is None),
    decreases ids.len(),
{
    if ids.len() == 0 {
    } else {
        lemma_fetch_names_filter(c, ids.drop_last(), t, n);
        let rest = spec_fetch_names(c, ids.drop_last(), t);
        let last_name = c.spec_doc_name(ids.last()@);
        if t.spec_cached(last_name) is None {
            assert(spec_fetch_names(c, ids, t) == rest.push(last_name));
            if rest.contains(n) || n == last_name {
                if rest.contains(n) {
                    let i = choose|i: int| 0 <= i < rest.len() && rest[i] == n;
                    assert(rest.push(last_name)[i] == n);
                } else {
                    assert(rest.push(last_name)[rest.len() as int] == n);
                }
            }
            if spec_fetch_names(c, ids, t).contains(n) {
                let i = choose|i: int|
                    0 <= i < rest.push(last_name).len() && rest.push(last_name)[i] == n;
                if i < rest.len() {
                    assert(rest[i] == n);
                }
            }
        }
        if (exists|i: int| 0 <= i < ids.len() && c.spec_doc_name(#[trigger] ids[i]@) == n)
            && t.spec_cached(n) is None {
            let i = choose|i: int| 0 <= i < ids.len() && c.spec_doc_name(#[trigger] ids[i]@) == n;
            if i < ids.len() - 1 {
                assert(ids.drop_last()[i] == ids[i]);
            } else {
                assert(ids.last() == ids[i]);
            }
        }
        if (exists|i: int|
            0 <= i < ids.drop_last().len() && c.spec_doc_name(#[trigger] ids.drop_last()[i]@)
                == n) {
            let i = choose|i: int|
                0 <= i < ids.drop_last().len() && c.spec_doc_name(#[trigger] ids.drop_last()[i]@)
                    == n;
            assert(c.spec_doc_name(ids[i]@) == n);
        }
    }
}

/// All requested names, in order, when no transaction filters them.
pub open spec fn spec_all_names(c: FirestoreClient, ids: Seq<Id>) -> Seq<Seq<char>>
    decreases ids.len(),
{
    if ids.len() == 0 {
        Seq::empty()
    } else {
        spec_all_names(c, ids.drop_last()).push(c.spec_doc_name(ids.last()@))
    }
}

/// The answer the combined fetch gave for `name`: `None` when the answer
/// holds no entry for it, `Some(None)` when the store reported it missing,
/// `Some(Some(doc))` when it was found. The first entry for a name counts.
pub open spec fn spec_batch_entry(
    fetched: Seq<(String, Option<Document>)>,
    name: Seq<char>,
) -> Option<Option<Document>>
    decreases fetched.len(),
{
    if fetched.len() == 0 {
        None
    } else if fetched.first().0@ == name {
        Some(fetched.first().1)
    } else {
        spec_batch_entry(fetched.drop_first(), name)
    }
}

/// The document a merged batch read yields for `name`: the transaction's
/// cached read first, else whatever the fetch found.
pub open spec fn spec_batch_doc(
    cached: Option<Document>,
    fetched: Seq<(String, Option<Document>)>,
    name: Seq<char>,
) -> Option<Document> {
    match cached {
        Some(d) => Some(d),
        None => match spec_batch_entry(fetched, name) {
            Some(Some(d)) => Some(d),
            _ => None,
        },
    }
}

/// What the transaction's read cache holds for `name`, when a transaction
/// scopes the batch at all.
pub open spec fn spec_cached_for(
    transaction: Option<&Transaction>,
    name: Seq<char>,
) -> Option<Document> {
    match transaction {
        Some(t) => t.spec_cached(name),
        None => None,
    }
}

/// What a merged batch read yields for `name`: an absent value when
/// nothing was read or found, the decoded document when it decodes, and
/// the decode error when it does not.
pub open spec fn spec_merge_entry<T: DocumentCodec>(
    cached: Option<Document>,
    fetched: Seq<(String, Option<Document>)>,
    name: Seq<char>,
) -> Result<Option<T::V>, DecodeErrorV> {
    match spec_batch_doc(cached, fetched, name) {
        None => Ok(None),
        Some(d) => match T::spec_decode(d) {
            Ok(v) => Ok(Some(v)),
            Err(e) => Err(e),
        },
    }
}

impl FirestoreClient {
    /// The document names a batch `get` must fetch, the requested ids minus
    /// the transaction's cache hits.
    pub fn batch_fetch_names(&self, ids: &Vec<Id>, t: &Transaction) -> (r: Vec<String>)
        ensures
            r@.map_values(|s: String| s@) == spec_fetch_names(*self, ids@, *t),
    {
        let mut r: Vec<String> = Vec::new();
        let mut i: usize = 0;
        proof {
            assert(ids@.take(0) =~= Seq::<Id>::empty());
            assert(r@.map_values(|s: String| s@) =~= spec_fetch_names(*self, ids@.take(0), *t));
        }
        while i < ids.len()
            invariant
                0 <= i <= ids@.len(),
                r@.map_values(|s: String| s@) == spec_fetch_names(*self, ids@.take(i as int), *t),
            decreases ids@.len() - i,
        {
            let ghost prev = r@;
            let name = self.doc_name(&ids[i]);
            proof {
                assert(ids@.take(i + 1).drop_last() =~= ids@.take(i as int));
                assert(ids@.take(i + 1).last() == ids@[i as int]);
            }
            if t.cached(name.as_str()).is_none() {
                r.push(name);
                proof {
                    assert(r@.map_values(|s: String| s@) =~= prev.map_values(|s: String| s@).push(
                        self.spec_doc_name(ids@[i as int]@),
                    ));
                }
            }
            i = i + 1;
        }
        proof {
            assert(ids@.take(i as int) =~= ids@);
        }
        r
    }

    /// All requested document names, for a batch `get` outside any
    /// transaction.
    pub fn batch_all_names(&self, ids: &Vec<Id>) -> (r: Vec<String>)
        ensures
            r@.map_values(|s: String| s@) == spec_all_names(*self, ids@),
    {
        let mut r: Vec<String> = Vec::new();
        let mut i: usize = 0;
        proof {
            assert(ids@.take(0) =~= Seq::<Id>::empty());
            assert(r@.map_values(|s: String| s@) =~= spec_all_names(*self, ids@.take(0)));
        }
        while i < ids.len()
            invariant
                0 <= i <= ids@.len(),
                r@.map_values(|s: String| s@) == spec_all_names(*self, ids@.take(i as int)),
            decreases ids@.len() - i,
        {
            let ghost prev = r@;
            let name = self.doc_name(&ids[i]);
            proof {
                assert(ids@.take(i + 1).drop_last() =~= ids@.take(i as int));
                assert(ids@.take(i + 1).last() == ids@[i as int]);
            }
            r.push(name);
            proof {
                assert(r@.map_values(|s: String| s@) =~= prev.map_values(|s: String| s@).push(
                    self.spec_doc_name(ids@[i as int]@),
                ));
            }
            i = i + 1;
        }
        proof {
            assert(ids@.take(i as int) =~= ids@);
        }
        r
    }

    /// Merges a combined fetch back by name: exactly one entry per
    /// requested id, in request order. A cached read wins over the fetch;
    /// a missing document or an absent answer reads as an absent value; a
    /// document of the wrong shape is a data-integrity fault that fails
    /// the merge with its decode error.
    pub fn merge_batch_results<T: DocumentCodec>(
        &self,
        ids: &Vec<Id>,
        transaction: Option<&Transaction>,
        fetched: &Vec<(String, Option<Document>)>,
    ) -> (r: Result<Vec<(Id, Option<T>)>, Error>)
        ensures
            r matches Ok(out) ==> {
                &&& out@.len() == ids@.len()
                &&& forall|i: int| 0 <= i < out@.len() ==> (#[trigger] out@[i]).0@ == ids@[i]@
                &&& forall|i: int|
                    0 <= i < out@.len() ==> {
                        let name = self.spec_doc_name(ids@[i]@);
                        spec_merge_entry::<T>(spec_cached_for(transaction, name), fetched@, name)
                            == Ok::<Option<T::V>, DecodeErrorV>(
                            match (#[trigger] out@[i]).1 {
                                Some(v) => Some(v@),
                                None => None,
                            },
                        )
                    }
            },
            r matches Err(e) ==> (e matches Error::Decode(de) && exists|i: int|
                {
                    let name = self.spec_doc_name(#[trigger] ids@[i]@);
                    &&& 0 <= i < ids@.len()
                    &&& spec_merge_entry::<T>(spec_cached_for(transaction, name), fetched@, name)
                        == Err::<Option<T::V>, DecodeErrorV>(de@)
                    &&& forall|j: int|
                        0 <= j < i ==> {
                            let name_j = self.spec_doc_name(#[trigger] ids@[j]@);
                            spec_merge_entry::<T>(
                                spec_cached_for(transaction, name_j),
                                fetched@,
                                name_j,
                            ) is Ok
                        }
                }),
    {
        let mut out: Vec<(Id, Option<T>)> = Vec::new();
        let mut i: usize = 0;
        while i < ids.len()
            invariant
                0 <= i <= ids@.len(),
                out@.len() == i,
                forall|k: int| 0 <= k < i ==> (#[trigger] out@[k]).0@ == ids@[k]@,
                forall|k: int|
                    0 <= k < i ==> {
                        let name = self.spec_doc_name(ids@[k]@);
                        spec_merge_entry::<T>(spec_cached_for(transaction, name), fetched@, name)
                            == Ok::<Option<T::V>, DecodeErrorV>(
                            match (#[trigger] out@[k]).1 {
                                Some(v) => Some(v@),
                                None => None,
                            },
                        )
                    },
            decreases ids@.len() - i,
        {
            let ghost gi = i as int;
            let id = ids[i].clone();
            let name = self.doc_name(&id);
            let ghost name_v = self.spec_doc_name(ids@[gi]@);
            let cached_doc: Option<&Document> = match transaction {
                Some(t) => t.cached(name.as_str()),
                None => None,
            };
            let value: Option<T> = match cached_doc {
                Some(doc) => match T::from_document(doc) {
                    Ok(v) => Some(v),
                    Err(e) => {
                        proof {
                            assert(spec_merge_entry::<T>(
                                spec_cached_for(transaction, name_v),
                                fetched@,
                                name_v,
                            ) == Err::<Option<T::V>, DecodeErrorV>(e@));
                            assert forall|j: int| 0 <= j < gi implies {
                                let name_j = self.spec_doc_name(#[trigger] ids@[j]@);
                                spec_merge_entry::<T>(
                                    spec_cached_for(transaction, name_j),
                                    fetched@,
                                    name_j,
                                ) is Ok
                            } by {
                                let entry = out@[j];
                                assert(entry.0@ == ids@[j]@);
                            };
                        }
                        return Err(Error::Decode(e));
                    },
                },
                None => match find_batch_entry(fetched, name.as_str()) {
                    Some(entry) => match entry {
                        Some(doc) => match T::from_document(doc) {
                            Ok(v) => Some(v),
                            Err(e) => {
                                proof {
                                    assert(spec_merge_entry::<T>(
                                        spec_cached_for(transaction, name_v),
                                        fetched@,
                                        name_v,
                                    ) == Err::<Option<T::V>, DecodeErrorV>(e@));
                                    assert forall|j: int| 0 <= j < gi implies {
                                        let name_j = self.spec_doc_name(#[trigger] ids@[j]@);
                                        spec_merge_entry::<T>(
                                            spec_cached_for(transaction, name_j),
                                            fetched@,
                                            name_j,
                                        ) is Ok
                                    } by {
                                        let entry = out@[j];
                                        assert(entry.0@ == ids@[j]@);
                                    };
                                }
                                return Err(Error::Decode(e));
                            },
                        },
                        None => None,
                    },
                    None => None,
                },
            };
            out.push((id, value));
            i = i + 1;
        }
        Ok(out)
    }
}

/// Scans the combined answer for the first entry under `name`.
fn find_batch_entry<'a>(
    fetched: &'a Vec<(String, Option<Document>)>,
    name: &str,
) -> (r: Option<&'a Option<Document>>)
    ensures
        match r {
            Some(entry) => spec_batch_entry(fetched@, name@) == Some(*entry),
            None => spec_batch_entry(fetched@, name@) is None,
        },
{
    let mut i: usize = 0;
    proof {
        assert(fetched@.skip(0) =~= fetched@);
    }
    while i < fetched.len()
        invariant
            0 <= i <= fetched@.len(),
            spec_batch_entry(fetched@, name@) == spec_batch_entry(fetched@.skip(i as int), name@),
        decreases fetched@.len() - i,
    {
        proof {
            assert(fetched@.skip(i as int).first() == fetched@[i as int]);
            assert(fetched@.skip(i as int).drop_first() =~= fetched@.skip(i + 1));
        }
        if crate::text::str_eq(fetched[i].0.as_str(), name) {
            return Some(&fetched[i].1);
        }
        i = i + 1;
    }
    proof {
        assert(fetched@.skip(i as int) =~= Seq::<(String, Option<Document>)>::empty());
    }
    None
}

} // verus!
