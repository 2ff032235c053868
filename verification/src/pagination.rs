//! Paged listing: a `list` walks the collection page by page behind a
//! continuation token and accumulates every page, in order, into one
//! sequence. The run's items are always exactly the concatenation of the
//! pages fed in — no duplicates, no gaps, whatever the page sizes were —
//! and a document that does not decode is a data-integrity fault that
//! fails the run, never a silently dropped item.

use crate::client::FirestoreClient;
use crate::codec::{views_of, DocumentCodec};
use crate::document::Document;
use crate::errors::{DecodeError, DecodeErrorV, Error};
use vstd::prelude::*;

verus! {

/// The decodes of one fetched page, in order; the first document that does
/// not decode decides the error.
pub open spec fn spec_decode_page<T: DocumentCodec>(docs: Seq<Document>) -> Result<
    Seq<T::V>,
    DecodeErrorV,
>
    decreases docs.len(),
{
    if docs.len() == 0 {
        Ok(Seq::empty())
    } else {
        match spec_decode_page::<T>(docs.drop_last()) {
            Err(e) => Err(e),
            Ok(rest) => match T::spec_decode(docs.last()) {
                Ok(v) => Ok(rest.push(v)),
                Err(e) => Err(e),
            },
        }
    }
}

proof fn lemma_decode_page_error_propagates<T: DocumentCodec>(docs: Seq<Document>, k: int)
    requires
        0 <= k <= docs.len(),
        spec_decode_page::<T>(docs.take(k)) is Err,
    ensures
        spec_decode_page::<T>(docs) == spec_decode_page::<T>(docs.take(k)),
    decreases docs.len() - k,
{
    if k == docs.len() {
        assert(docs.take(k) =~= docs);
    } else {
        assert(docs.take(k + 1).drop_last() =~= docs.take(k));
        lemma_decode_page_error_propagates::<T>(docs, k + 1);
    }
}

/// Decodes one page; a document of the wrong shape is surfaced as its
/// decode error, never omitted.
pub fn decode_page<T: DocumentCodec>(docs: &Vec<Document>) -> (r: Result<Vec<T>, DecodeError>)
    ensures
        r matches Ok(items) ==> spec_decode_page::<T>(docs@) == Ok::<Seq<T::V>, DecodeErrorV>(
            views_of(items@),
        ),
        r matches Err(e) ==> spec_decode_page::<T>(docs@) == Err::<Seq<T::V>, DecodeErrorV>(e@),
{
    let mut items: Vec<T> = Vec::new();
    let mut i: usize = 0;
    proof {
        assert(docs@.take(0) =~= Seq::<Document>::empty());
        assert(views_of(items@) =~= Seq::<T::V>::empty());
    }
    while i < docs.len()
        invariant
            0 <= i <= docs@.len(),
            spec_decode_page::<T>(docs@.take(i as int)) == Ok::<Seq<T::V>, DecodeErrorV>(
                views_of(items@),
            ),
        decreases docs@.len() - i,
    {
        let ghost prev = items@;
        proof {
            assert(docs@.take(i + 1).drop_last() =~= docs@.take(i as int));
            assert(docs@.take(i + 1).last() == docs@[i as int]);
        }
        match T::from_document(&docs[i]) {
            Ok(v) => {
                items.push(v);
                proof {
                    assert(views_of(items@) =~= views_of(prev).push(items@.last()@));
                }
            },
            Err(e) => {
                proof {
                    lemma_decode_page_error_propagates::<T>(docs@, i + 1);
                }
                return Err(e);
            },
        }
        i = i + 1;
    }
    proof {
        assert(docs@.take(i as int) =~= docs@);
    }
    Ok(items)
}

/// One paged listing in progress: the accumulated items, the continuation
/// token of the next page, and — as the run's mathematical history — the
/// decoded pages fed so far.
pub struct ListRun<T: DocumentCodec> {
    items: Vec<T>,
    next_page_token: Option<String>,
    done: bool,
    pages: Ghost<Seq<Seq<T::V>>>,
}

impl<T: DocumentCodec> ListRun<T> {
    /// The pages fed so far, as decoded views.
    pub closed spec fn spec_pages(&self) -> Seq<Seq<T::V>> {
        self.pages@
    }

    /// No further page: the last answer carried no continuation token.
    pub closed spec fn spec_done(&self) -> bool {
        self.done
    }

    pub closed spec fn spec_items(&self) -> Seq<T> {
        self.items@
    }

    /// The continuation token the last page carried.
    pub closed spec fn spec_token(&self) -> Option<String> {
        self.next_page_token
    }

    /// The completeness invariant: the accumulated items are exactly the
    /// concatenation of the pages, in order. Every run the constructor
    /// hands out keeps it.
    pub closed spec fn wf(&self) -> bool {
        views_of(self.items@) == self.spec_pages().flatten()
    }

    /// An empty run, before the first page.
    pub fn new() -> (r: ListRun<T>)
        ensures
            r.wf(),
            r.spec_pages() == Seq::<Seq<T::V>>::empty(),
            !r.spec_done(),
    {
        let r = ListRun {
            items: Vec::new(),
            next_page_token: None,
            done: false,
            pages: Ghost(Seq::empty()),
        };
        proof {
            assert(views_of(r.items@) =~= Seq::<T::V>::empty());
            assert(r.pages@.flatten() =~= Seq::<T::V>::empty());
        }
        r
    }

    /// The target of the next page request — carrying the continuation
    /// token after the first page — or `None` once the run is done.
    pub fn next_uri(&self, client: &FirestoreClient) -> (r: Option<String>)
        ensures
            r is Some <==> !self.spec_done(),
            r matches Some(uri) ==> uri@ == (match self.spec_token() {
                Some(tok) => "https://firestore.googleapis.com/v1/"@ + client.spec_parent_path()
                    + "/"@ + client.spec_collection_id() + "?pageSize=100&pageToken="@ + tok@,
                None => "https://firestore.googleapis.com/v1/"@ + client.spec_parent_path()
                    + "/"@ + client.spec_collection_id() + "?pageSize=100"@,
            }),
    {
        if self.done {
            None
        } else {
            match &self.next_page_token {
                Some(tok) => Some(client.list_uri(Some(tok))),
                None => Some(client.list_uri(None)),
            }
        }
    }

    /// Accumulates one fetched page and notes the continuation token; the
    /// run is done exactly when the answer carried none. A document that
    /// does not decode fails the page — the run is left exactly as it was
    /// and the decode error is surfaced.
    pub fn feed_page(&mut self, docs: &Vec<Document>, next_page_token: Option<String>) -> (r:
        Result<(), Error>)
        requires
            old(self).wf(),
            !old(self).spec_done(),
        ensures
            final (self).wf(),
            spec_decode_page::<T>(docs@) matches Ok(page) ==> (r is Ok && final (
            self).spec_pages() == old(self).spec_pages().push(page) && (final (self).spec_done()
                <==> (next_page_token matches Option::<String>::None)) && final (
            self).spec_token() == next_page_token && views_of(final (self).spec_items()) == final (
            self).spec_pages().flatten()),
            spec_decode_page::<T>(docs@) matches Err(de) ==> (r matches Err(e) && (
            e matches Error::Decode(d) && d@ == de) && *final (self) == *old(self)),
    {
        let mut page = match decode_page::<T>(docs) {
            Ok(page) => page,
            Err(e) => {
                return Err(Error::Decode(e));
            },
        };
        let ghost prev_items = self.items@;
        let ghost prev_pages = self.pages@;
        self.items.append(&mut page);
        self.done = match &next_page_token {
            None => true,
            Some(_) => false,
        };
        self.next_page_token = next_page_token;
        proof {
            let page_views = spec_decode_page::<T>(docs@)->Ok_0;
            self.pages@ = prev_pages.push(page_views);
            prev_pages.lemma_flatten_push(page_views);
            assert(views_of(self.items@) =~= views_of(prev_items) + page_views);
        }
        Ok(())
    }

    /// The accumulated items of a finished run: exactly the concatenation
    /// of every page the store returned.
    pub fn into_items(self) -> (r: Vec<T>)
        requires
            self.wf(),
            self.spec_done(),
        ensures
            views_of(r@) == self.spec_pages().flatten(),
    {
        self.items
    }
}

/// The total number of documents across a run of pages.
pub open spec fn total_len<A>(pages: Seq<Seq<A>>) -> nat
    decreases pages.len(),
{
    if pages.len() == 0 {
        0
    } else {
        total_len(pages.drop_last()) + pages.last().len()
    }
}

/// Pagination completeness: the concatenation of the pages holds exactly
/// as many items as the pages held together — every page's items appear,
/// and nothing else does.
pub proof fn lemma_pagination_completeness<A>(pages: Seq<Seq<A>>)
    ensures
        pages.flatten().len() == total_len(pages),
    decreases pages.len(),
{
    if pages.len() == 0 {
        assert(pages.flatten() =~= Seq::<A>::empty());
    } else {
        lemma_pagination_completeness::<A>(pages.drop_last());
        pages.drop_last().lemma_flatten_push(pages.last());
        assert(pages.drop_last().push(pages.last()) =~= pages);
    }
}

} // verus!
