//! The collection-scoped client: resource-path composition, the request
//! targets of every operation, and the classification of the store's
//! answers. The unverified transport only moves bytes; which request goes
//! where, what is buffered, and what each answer means is pinned here.

use crate::codec::{spec_named, DocumentCodec};
use crate::document::Document;
use crate::errors::{DecodeErrorV, Error};
use crate::id::Id;
use crate::text::{is_uuid_text, last_segment, lemma_last_segment_of_join, lemma_uuid_text_slash_free};
use crate::timestamp::Timestamp;
use crate::transaction::{CommitRequest, RollbackRequest, Transaction, TransactionType, Write};
use vstd::prelude::*;

verus! {

/// What `percent_encoding` makes of a string under its non-alphanumeric
/// set; a function of the characters alone.
pub uninterp spec fn pct_encoded_non_alnum(s: Seq<char>) -> Seq<char>;

/// Relies on percent_encoding::utf8_percent_encode with NON_ALPHANUMERIC:
/// deterministic in its input, and an empty input encodes to an empty
/// string.
#[verifier::external_body]
fn percent_encode_non_alnum(s: &str) -> (r: String)
    ensures
        r@ == pct_encoded_non_alnum(s@),
        s@.len() == 0 ==> r@.len() == 0,
{
    percent_encoding::utf8_percent_encode(s, percent_encoding::NON_ALPHANUMERIC).to_string()
}

/// A handle on one collection (or sub-collection): the parent path, the
/// collection id, and the owning project.
#[derive(Debug)]
pub struct FirestoreClient {
    project_id: String,
    parent_path: String,
    collection_id: String,
}

impl FirestoreClient {
    pub closed spec fn spec_project_id(&self) -> Seq<char> {
        self.project_id@
    }

    pub closed spec fn spec_parent_path(&self) -> Seq<char> {
        self.parent_path@
    }

    pub closed spec fn spec_collection_id(&self) -> Seq<char> {
        self.collection_id@
    }

    /// The absolute resource name of the document `id` in this collection.
    pub open spec fn spec_doc_name(&self, id: Seq<char>) -> Seq<char> {
        self.spec_parent_path() + "/"@ + self.spec_collection_id() + "/"@ + id
    }

    /// The database's document root, the scope transactions live under.
    pub open spec fn spec_database_documents(&self) -> Seq<char> {
        "projects/"@ + self.spec_project_id() + "/databases/(default)/documents"@
    }

    /// A client for a top-level collection, or for a collection under an
    /// explicit parent path relative to the document root.
    pub fn new(project_id: &str, collection_parent_path: Option<&str>, collection_id: String) -> (r:
        FirestoreClient)
        ensures
            r.spec_project_id() == project_id@,
            r.spec_collection_id() == collection_id@,
            match collection_parent_path {
                Some(p) => r.spec_parent_path() == "projects/"@ + project_id@
                    + "/databases/(default)/documents/"@ + p@,
                None => r.spec_parent_path() == "projects/"@ + project_id@
                    + "/databases/(default)/documents"@,
            },
    {
        let parent_path = match collection_parent_path {
            Some(p) => "projects/".to_owned().concat(project_id).concat(
                "/databases/(default)/documents/",
            ).concat(p),
            None => "projects/".to_owned().concat(project_id).concat(
                "/databases/(default)/documents",
            ),
        };
        FirestoreClient { project_id: project_id.to_owned(), parent_path, collection_id }
    }

    /// A client for a sub-collection of one document of this client's
    /// collection: the parent path is extended by the collection id and the
    /// relative path (`<document-id>` of the owning document).
    pub fn new_for_subcollection(
        firestore_client: &FirestoreClient,
        subcollection_relative_path: String,
        subcollection_id: String,
    ) -> (r: FirestoreClient)
        ensures
            r.spec_project_id() == firestore_client.spec_project_id(),
            r.spec_parent_path() == firestore_client.spec_parent_path() + "/"@
                + firestore_client.spec_collection_id() + "/"@ + subcollection_relative_path@,
            r.spec_collection_id() == subcollection_id@,
    {
        let parent_path = firestore_client.parent_path.clone().concat("/").concat(
            firestore_client.collection_id.as_str(),
        ).concat("/").concat(subcollection_relative_path.as_str());
        FirestoreClient {
            project_id: firestore_client.project_id.clone(),
            parent_path,
            collection_id: subcollection_id,
        }
    }

    /// Builds the absolute resource name of `id` in this collection.
    pub fn doc_name(&self, id: &Id) -> (r: String)
        ensures
            r@ == self.spec_doc_name(id@),
            last_segment(r@) == id@,
            is_uuid_text(last_segment(r@)),
    {
        let r = self.parent_path.clone().concat("/").concat(self.collection_id.as_str()).concat(
            "/",
        ).concat(id.as_str());
        proof {
            reveal_strlit("/");
            assert("/"@ =~= seq!['/']);
            lemma_uuid_text_slash_free(id@);
            lemma_last_segment_of_join(
                self.spec_parent_path() + "/"@ + self.spec_collection_id(),
                id@,
            );
            assert(r@ =~= (self.spec_parent_path() + "/"@ + self.spec_collection_id()) + seq![
                '/',
            ] + id@);
        }
        r
    }

    /// The request target for reading or mutating one document directly.
    pub fn document_uri(&self, name: &str) -> (r: String)
        ensures
            r@ == "https://firestore.googleapis.com/v1/"@ + name@,
    {
        "https://firestore.googleapis.com/v1/".to_owned().concat(name)
    }

    /// The request target for a `get`, pinned to the transaction's snapshot
    /// when one is given.
    pub fn get_uri(&self, name: &str, transaction: Option<&Transaction>) -> (r: String)
        ensures
            match transaction {
                None => r@ == "https://firestore.googleapis.com/v1/"@ + name@,
                Some(t) => r@ == "https://firestore.googleapis.com/v1/"@ + name@
                    + "?transaction="@ + pct_encoded_non_alnum(t.spec_id()),
            },
    {
        match transaction {
            None => self.document_uri(name),
            Some(t) => self.document_uri(name).concat("?transaction=").concat(
                percent_encode_non_alnum(t.transaction_id().as_str()).as_str(),
            ),
        }
    }

    /// The request target of one `list` page: the page-size bound, plus the
    /// continuation token after the first page.
    pub fn list_uri(&self, page_token: Option<&String>) -> (r: String)
        ensures
            match page_token {
                None => r@ == "https://firestore.googleapis.com/v1/"@ + self.spec_parent_path()
                    + "/"@ + self.spec_collection_id() + "?pageSize=100"@,
                Some(tok) => r@ == "https://firestore.googleapis.com/v1/"@
                    + self.spec_parent_path() + "/"@ + self.spec_collection_id()
                    + "?pageSize=100&pageToken="@ + tok@,
            },
    {
        let base = "https://firestore.googleapis.com/v1/".to_owned().concat(
            self.parent_path.as_str(),
        ).concat("/").concat(self.collection_id.as_str());
        match page_token {
            None => base.concat("?pageSize=100"),
            Some(tok) => base.concat("?pageSize=100&pageToken=").concat(tok.as_str()),
        }
    }

    /// The request target of a create: the collection plus an explicit
    /// document id, so an existing id is a conflict, not a replace.
    pub fn create_uri(&self, id: &Id) -> (r: String)
        ensures
            r@ == "https://firestore.googleapis.com/v1/"@ + self.spec_parent_path() + "/"@
                + self.spec_collection_id() + "?documentId="@ + id@,
    {
        "https://firestore.googleapis.com/v1/".to_owned().concat(self.parent_path.as_str()).concat(
            "/",
        ).concat(self.collection_id.as_str()).concat("?documentId=").concat(id.as_str())
    }

    /// The request target for opening a transaction.
    pub fn begin_transaction_uri(&self) -> (r: String)
        ensures
            r@ == "https://firestore.googleapis.com/v1/"@ + self.spec_database_documents()
                + ":beginTransaction"@,
    {
        "https://firestore.googleapis.com/v1/".to_owned().concat("projects/").concat(
            self.project_id.as_str(),
        ).concat("/databases/(default)/documents").concat(":beginTransaction")
    }

    /// The request target for a batch read.
    pub fn batch_get_uri(&self) -> (r: String)
        ensures
            r@ == "https://firestore.googleapis.com/v1/"@ + self.spec_database_documents()
                + ":batchGet"@,
    {
        "https://firestore.googleapis.com/v1/".to_owned().concat("projects/").concat(
            self.project_id.as_str(),
        ).concat("/databases/(default)/documents").concat(":batchGet")
    }

    /// Wraps a server-issued transaction token into a fresh open handle
    /// scoped to this client's database.
    pub fn make_transaction(&self, transaction_id: String, kind: TransactionType) -> (r:
        Transaction)
        ensures
            r.is_open(),
            r.spec_writes() == Seq::<Write>::empty(),
            forall|name: Seq<char>| r.spec_cached(name) is None,
            r.spec_kind() == kind,
            r.spec_id() == transaction_id@,
            r.spec_database() == self.spec_database_documents(),
    {
        let database = "projects/".to_owned().concat(self.project_id.as_str()).concat(
            "/databases/(default)/documents",
        );
        Transaction::new(database, transaction_id, kind)
    }

    /// Where a `get` must go: `None` when the transaction's read cache
    /// already holds the document (no network read), otherwise the pinned
    /// or plain fetch target.
    pub fn plan_get(&self, id: &Id, transaction: Option<&Transaction>) -> (r: Option<String>)
        ensures
            r is None <==> (transaction matches Some(t) && t.spec_cached(self.spec_doc_name(id@))
                is Some),
            r matches Some(uri) ==> match transaction {
                None => uri@ == "https://firestore.googleapis.com/v1/"@ + self.spec_doc_name(id@),
                Some(t) => uri@ == "https://firestore.googleapis.com/v1/"@ + self.spec_doc_name(
                    id@,
                ) + "?transaction="@ + pct_encoded_non_alnum(t.spec_id()),
            },
    {
        let name = self.doc_name(id);
        match transaction {
            Some(t) => {
                if t.cached(name.as_str()).is_some() {
                    None
                } else {
                    Some(self.get_uri(name.as_str(), Some(t)))
                }
            },
            None => Some(self.get_uri(name.as_str(), None)),
        }
    }

    /// Buffers an insert-or-replace in the transaction: the encoded document
    /// under its fully-qualified path, applied remotely only at commit. The
    /// buffered document decodes back to the given value whenever the id
    /// matches the value's own id.
    pub fn buffer_upsert<T: DocumentCodec>(&self, t: &mut Transaction, id: &Id, value: &T) -> (r:
        Result<(), Error>)
        ensures
            old(t).is_open() && old(t).spec_kind() == TransactionType::ReadWrite ==> (r is Ok
                && final (t).spec_writes().len() == old(t).spec_writes().len() + 1 && final (
            t).spec_writes() == old(t).spec_writes().push(final (t).spec_writes().last()) && (
            final (t).spec_writes().last() matches Write::Update { update } && update.name@
                == self.spec_doc_name(id@) && (id@ == value.spec_id() ==> T::spec_decode(update)
                == Ok::<T::V, DecodeErrorV>(value@)))),
            !(old(t).is_open() && old(t).spec_kind() == TransactionType::ReadWrite) ==> (r == Err::<
                (),
                Error,
            >(Error::InvalidState) && *final (t) == *old(t)),
            final (t).is_open() == old(t).is_open(),
            final (t).spec_kind() == old(t).spec_kind(),
            final (t).spec_id() == old(t).spec_id(),
            final (t).spec_database() == old(t).spec_database(),
            forall|n2: Seq<char>| final (t).spec_cached(n2) == old(t).spec_cached(n2),
    {
        let mut doc = value.to_document();
        let ghost bare = doc;
        let name = self.doc_name(id);
        let ghost gname = name;
        doc.name = name;
        let ghost gdoc = doc;
        let r = t.append_write(Write::Update { update: doc });
        proof {
            if old(t).is_open() && old(t).spec_kind() == TransactionType::ReadWrite {
                assert(t.spec_writes().last() == Write::Update { update: gdoc });
                if id@ == value.spec_id() {
                    assert(T::spec_decode(spec_named(bare, gname)) == Ok::<T::V, DecodeErrorV>(
                        value@,
                    ));
                    assert(spec_named(bare, gname) == gdoc);
                }
            }
        }
        r
    }

    /// Buffers a delete of the fully-qualified path in the transaction;
    /// applied remotely only at commit.
    pub fn buffer_delete(&self, t: &mut Transaction, id: &Id) -> (r: Result<(), Error>)
        ensures
            old(t).is_open() && old(t).spec_kind() == TransactionType::ReadWrite ==> (r is Ok
                && final (t).spec_writes() == old(t).spec_writes().push(
                final (t).spec_writes().last(),
            ) && (final (t).spec_writes().last() matches Write::Delete { delete } && delete@
                == self.spec_doc_name(id@))),
            !(old(t).is_open() && old(t).spec_kind() == TransactionType::ReadWrite) ==> (r == Err::<
                (),
                Error,
            >(Error::InvalidState) && *final (t) == *old(t)),
            final (t).is_open() == old(t).is_open(),
            final (t).spec_kind() == old(t).spec_kind(),
            final (t).spec_id() == old(t).spec_id(),
            final (t).spec_database() == old(t).spec_database(),
            forall|n2: Seq<char>| final (t).spec_cached(n2) == old(t).spec_cached(n2),
    {
        let name = self.doc_name(id);
        t.append_write(Write::Delete { delete: name })
    }

    /// The request of a direct (non-transactional) insert-or-replace: a
    /// replace of the fully-qualified path carrying the encoded value.
    pub fn patch_request<T: DocumentCodec>(&self, id: &Id, value: &T) -> (r: (String, Document))
        ensures
            r.0@ == "https://firestore.googleapis.com/v1/"@ + self.spec_doc_name(id@),
            r.1.name@ == Seq::<char>::empty(),
            forall|n: String|
                is_uuid_text(last_segment(n@)) && last_segment(n@) == value.spec_id()
                    ==> #[trigger] T::spec_decode(spec_named(r.1, n)) == Ok::<
                    T::V,
                    DecodeErrorV,
                >(value@),
    {
        let name = self.doc_name(id);
        let uri = self.document_uri(name.as_str());
        (uri, value.to_document())
    }

    /// The request of a create: the collection target naming the id, and
    /// the encoded value.
    pub fn create_request<T: DocumentCodec>(&self, id: &Id, value: &T) -> (r: (String, Document))
        ensures
            r.0@ == "https://firestore.googleapis.com/v1/"@ + self.spec_parent_path() + "/"@
                + self.spec_collection_id() + "?documentId="@ + id@,
            r.1.name@ == Seq::<char>::empty(),
            forall|n: String|
                is_uuid_text(last_segment(n@)) && last_segment(n@) == value.spec_id()
                    ==> #[trigger] T::spec_decode(spec_named(r.1, n)) == Ok::<
                    T::V,
                    DecodeErrorV,
                >(value@),
    {
        (self.create_uri(id), value.to_document())
    }
}

/// The request target for committing a transaction.
pub fn commit_uri(req: &CommitRequest) -> (r: String)
    ensures
        r@ == "https://firestore.googleapis.com/v1/"@ + req.database@ + ":commit"@,
{
    "https://firestore.googleapis.com/v1/".to_owned().concat(req.database.as_str()).concat(
        ":commit",
    )
}

/// The request target for rolling a transaction back.
pub fn rollback_uri(req: &RollbackRequest) -> (r: String)
    ensures
        r@ == "https://firestore.googleapis.com/v1/"@ + req.database@ + ":rollback"@,
{
    "https://firestore.googleapis.com/v1/".to_owned().concat(req.database.as_str()).concat(
        ":rollback",
    )
}

/// The bearer header value for a token.
pub fn bearer_value(token: &str) -> (r: String)
    ensures
        r@ == "Bearer "@ + token@,
{
    "Bearer ".to_owned().concat(token)
}

/// The options a `begin` sends: ReadOnly pins the snapshot read time
/// (truncated to microseconds, as the wire carries it), ReadWrite opens a
/// write transaction.
#[derive(Debug)]
pub enum TransactionOptions {
    ReadOnly { read_time: Timestamp },
    ReadWrite,
}

pub fn begin_transaction_options(kind: TransactionType, now: Timestamp) -> (r: TransactionOptions)
    ensures
        kind == TransactionType::ReadOnly ==> r == (TransactionOptions::ReadOnly {
            read_time: Timestamp { seconds: now.seconds, nanos: (now.nanos - now.nanos % 1000) as u32 },
        }),
        kind == TransactionType::ReadWrite ==> r == TransactionOptions::ReadWrite,
{
    match kind {
        TransactionType::ReadOnly => TransactionOptions::ReadOnly {
            read_time: Timestamp { seconds: now.seconds, nanos: now.nanos - now.nanos % 1000 },
        },
        TransactionType::ReadWrite => TransactionOptions::ReadWrite,
    }
}

/// How a `get` answer reads.
#[derive(Clone, Copy, Debug, PartialEq, Eq, Structural)]
pub enum GetStatus {
    /// The document came back.
    Found,
    /// Not-found: an absent value, never an error.
    NotFound,
    /// Any other answer.
    Failed,
}

pub fn classify_get_status(status: u16) -> (r: GetStatus)
    ensures
        r == GetStatus::Found <==> status == 200,
        r == GetStatus::NotFound <==> status == 404,
        r == GetStatus::Failed <==> (status != 200 && status != 404),
{
    if status == 200 {
        GetStatus::Found
    } else if status == 404 {
        GetStatus::NotFound
    } else {
        GetStatus::Failed
    }
}

/// What a commit answer means: success, contention (the one retryable
/// error), or a plain failure.
pub fn classify_commit_status(status: u16) -> (r: Result<(), Error>)
    ensures
        r is Ok <==> status == 200,
        status == 409 ==> (r matches Err(e) && e is Transaction),
        status != 200 && status != 409 ==> (r matches Err(e) && e is Other),
{
    if status == 200 {
        Ok(())
    } else if status == 409 {
        Err(Error::Transaction("Document contention, try again later".to_owned()))
    } else {
        Err(Error::Other("Non-success status code in commit".to_owned()))
    }
}

/// What the answer of a plain call (replace, delete, begin, a list page,
/// a batch read) means: success, or a failure with nothing more to
/// distinguish.
pub fn classify_plain_status(status: u16) -> (r: Result<(), Error>)
    ensures
        r is Ok <==> status == 200,
        status != 200 ==> (r matches Err(e) && e is Other),
{
    if status == 200 {
        Ok(())
    } else {
        Err(Error::Other("Non-success status code".to_owned()))
    }
}

/// The error statuses of the remote protocol the create path distinguishes.
#[derive(Clone, Copy, Debug, PartialEq, Eq, Structural)]
pub enum RemoteErrorStatus {
    /// The store aborted the request under contention.
    Aborted,
    /// A document with that id already exists.
    AlreadyExists,
    /// Any other reported status.
    Unrecognized,
}

/// What a create answer means: an existing id is a conflict, contention is
/// retryable, anything else is a plain failure.
pub fn classify_create_response(status: u16, remote: Option<RemoteErrorStatus>) -> (r: Result<
    (),
    Error,
>)
    ensures
        r is Ok <==> status == 200,
        status != 200 ==> match remote {
            Some(RemoteErrorStatus::Aborted) => (r matches Err(e) && e is Transaction),
            Some(RemoteErrorStatus::AlreadyExists) => (r matches Err(e) && e is Conflict),
            _ => (r matches Err(e) && e is Other),
        },
{
    if status == 200 {
        Ok(())
    } else {
        match remote {
            Some(RemoteErrorStatus::Aborted) => Err(
                Error::Transaction("Document contention, try again later".to_owned()),
            ),
            Some(RemoteErrorStatus::AlreadyExists) => Err(
                Error::Conflict("Could not create document as it already exists".to_owned()),
            ),
            _ => Err(Error::Other("Error creating document".to_owned())),
        }
    }
}

/// Decodes a fetched document into the requested type; a mismatch is a
/// data-integrity fault, surfaced, never defaulted.
pub fn decode_fetched<T: DocumentCodec>(doc: &Document) -> (r: Result<T, Error>)
    ensures
        r is Ok <==> T::spec_decode(*doc) is Ok,
        r matches Ok(v) ==> T::spec_decode(*doc) == Ok::<T::V, DecodeErrorV>(v@),
        r matches Err(e) ==> (e matches Error::Decode(de) && T::spec_decode(*doc) == Err::<
            T::V,
            DecodeErrorV,
        >(de@)),
{
    match T::from_document(doc) {
        Ok(v) => Ok(v),
        Err(e) => Err(Error::Decode(e)),
    }
}

/// Completes a fetched `get` under a transaction: records the document in
/// the read cache — so the next read of `name` is served locally — and
/// returns its decode, exactly as a later cache hit would.
pub fn record_and_decode<T: DocumentCodec>(t: &mut Transaction, name: String, doc: Document) -> (r:
    Result<T, Error>)
    ensures
        final (t).spec_cached(name@) == Some(doc),
        forall|n2: Seq<char>|
            n2 != name@ ==> final (t).spec_cached(n2) == old(t).spec_cached(n2),
        final (t).is_open() == old(t).is_open(),
        final (t).spec_writes() == old(t).spec_writes(),
        final (t).spec_kind() == old(t).spec_kind(),
        final (t).spec_id() == old(t).spec_id(),
        final (t).spec_database() == old(t).spec_database(),
        r is Ok <==> T::spec_decode(doc) is Ok,
        r matches Ok(v) ==> T::spec_decode(doc) == Ok::<T::V, DecodeErrorV>(v@),
        r matches Err(e) ==> (e matches Error::Decode(de) && T::spec_decode(doc) == Err::<
            T::V,
            DecodeErrorV,
        >(de@)),
{
    let ghost gdoc = doc;
    t.cache_read(name.clone(), doc);
    match t.cached(name.as_str()) {
        Some(cached) => decode_fetched::<T>(cached),
        None => {
            proof {
                assert(t.spec_cached(name@) == Some(gdoc));
                assert(false);
            }
            Err(Error::InvalidState)
        },
    }
}

/// Read-cache idempotence: once a transaction holds `doc` under `name` —
/// as it does after the first `get` fetched and recorded it — a `get` for
/// the same id plans no fetch ([`FirestoreClient::plan_get`] returns
/// `None`), and the cache serves exactly `doc`, whose decode is a function
/// of `doc` alone: the second `get` issues no network read and returns the
/// value the first one did.
pub proof fn lemma_repeatable_read(t: Transaction, name: Seq<char>, doc: Document)
    requires
        t.spec_cached(name) == Some(doc),
    ensures
        !t.spec_needs_fetch(name),
{
}

/// Serves a `get` from the transaction's read cache: `Some` exactly when
/// the name was already read under this transaction, and then the cached
/// document's decode — the same answer the first read gave.
pub fn get_from_cache<T: DocumentCodec>(t: &Transaction, name: &str) -> (r: Option<
    Result<T, Error>,
>)
    ensures
        r is Some <==> t.spec_cached(name@) is Some,
        r matches Some(res) ==> (t.spec_cached(name@) matches Some(doc) && (match res {
            Ok(v) => T::spec_decode(doc) == Ok::<T::V, DecodeErrorV>(v@),
            Err(e) => (e matches Error::Decode(de) && T::spec_decode(doc) == Err::<
                T::V,
                DecodeErrorV,
            >(de@)),
        })),
    {
    match t.cached(name) {
        Some(doc) => Some(decode_fetched::<T>(doc)),
        None => None,
    }
}

} // verus!
