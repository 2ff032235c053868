//! The transaction handle: one optimistic-concurrency unit of work. It
//! accumulates buffered writes, caches reads for repeatable-read semantics,
//! and finalizes exactly once — a second commit or abort is an invalid-state
//! error, never a repeated action.
//!
//! The handle itself never talks to the network: committing yields the one
//! atomic request the transport must send, aborting yields the rollback
//! request. Until [`Transaction::commit_writes`] hands the buffer out,
//! buffered operations have no effect anywhere; after
//! [`Transaction::abort`], the buffer is discarded unsent.

use crate::document::Document;
use crate::errors::Error;
use crate::strmap::StrMap;
use vstd::prelude::*;

verus! {

/// ReadOnly pins a snapshot and rejects writes; ReadWrite buffers them.
#[derive(Clone, Copy, Debug, PartialEq, Eq, Structural)]
pub enum TransactionType {
    ReadOnly,
    ReadWrite,
}

/// One buffered mutation, in the remote protocol's shape.
#[derive(Debug)]
pub enum Write {
    /// Insert-or-replace of the document under its resource name.
    Update { update: Document },
    /// Deletion of the resource name.
    Delete { delete: String },
}

/// The body of the atomic commit request: every buffered write plus the
/// transaction's server-issued token.
#[derive(Debug)]
pub struct CommitRequest {
    pub database: String,
    pub writes: Vec<Write>,
    pub transaction: String,
}

/// The body of the rollback request an abort schedules.
#[derive(Debug)]
pub struct RollbackRequest {
    pub database: String,
    pub transaction: String,
}

/// An open-or-finalized transaction handle.
#[derive(Debug)]
pub struct Transaction {
    database: String,
    transaction_id: String,
    kind: TransactionType,
    read_cache: StrMap<Document>,
    writes: Option<Vec<Write>>,
}

impl Transaction {
    /// Still open: neither committed nor aborted.
    pub closed spec fn is_open(&self) -> bool {
        self.writes is Some
    }

    /// The buffered writes, in the order they were appended.
    pub closed spec fn spec_writes(&self) -> Seq<Write> {
        self.writes->0@
    }

    /// The document this transaction has already read under `name`, if any.
    pub closed spec fn spec_cached(&self, name: Seq<char>) -> Option<Document> {
        self.read_cache.spec_get(name)
    }

    /// Whether a read of `name` must go to the network.
    pub open spec fn spec_needs_fetch(&self, name: Seq<char>) -> bool {
        self.spec_cached(name) is None
    }

    pub closed spec fn spec_kind(&self) -> TransactionType {
        self.kind
    }

    pub closed spec fn spec_id(&self) -> Seq<char> {
        self.transaction_id@
    }

    pub closed spec fn spec_database(&self) -> Seq<char> {
        self.database@
    }

    /// Wraps the server-issued transaction token: open, with an empty write
    /// buffer and an empty read cache.
    pub fn new(database: String, transaction_id: String, kind: TransactionType) -> (r:
        Transaction)
        ensures
            r.is_open(),
            r.spec_writes() == Seq::<Write>::empty(),
            forall|name: Seq<char>| r.spec_cached(name) is None,
            r.spec_kind() == kind,
            r.spec_id() == transaction_id@,
            r.spec_database() == database@,
    {
        let r = Transaction {
            database,
            transaction_id,
            kind,
            read_cache: StrMap::new(),
            writes: Some(Vec::new()),
        };
        proof {
            assert(r.writes->0@ =~= Seq::<Write>::empty());
        }
        r
    }

    pub fn kind(&self) -> (r: TransactionType)
        ensures
            r == self.spec_kind(),
    {
        self.kind
    }

    pub fn transaction_id(&self) -> (r: &String)
        ensures
            r@ == self.spec_id(),
    {
        &self.transaction_id
    }

    /// The cached document for `name`: a hit means a `get` needs no network
    /// read and decodes this very document again (repeatable reads within
    /// the transaction).
    pub fn cached(&self, name: &str) -> (r: Option<&Document>)
        ensures
            match r {
                Some(doc) => self.spec_cached(name@) == Some(*doc),
                None => self.spec_cached(name@) is None,
            },
    {
        self.read_cache.get(name)
    }

    /// Records a fetched document so later reads of `name` are served
    /// locally. Nothing else about the transaction changes; the cache is
    /// never invalidated within the transaction's lifetime.
    pub fn cache_read(&mut self, name: String, doc: Document)
        ensures
            final (self).spec_cached(name@) == Some(doc),
            forall|n2: Seq<char>|
                n2 != name@ ==> final (self).spec_cached(n2) == old(self).spec_cached(n2),
            final (self).is_open() == old(self).is_open(),
            final (self).spec_writes() == old(self).spec_writes(),
            final (self).spec_kind() == old(self).spec_kind(),
            final (self).spec_id() == old(self).spec_id(),
            final (self).spec_database() == old(self).spec_database(),
    {
        self.read_cache.insert(name, doc);
    }

    /// Appends one write to the buffer. Nothing is sent: the write takes
    /// effect only if the transaction later commits. A ReadOnly transaction
    /// rejects writes, and a finalized one rejects further use; in both
    /// cases the handle is unchanged.
    pub fn append_write(&mut self, write: Write) -> (r: Result<(), Error>)
        ensures
            old(self).is_open() && old(self).spec_kind() == TransactionType::ReadWrite ==> (
            r is Ok && final (self).is_open() && final (self).spec_writes() == old(
                self,
            ).spec_writes().push(write)),
            !(old(self).is_open() && old(self).spec_kind() == TransactionType::ReadWrite) ==> (
            r == Err::<(), Error>(Error::InvalidState) && *final (self) == *old(self)),
            final (self).spec_kind() == old(self).spec_kind(),
            final (self).spec_id() == old(self).spec_id(),
            final (self).spec_database() == old(self).spec_database(),
            forall|n2: Seq<char>| final (self).spec_cached(n2) == old(self).spec_cached(n2),
    {
        match self.kind {
            TransactionType::ReadOnly => Err(Error::InvalidState),
            TransactionType::ReadWrite => match &mut self.writes {
                Some(buffer) => {
                    buffer.push(write);
                    Ok(())
                },
                None => Err(Error::InvalidState),
            },
        }
    }

    /// Finalizes by commit: hands out the one atomic request carrying every
    /// buffered write, in order. Only an open transaction commits; a second
    /// commit (or a commit after abort) is an invalid-state error and sends
    /// nothing.
    pub fn commit_writes(&mut self) -> (r: Result<CommitRequest, Error>)
        ensures
            old(self).is_open() ==> (r matches Ok(req) && req.writes@ == old(self).spec_writes()
                && req.database@ == old(self).spec_database() && req.transaction@ == old(
                self,
            ).spec_id() && !final (self).is_open()),
            !old(self).is_open() ==> (r matches Err(e) && e == Error::InvalidState && *final (self)
                == *old(self)),
            final (self).spec_kind() == old(self).spec_kind(),
            final (self).spec_id() == old(self).spec_id(),
            final (self).spec_database() == old(self).spec_database(),
            forall|n2: Seq<char>| final (self).spec_cached(n2) == old(self).spec_cached(n2),
    {
        match self.writes.take() {
            Some(writes) => Ok(
                CommitRequest {
                    database: self.database.clone(),
                    writes,
                    transaction: self.transaction_id.clone(),
                },
            ),
            None => Err(Error::InvalidState),
        }
    }

    /// Finalizes by abort: discards the buffer unsent and hands out the
    /// rollback request the transport should fire off (best effort). A
    /// second abort (or an abort after commit) is an invalid-state error.
    pub fn abort(&mut self) -> (r: Result<RollbackRequest, Error>)
        ensures
            old(self).is_open() ==> (r matches Ok(req) && req.database@ == old(
                self,
            ).spec_database() && req.transaction@ == old(self).spec_id() && !final (
            self).is_open()),
            !old(self).is_open() ==> (r matches Err(e) && e == Error::InvalidState && *final (self)
                == *old(self)),
            final (self).spec_kind() == old(self).spec_kind(),
            final (self).spec_id() == old(self).spec_id(),
            final (self).spec_database() == old(self).spec_database(),
            forall|n2: Seq<char>| final (self).spec_cached(n2) == old(self).spec_cached(n2),
    {
        match self.writes.take() {
            Some(_) => Ok(
                RollbackRequest {
                    database: self.database.clone(),
                    transaction: self.transaction_id.clone(),
                },
            ),
            None => Err(Error::InvalidState),
        }
    }

    /// The rollback request an implicit cleanup should send when a handle
    /// is discarded while still open; `None` once finalized. Unlike
    /// [`Transaction::abort`] this does not change the handle: the caller is
    /// dropping it.
    pub fn rollback_request_if_open(&self) -> (r: Option<RollbackRequest>)
        ensures
            r is Some <==> self.is_open(),
            r matches Some(req) ==> req.database@ == self.spec_database() && req.transaction@
                == self.spec_id(),
    {
        match &self.writes {
            Some(_) => Some(
                RollbackRequest {
                    database: self.database.clone(),
                    transaction: self.transaction_id.clone(),
                },
            ),
            None => None,
        }
    }
}

} // verus!
