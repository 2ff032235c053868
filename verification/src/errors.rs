//! Error taxonomy of the storage layer: transport and authentication
//! failures, create conflicts, commit contention (the one retryable kind),
//! decode faults, and invalid use of a finalized transaction.

use vstd::prelude::*;

verus! {

/// The document field tags, for naming what a decoder expected.
#[derive(Clone, Copy, Debug, PartialEq, Eq, Structural)]
pub enum FieldKind {
    NullValue,
    ArrayValue,
    DoubleValue,
    IntegerValue,
    MapValue,
    StringValue,
    TimestampValue,
}

/// Why one field's value was rejected.
#[derive(Clone, Debug, PartialEq, Eq)]
pub enum FieldError {
    /// The field is present but carries the wrong tag.
    WrongKind { expected: FieldKind },
    /// An integer field whose decimal string does not parse into the
    /// requested range.
    BadInteger,
    /// A string field that should hold an id but is not canonical uuid text.
    BadId,
    /// A map value that carries no field mapping at all.
    EmptyMap,
    /// An array value that carries no element list at all.
    EmptyArray,
    /// A required entry of a map value is absent.
    MissingEntry { entry: String },
    /// An entry of a map value carries the wrong tag.
    EntryWrongKind { entry: String, expected: FieldKind },
    /// An integer entry of a map value that does not parse into range.
    EntryBadInteger { entry: String },
}

/// The mathematical shape of a [`FieldError`], with entry names as character
/// sequences.
pub enum FieldErrorV {
    WrongKind { expected: FieldKind },
    BadInteger,
    BadId,
    EmptyMap,
    EmptyArray,
    MissingEntry { entry: Seq<char> },
    EntryWrongKind { entry: Seq<char>, expected: FieldKind },
    EntryBadInteger { entry: Seq<char> },
}

impl View for FieldError {
    type V = FieldErrorV;

    open spec fn view(&self) -> FieldErrorV {
        match self {
            FieldError::WrongKind { expected } => FieldErrorV::WrongKind { expected: *expected },
            FieldError::BadInteger => FieldErrorV::BadInteger,
            FieldError::BadId => FieldErrorV::BadId,
            FieldError::EmptyMap => FieldErrorV::EmptyMap,
            FieldError::EmptyArray => FieldErrorV::EmptyArray,
            FieldError::MissingEntry { entry } => FieldErrorV::MissingEntry { entry: entry@ },
            FieldError::EntryWrongKind { entry, expected } => FieldErrorV::EntryWrongKind {
                entry: entry@,
                expected: *expected,
            },
            FieldError::EntryBadInteger { entry } => FieldErrorV::EntryBadInteger {
                entry: entry@,
            },
        }
    }
}

/// Why a document did not decode into the requested type.
#[derive(Clone, Debug, PartialEq, Eq)]
pub enum DecodeError {
    /// The resource name's trailing segment is not an id.
    InvalidId,
    /// A required field is absent.
    MissingField { field: String },
    /// A field is present but its value was rejected.
    Field { field: String, error: FieldError },
}

/// The mathematical shape of a [`DecodeError`], with field names as
/// character sequences.
pub enum DecodeErrorV {
    InvalidId,
    MissingField { field: Seq<char> },
    Field { field: Seq<char>, error: FieldErrorV },
}

impl View for DecodeError {
    type V = DecodeErrorV;

    open spec fn view(&self) -> DecodeErrorV {
        match self {
            DecodeError::InvalidId => DecodeErrorV::InvalidId,
            DecodeError::MissingField { field } => DecodeErrorV::MissingField { field: field@ },
            DecodeError::Field { field, error } => DecodeErrorV::Field {
                field: field@,
                error: error@,
            },
        }
    }
}

/// The storage layer's error kinds. `Transaction` marks commit contention
/// and is the only retryable kind; not-found is never an error but an absent
/// value.
#[derive(Clone, Debug, PartialEq, Eq)]
pub enum Error {
    /// The endpoint could not be reached or the connection failed.
    Transport(String),
    /// The credential was unusable or the token exchange was rejected.
    Auth(String),
    /// A create hit an id that already exists.
    Conflict(String),
    /// The store rejected a commit under optimistic-concurrency contention;
    /// retryable.
    Transaction(String),
    /// A fetched document does not match the expected shape.
    Decode(DecodeError),
    /// A finalized transaction was used again.
    InvalidState,
    /// Any other non-success answer from the store.
    Other(String),
}

impl Error {
    /// Only contention is worth retrying: every other kind would fail the
    /// same way again.
    pub fn is_retryable(&self) -> (r: bool)
        ensures
            r == (self is Transaction),
    {
        match self {
            Error::Transaction(_) => true,
            _ => false,
        }
    }
}

pub type StorageResult<T> = Result<T, Error>;

} // verus!
