//! The typed document codec: every entity type maps to and from the wire
//! record, and the mapping is pinned at the level of views. Encoding leaves
//! the resource name empty (the writer fills it in); under any name whose
//! trailing segment is the value's id, the encoded document decodes back to
//! the value it came from.

use crate::document::{
    spec_extract_integer, spec_extract_string, spec_extract_timestamp, Document,
};
use crate::errors::{DecodeError, DecodeErrorV, FieldErrorV};
use crate::text::{is_uuid_text, last_segment};
use crate::timestamp::Timestamp;
use vstd::prelude::*;

verus! {

/// The same record under another resource name.
pub open spec fn spec_named(d: Document, name: String) -> Document {
    Document { name: name, ..d }
}

/// The views of a sequence of values, elementwise.
pub open spec fn views_of<T: View>(s: Seq<T>) -> Seq<T::V> {
    Seq::new(s.len(), |i: int| s[i]@)
}

/// Reading a required string field out of a document.
pub open spec fn spec_string_field(doc: Document, field: Seq<char>) -> Result<
    Seq<char>,
    DecodeErrorV,
> {
    match doc.fields.spec_get(field) {
        None => Err(DecodeErrorV::MissingField { field }),
        Some(f) => match spec_extract_string(f) {
            Ok(s) => Ok(s@),
            Err(e) => Err(DecodeErrorV::Field { field, error: e@ }),
        },
    }
}

/// Reading a required integer field (the decimal-string wire convention).
pub open spec fn spec_integer_field(doc: Document, field: Seq<char>) -> Result<
    i64,
    DecodeErrorV,
> {
    match doc.fields.spec_get(field) {
        None => Err(DecodeErrorV::MissingField { field }),
        Some(f) => match spec_extract_integer(f) {
            Ok(v) => Ok(v),
            Err(e) => Err(DecodeErrorV::Field { field, error: e@ }),
        },
    }
}

/// Reading a required integer field that must fit a `u32`.
pub open spec fn spec_u32_field(doc: Document, field: Seq<char>) -> Result<u32, DecodeErrorV> {
    match spec_integer_field(doc, field) {
        Ok(v) => if 0 <= v <= u32::MAX {
            Ok(v as u32)
        } else {
            Err(DecodeErrorV::Field { field, error: FieldErrorV::BadInteger })
        },
        Err(e) => Err(e),
    }
}

/// Reading a required timestamp field.
pub open spec fn spec_timestamp_field(doc: Document, field: Seq<char>) -> Result<
    Timestamp,
    DecodeErrorV,
> {
    match doc.fields.spec_get(field) {
        None => Err(DecodeErrorV::MissingField { field }),
        Some(f) => match spec_extract_timestamp(f) {
            Ok(t) => Ok(t),
            Err(e) => Err(DecodeErrorV::Field { field, error: e@ }),
        },
    }
}

/// Reading a required string field that must hold canonical id text.
pub open spec fn spec_id_field(doc: Document, field: Seq<char>) -> Result<
    Seq<char>,
    DecodeErrorV,
> {
    match spec_string_field(doc, field) {
        Ok(s) => if is_uuid_text(s) {
            Ok(s)
        } else {
            Err(DecodeErrorV::Field { field, error: FieldErrorV::BadId })
        },
        Err(e) => Err(e),
    }
}

/// A typed value's bidirectional mapping to the wire record. Contracts are
/// stated over views: the decoder is a function of the document, and an
/// encoded value decodes back to itself once the writer names it.
pub trait DocumentCodec: View + Sized {
    /// The decoder, as a function of the wire record.
    spec fn spec_decode(doc: Document) -> Result<Self::V, DecodeErrorV>;

    /// The id text this value is stored under.
    spec fn spec_id(&self) -> Seq<char>;

    /// Decodes a fetched document.
    fn from_document(doc: &Document) -> (r: Result<Self, DecodeError>)
        ensures
            r is Ok <==> Self::spec_decode(*doc) is Ok,
            r matches Ok(v) ==> Self::spec_decode(*doc) == Ok::<Self::V, DecodeErrorV>(v@),
            r matches Err(e) ==> Self::spec_decode(*doc) == Err::<Self::V, DecodeErrorV>(e@),
    ;

    /// Encodes the value for a write, leaving the resource name empty.
    fn to_document(&self) -> (d: Document)
        ensures
            d.name@ == Seq::<char>::empty(),
            forall|n: String|
                is_uuid_text(last_segment(n@)) && last_segment(n@) == self.spec_id()
                    ==> #[trigger] Self::spec_decode(spec_named(d, n)) == Ok::<
                    Self::V,
                    DecodeErrorV,
                >(self@),
    ;
}

} // verus!
