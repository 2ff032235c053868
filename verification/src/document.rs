//! The wire-level record of the remote store: a resource name plus a mapping
//! from field name to tagged value. Two quirks of the protocol live here:
//! integers travel as decimal strings, and a double with an integral value
//! may come back as an integer field, which `extract_double` coerces.

use crate::double::{double_bits_from_i32, double_bits_of_int, DoubleBits};
use crate::errors::{DecodeError, FieldError, FieldKind};
use crate::id::Id;
use crate::strmap::StrMap;
use crate::text::{dec_value, is_uuid_text, last_segment, trailing_segment};
use crate::timestamp::Timestamp;
use vstd::prelude::*;

verus! {

/// A closed tagged union of the field values the application uses.
#[derive(Debug)]
pub enum DocumentField {
    NullValue,
    ArrayValue(DocumentArrayValue),
    DoubleValue(DoubleBits),
    IntegerValue(String),
    MapValue(DocumentMapValue),
    StringValue(String),
    TimestampValue(Timestamp),
}

#[derive(Debug)]
pub struct DocumentArrayValue {
    pub values: Option<Vec<DocumentField>>,
}

#[derive(Debug)]
pub struct DocumentMapValue {
    pub fields: Option<StrMap<DocumentField>>,
}

/// The wire-level record: a server-assigned resource name and the fields.
#[derive(Debug)]
pub struct Document {
    pub name: String,
    pub fields: StrMap<DocumentField>,
    pub create_time: String,
    pub update_time: String,
}

/// What reading a string out of a field yields.
pub open spec fn spec_extract_string(f: DocumentField) -> Result<String, FieldError> {
    match f {
        DocumentField::StringValue(s) => Ok(s),
        _ => Err(FieldError::WrongKind { expected: FieldKind::StringValue }),
    }
}

/// What reading an integer out of a field yields: the decimal-string wire
/// convention, within `i64` range.
pub open spec fn spec_extract_integer(f: DocumentField) -> Result<i64, FieldError> {
    match f {
        DocumentField::IntegerValue(s) => match dec_value(s@) {
            Some(v) => if i64::MIN <= v <= i64::MAX {
                Ok(v as i64)
            } else {
                Err(FieldError::BadInteger)
            },
            None => Err(FieldError::BadInteger),
        },
        _ => Err(FieldError::WrongKind { expected: FieldKind::IntegerValue }),
    }
}

/// What reading a double out of a field yields: either the stored bit
/// pattern, or — when the store collapsed an integral double into an integer
/// field — the double bits of that integer (read as `i32`, as the
/// application's value range allows).
pub open spec fn spec_extract_double(f: DocumentField) -> Result<DoubleBits, FieldError> {
    match f {
        DocumentField::DoubleValue(b) => Ok(b),
        DocumentField::IntegerValue(s) => match dec_value(s@) {
            Some(v) => if i32::MIN <= v <= i32::MAX {
                Ok(DoubleBits { bits: double_bits_of_int(v) as u64 })
            } else {
                Err(FieldError::BadInteger)
            },
            None => Err(FieldError::BadInteger),
        },
        _ => Err(FieldError::WrongKind { expected: FieldKind::DoubleValue }),
    }
}

/// What reading a timestamp out of a field yields.
pub open spec fn spec_extract_timestamp(f: DocumentField) -> Result<Timestamp, FieldError> {
    match f {
        DocumentField::TimestampValue(t) => Ok(t),
        _ => Err(FieldError::WrongKind { expected: FieldKind::TimestampValue }),
    }
}

impl DocumentField {
    pub fn extract_string(&self) -> (r: Result<String, FieldError>)
        ensures
            r == spec_extract_string(*self),
    {
        match self {
            DocumentField::StringValue(s) => Ok(s.clone()),
            _ => Err(FieldError::WrongKind { expected: FieldKind::StringValue }),
        }
    }

    pub fn extract_integer(&self) -> (r: Result<i64, FieldError>)
        ensures
            r == spec_extract_integer(*self),
    {
        match self {
            DocumentField::IntegerValue(s) => match crate::text::parse_i64_dec(s.as_str()) {
                Some(v) => Ok(v),
                None => Err(FieldError::BadInteger),
            },
            _ => Err(FieldError::WrongKind { expected: FieldKind::IntegerValue }),
        }
    }

    pub fn extract_double(&self) -> (r: Result<DoubleBits, FieldError>)
        ensures
            r == spec_extract_double(*self),
    {
        match self {
            DocumentField::DoubleValue(b) => Ok(*b),
            DocumentField::IntegerValue(s) => match crate::text::parse_i32_dec(s.as_str()) {
                Some(v) => Ok(double_bits_from_i32(v)),
                None => Err(FieldError::BadInteger),
            },
            _ => Err(FieldError::WrongKind { expected: FieldKind::DoubleValue }),
        }
    }

    pub fn extract_timestamp(&self) -> (r: Result<Timestamp, FieldError>)
        ensures
            r == spec_extract_timestamp(*self),
    {
        match self {
            DocumentField::TimestampValue(t) => Ok(*t),
            _ => Err(FieldError::WrongKind { expected: FieldKind::TimestampValue }),
        }
    }
}

impl Document {
    /// A fresh record with the given fields; the resource name is assigned
    /// by the server (or by the writer when buffering a replace).
    pub fn new(fields: StrMap<DocumentField>) -> (d: Document)
        ensures
            d.fields == fields,
            d.name@ == Seq::<char>::empty(),
    {
        Document { name: String::new(), fields, create_time: String::new(), update_time: String::new() }
    }

    /// The id is the trailing segment of the resource name.
    pub fn extract_id(&self) -> (r: Result<Id, DecodeError>)
        ensures
            r is Ok <==> is_uuid_text(last_segment(self.name@)),
            r matches Ok(id) ==> id@ == last_segment(self.name@) && id.wf(),
            r is Err ==> r == Err::<Id, DecodeError>(DecodeError::InvalidId),
    {
        let seg = trailing_segment(self.name.as_str());
        match Id::parse(seg.as_str()) {
            Some(id) => Ok(id),
            None => Err(DecodeError::InvalidId),
        }
    }

    pub fn extract_string(&self, field_name: &str) -> (r: Result<String, DecodeError>)
        ensures
            match self.fields.spec_get(field_name@) {
                Some(f) => match spec_extract_string(f) {
                    Ok(s) => r == Ok::<String, DecodeError>(s),
                    Err(e) => r matches Err(DecodeError::Field { field, error }) && field@
                        == field_name@ && error == e,
                },
                None => r matches Err(DecodeError::MissingField { field }) && field@
                    == field_name@,
            },
    {
        match self.fields.get(field_name) {
            Some(f) => match f.extract_string() {
                Ok(s) => Ok(s),
                Err(e) => Err(DecodeError::Field { field: field_name.to_owned(), error: e }),
            },
            None => Err(DecodeError::MissingField { field: field_name.to_owned() }),
        }
    }

    pub fn extract_integer(&self, field_name: &str) -> (r: Result<i64, DecodeError>)
        ensures
            match self.fields.spec_get(field_name@) {
                Some(f) => match spec_extract_integer(f) {
                    Ok(v) => r == Ok::<i64, DecodeError>(v),
                    Err(e) => r matches Err(DecodeError::Field { field, error }) && field@
                        == field_name@ && error == e,
                },
                None => r matches Err(DecodeError::MissingField { field }) && field@
                    == field_name@,
            },
    {
        match self.fields.get(field_name) {
            Some(f) => match f.extract_integer() {
                Ok(v) => Ok(v),
                Err(e) => Err(DecodeError::Field { field: field_name.to_owned(), error: e }),
            },
            None => Err(DecodeError::MissingField { field: field_name.to_owned() }),
        }
    }

    pub fn extract_double(&self, field_name: &str) -> (r: Result<DoubleBits, DecodeError>)
        ensures
            match self.fields.spec_get(field_name@) {
                Some(f) => match spec_extract_double(f) {
                    Ok(b) => r == Ok::<DoubleBits, DecodeError>(b),
                    Err(e) => r matches Err(DecodeError::Field { field, error }) && field@
                        == field_name@ && error == e,
                },
                None => r matches Err(DecodeError::MissingField { field }) && field@
                    == field_name@,
            },
    {
        match self.fields.get(field_name) {
            Some(f) => match f.extract_double() {
                Ok(b) => Ok(b),
                Err(e) => Err(DecodeError::Field { field: field_name.to_owned(), error: e }),
            },
            None => Err(DecodeError::MissingField { field: field_name.to_owned() }),
        }
    }

    pub fn extract_timestamp(&self, field_name: &str) -> (r: Result<Timestamp, DecodeError>)
        ensures
            match self.fields.spec_get(field_name@) {
                Some(f) => match spec_extract_timestamp(f) {
                    Ok(t) => r == Ok::<Timestamp, DecodeError>(t),
                    Err(e) => r matches Err(DecodeError::Field { field, error }) && field@
                        == field_name@ && error == e,
                },
                None => r matches Err(DecodeError::MissingField { field }) && field@
                    == field_name@,
            },
    {
        match self.fields.get(field_name) {
            Some(f) => match f.extract_timestamp() {
                Ok(t) => Ok(t),
                Err(e) => Err(DecodeError::Field { field: field_name.to_owned(), error: e }),
            },
            None => Err(DecodeError::MissingField { field: field_name.to_owned() }),
        }
    }
}

} // verus!
