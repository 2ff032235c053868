//! Stat blocks: the one nested structure the entities use. On the wire a
//! stat block is a map value with three entries; integer stats travel as
//! decimal strings, double stats as doubles (or, collapsed by the store, as
//! integer fields).

use crate::document::{DocumentField, DocumentMapValue};
use crate::double::{double_bits_from_i32, double_bits_of_int, DoubleBits};
use crate::errors::{FieldError, FieldErrorV, FieldKind};
use crate::strmap::StrMap;
use crate::text::{
    dec_value, i64_to_dec_string, int_rep, lemma_dec_value_of_int_rep, parse_i32_dec,
};
use vstd::prelude::*;

verus! {

/// Integer stats.
#[derive(Clone, Copy, Debug, PartialEq, Eq, Structural)]
pub struct StatsI {
    pub physical: i32,
    pub mental: i32,
    pub tactical: i32,
}

/// Double stats, carried as IEEE-754 bit patterns.
#[derive(Clone, Copy, Debug, PartialEq, Eq, Structural)]
pub struct StatsF {
    pub physical: DoubleBits,
    pub mental: DoubleBits,
    pub tactical: DoubleBits,
}

impl View for StatsI {
    type V = StatsI;

    open spec fn view(&self) -> StatsI {
        *self
    }
}

impl View for StatsF {
    type V = StatsF;

    open spec fn view(&self) -> StatsF {
        *self
    }
}

/// Reading one integer entry of a stat-block map.
pub open spec fn spec_stats_entry_i32(m: StrMap<DocumentField>, entry: Seq<char>) -> Result<
    i32,
    FieldErrorV,
> {
    match m.spec_get(entry) {
        None => Err(FieldErrorV::MissingEntry { entry }),
        Some(f) => match f {
            DocumentField::IntegerValue(s) => match dec_value(s@) {
                Some(v) => if i32::MIN <= v <= i32::MAX {
                    Ok(v as i32)
                } else {
                    Err(FieldErrorV::EntryBadInteger { entry })
                },
                None => Err(FieldErrorV::EntryBadInteger { entry }),
            },
            _ => Err(FieldErrorV::EntryWrongKind { entry, expected: FieldKind::IntegerValue }),
        },
    }
}

/// Reading one double entry of a stat-block map, tolerating the store's
/// collapse of an integral double into an integer entry.
pub open spec fn spec_stats_entry_double(m: StrMap<DocumentField>, entry: Seq<char>) -> Result<
    DoubleBits,
    FieldErrorV,
> {
    match m.spec_get(entry) {
        None => Err(FieldErrorV::MissingEntry { entry }),
        Some(f) => match f {
            DocumentField::DoubleValue(b) => Ok(b),
            DocumentField::IntegerValue(s) => match dec_value(s@) {
                Some(v) => if i32::MIN <= v <= i32::MAX {
                    Ok(DoubleBits { bits: double_bits_of_int(v) as u64 })
                } else {
                    Err(FieldErrorV::EntryBadInteger { entry })
                },
                None => Err(FieldErrorV::EntryBadInteger { entry }),
            },
            _ => Err(FieldErrorV::EntryWrongKind { entry, expected: FieldKind::DoubleValue }),
        },
    }
}

/// The integer stat block's decoder.
pub open spec fn spec_decode_stats_i(f: DocumentField) -> Result<StatsI, FieldErrorV> {
    match f {
        DocumentField::MapValue(dmv) => match dmv.fields {
            None => Err(FieldErrorV::EmptyMap),
            Some(m) => match spec_stats_entry_i32(m, "physical"@) {
                Err(e) => Err(e),
                Ok(physical) => match spec_stats_entry_i32(m, "mental"@) {
                    Err(e) => Err(e),
                    Ok(mental) => match spec_stats_entry_i32(m, "tactical"@) {
                        Err(e) => Err(e),
                        Ok(tactical) => Ok(StatsI { physical, mental, tactical }),
                    },
                },
            },
        },
        _ => Err(FieldErrorV::WrongKind { expected: FieldKind::MapValue }),
    }
}

/// The double stat block's decoder.
pub open spec fn spec_decode_stats_f(f: DocumentField) -> Result<StatsF, FieldErrorV> {
    match f {
        DocumentField::MapValue(dmv) => match dmv.fields {
            None => Err(FieldErrorV::EmptyMap),
            Some(m) => match spec_stats_entry_double(m, "physical"@) {
                Err(e) => Err(e),
                Ok(physical) => match spec_stats_entry_double(m, "mental"@) {
                    Err(e) => Err(e),
                    Ok(mental) => match spec_stats_entry_double(m, "tactical"@) {
                        Err(e) => Err(e),
                        Ok(tactical) => Ok(StatsF { physical, mental, tactical }),
                    },
                },
            },
        },
        _ => Err(FieldErrorV::WrongKind { expected: FieldKind::MapValue }),
    }
}

/// Reading a required integer stat block out of a document.
pub open spec fn spec_stats_i_field(doc: crate::document::Document, field: Seq<char>) -> Result<
    StatsI,
    crate::errors::DecodeErrorV,
> {
    match doc.fields.spec_get(field) {
        None => Err(crate::errors::DecodeErrorV::MissingField { field }),
        Some(f) => match spec_decode_stats_i(f) {
            Ok(s) => Ok(s),
            Err(e) => Err(crate::errors::DecodeErrorV::Field { field, error: e }),
        },
    }
}

/// Reading a required double stat block out of a document.
pub open spec fn spec_stats_f_field(doc: crate::document::Document, field: Seq<char>) -> Result<
    StatsF,
    crate::errors::DecodeErrorV,
> {
    match doc.fields.spec_get(field) {
        None => Err(crate::errors::DecodeErrorV::MissingField { field }),
        Some(f) => match spec_decode_stats_f(f) {
            Ok(s) => Ok(s),
            Err(e) => Err(crate::errors::DecodeErrorV::Field { field, error: e }),
        },
    }
}

fn stats_entry_i32(m: &StrMap<DocumentField>, entry: &str) -> (r: Result<i32, FieldError>)
    ensures
        r matches Ok(v) ==> spec_stats_entry_i32(*m, entry@) == Ok::<i32, FieldErrorV>(v),
        r matches Err(e) ==> spec_stats_entry_i32(*m, entry@) == Err::<i32, FieldErrorV>(e@),
{
    match m.get(entry) {
        None => Err(FieldError::MissingEntry { entry: entry.to_owned() }),
        Some(f) => match f {
            DocumentField::IntegerValue(s) => match parse_i32_dec(s.as_str()) {
                Some(v) => Ok(v),
                None => Err(FieldError::EntryBadInteger { entry: entry.to_owned() }),
            },
            _ => Err(
                FieldError::EntryWrongKind {
                    entry: entry.to_owned(),
                    expected: FieldKind::IntegerValue,
                },
            ),
        },
    }
}

fn stats_entry_double(m: &StrMap<DocumentField>, entry: &str) -> (r: Result<DoubleBits, FieldError>)
    ensures
        r matches Ok(b) ==> spec_stats_entry_double(*m, entry@) == Ok::<DoubleBits, FieldErrorV>(b),
        r matches Err(e) ==> spec_stats_entry_double(*m, entry@) == Err::<DoubleBits, FieldErrorV>(
            e@,
        ),
{
    match m.get(entry) {
        None => Err(FieldError::MissingEntry { entry: entry.to_owned() }),
        Some(f) => match f {
            DocumentField::DoubleValue(b) => Ok(*b),
            DocumentField::IntegerValue(s) => match parse_i32_dec(s.as_str()) {
                Some(v) => Ok(double_bits_from_i32(v)),
                None => Err(FieldError::EntryBadInteger { entry: entry.to_owned() }),
            },
            _ => Err(
                FieldError::EntryWrongKind {
                    entry: entry.to_owned(),
                    expected: FieldKind::DoubleValue,
                },
            ),
        },
    }
}

impl StatsI {
    /// Decodes a stat block out of one document field.
    pub fn from_field(f: &DocumentField) -> (r: Result<StatsI, FieldError>)
        ensures
            r matches Ok(v) ==> spec_decode_stats_i(*f) == Ok::<StatsI, FieldErrorV>(v),
            r matches Err(e) ==> spec_decode_stats_i(*f) == Err::<StatsI, FieldErrorV>(e@),
    {
        match f {
            DocumentField::MapValue(dmv) => match &dmv.fields {
                None => Err(FieldError::EmptyMap),
                Some(m) => {
                    let physical = match stats_entry_i32(m, "physical") {
                        Ok(v) => v,
                        Err(e) => {
                            return Err(e);
                        },
                    };
                    let mental = match stats_entry_i32(m, "mental") {
                        Ok(v) => v,
                        Err(e) => {
                            return Err(e);
                        },
                    };
                    let tactical = match stats_entry_i32(m, "tactical") {
                        Ok(v) => v,
                        Err(e) => {
                            return Err(e);
                        },
                    };
                    Ok(StatsI { physical, mental, tactical })
                },
            },
            _ => Err(FieldError::WrongKind { expected: FieldKind::MapValue }),
        }
    }

    /// Encodes the stat block as a map value whose decoder gives it back.
    pub fn to_field(&self) -> (f: DocumentField)
        ensures
            spec_decode_stats_i(f) == Ok::<StatsI, FieldErrorV>(*self),
    {
        let mut m: StrMap<DocumentField> = StrMap::new();
        m.insert(
            "physical".to_owned(),
            DocumentField::IntegerValue(i64_to_dec_string(self.physical as i64)),
        );
        m.insert(
            "mental".to_owned(),
            DocumentField::IntegerValue(i64_to_dec_string(self.mental as i64)),
        );
        m.insert(
            "tactical".to_owned(),
            DocumentField::IntegerValue(i64_to_dec_string(self.tactical as i64)),
        );
        proof {
            reveal_strlit("physical");
            reveal_strlit("mental");
            reveal_strlit("tactical");
            lemma_dec_value_of_int_rep(self.physical as int);
            lemma_dec_value_of_int_rep(self.mental as int);
            lemma_dec_value_of_int_rep(self.tactical as int);
            assert("physical"@.len() == 8);
            assert("mental"@.len() == 6);
            assert("tactical"@.len() == 8);
            assert("physical"@[0] == 'p');
            assert("tactical"@[0] == 't');
        }
        DocumentField::MapValue(DocumentMapValue { fields: Some(m) })
    }
}

impl StatsF {
    /// Decodes a stat block out of one document field.
    pub fn from_field(f: &DocumentField) -> (r: Result<StatsF, FieldError>)
        ensures
            r matches Ok(v) ==> spec_decode_stats_f(*f) == Ok::<StatsF, FieldErrorV>(v),
            r matches Err(e) ==> spec_decode_stats_f(*f) == Err::<StatsF, FieldErrorV>(e@),
    {
        match f {
            DocumentField::MapValue(dmv) => match &dmv.fields {
                None => Err(FieldError::EmptyMap),
                Some(m) => {
                    let physical = match stats_entry_double(m, "physical") {
                        Ok(v) => v,
                        Err(e) => {
                            return Err(e);
                        },
                    };
                    let mental = match stats_entry_double(m, "mental") {
                        Ok(v) => v,
                        Err(e) => {
                            return Err(e);
                        },
                    };
                    let tactical = match stats_entry_double(m, "tactical") {
                        Ok(v) => v,
                        Err(e) => {
                            return Err(e);
                        },
                    };
                    Ok(StatsF { physical, mental, tactical })
                },
            },
            _ => Err(FieldError::WrongKind { expected: FieldKind::MapValue }),
        }
    }

    /// Encodes the stat block as a map value whose decoder gives it back.
    pub fn to_field(&self) -> (f: DocumentField)
        ensures
            spec_decode_stats_f(f) == Ok::<StatsF, FieldErrorV>(*self),
    {
        let mut m: StrMap<DocumentField> = StrMap::new();
        m.insert("physical".to_owned(), DocumentField::DoubleValue(self.physical));
        m.insert("mental".to_owned(), DocumentField::DoubleValue(self.mental));
        m.insert("tactical".to_owned(), DocumentField::DoubleValue(self.tactical));
        proof {
            reveal_strlit("physical");
            reveal_strlit("mental");
            reveal_strlit("tactical");
            assert("physical"@.len() == 8);
            assert("mental"@.len() == 6);
            assert("tactical"@.len() == 8);
            assert("physical"@[0] == 'p');
            assert("tactical"@[0] == 't');
        }
        DocumentField::MapValue(DocumentMapValue { fields: Some(m) })
    }
}

} // verus!
