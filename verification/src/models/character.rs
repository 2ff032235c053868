//! A character owned by a user: an instance of a card prototype with a
//! level and experience. The prototype itself is fetched separately; only
//! its id is stored.

use crate::codec::{spec_id_field, spec_u32_field, DocumentCodec};
use crate::document::{Document, DocumentField};
use crate::errors::{DecodeError, DecodeErrorV, FieldError};
use crate::id::Id;
use crate::text::{is_uuid_text, last_segment, lemma_dec_value_of_rep, u64_to_dec_string};
use vstd::prelude::*;

verus! {

#[derive(Clone, Debug, PartialEq)]
pub struct Character {
    pub id: Id,
    pub prototype_id: Id,
    pub level: u32,
    pub experience: u32,
}

/// The mathematical shape of a character record.
pub struct CharacterV {
    pub id: Seq<char>,
    pub prototype_id: Seq<char>,
    pub level: u32,
    pub experience: u32,
}

impl View for Character {
    type V = CharacterV;

    open spec fn view(&self) -> CharacterV {
        CharacterV {
            id: self.id@,
            prototype_id: self.prototype_id@,
            level: self.level,
            experience: self.experience,
        }
    }
}

impl Character {
    /// A fresh character starts at level 1 with no experience.
    pub fn new(id: Id, prototype_id: Id) -> (r: Character)
        ensures
            r.id == id,
            r.prototype_id == prototype_id,
            r.level == 1,
            r.experience == 0,
    {
        Character { id, prototype_id, level: 1, experience: 0 }
    }
}

impl DocumentCodec for Character {
    open spec fn spec_decode(doc: Document) -> Result<CharacterV, DecodeErrorV> {
        if !is_uuid_text(last_segment(doc.name@)) {
            Err(DecodeErrorV::InvalidId)
        } else {
            match spec_id_field(doc, "prototype_id"@) {
                Err(e) => Err(e),
                Ok(prototype_id) => match spec_u32_field(doc, "level"@) {
                    Err(e) => Err(e),
                    Ok(level) => match spec_u32_field(doc, "experience"@) {
                        Err(e) => Err(e),
                        Ok(experience) => Ok(
                            CharacterV {
                                id: last_segment(doc.name@),
                                prototype_id,
                                level,
                                experience,
                            },
                        ),
                    },
                },
            }
        }
    }

    open spec fn spec_id(&self) -> Seq<char> {
        self.id@
    }

    fn from_document(doc: &Document) -> (r: Result<Character, DecodeError>) {
        let id = match doc.extract_id() {
            Ok(id) => id,
            Err(e) => {
                return Err(e);
            },
        };
        let proto_text = match doc.extract_string("prototype_id") {
            Ok(s) => s,
            Err(e) => {
                return Err(e);
            },
        };
        let prototype_id = match Id::parse(proto_text.as_str()) {
            Some(p) => p,
            None => {
                return Err(
                    DecodeError::Field {
                        field: "prototype_id".to_owned(),
                        error: FieldError::BadId,
                    },
                );
            },
        };
        let level = match extract_u32(doc, "level") {
            Ok(v) => v,
            Err(e) => {
                return Err(e);
            },
        };
        let experience = match extract_u32(doc, "experience") {
            Ok(v) => v,
            Err(e) => {
                return Err(e);
            },
        };
        Ok(Character { id, prototype_id, level, experience })
    }

    fn to_document(&self) -> (d: Document) {
        let mut fields: crate::strmap::StrMap<DocumentField> = crate::strmap::StrMap::new();
        proof {
            use_type_invariant(&self.prototype_id);
        }
        fields.insert(
            "prototype_id".to_owned(),
            DocumentField::StringValue(self.prototype_id.as_str().to_owned()),
        );
        fields.insert(
            "level".to_owned(),
            DocumentField::IntegerValue(u64_to_dec_string(self.level as u64)),
        );
        fields.insert(
            "experience".to_owned(),
            DocumentField::IntegerValue(u64_to_dec_string(self.experience as u64)),
        );
        let d = Document::new(fields);
        proof {
            reveal_strlit("prototype_id");
            reveal_strlit("level");
            reveal_strlit("experience");
            assert("prototype_id"@.len() == 12);
            assert("level"@.len() == 5);
            assert("experience"@.len() == 10);
            lemma_dec_value_of_rep(self.level as nat);
            lemma_dec_value_of_rep(self.experience as nat);
        }
        d
    }
}

/// Reads a required integer field that must fit a `u32`.
pub fn extract_u32(doc: &Document, field_name: &str) -> (r: Result<u32, DecodeError>)
    ensures
        r matches Ok(v) ==> spec_u32_field(*doc, field_name@) == Ok::<u32, DecodeErrorV>(v),
        r matches Err(e) ==> spec_u32_field(*doc, field_name@) == Err::<u32, DecodeErrorV>(e@),
{
    match doc.extract_integer(field_name) {
        Ok(v) => {
            if v < 0 || v > 4294967295i64 {
                Err(
                    DecodeError::Field {
                        field: field_name.to_owned(),
                        error: FieldError::BadInteger,
                    },
                )
            } else {
                Ok(v as u32)
            }
        },
        Err(e) => Err(e),
    }
}

} // verus!
