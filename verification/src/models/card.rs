//! The card prototype record of the compendium: display strings plus an
//! integer stat base and a double stat multiplier.

use crate::codec::{spec_named, spec_string_field, DocumentCodec};
use crate::document::{Document, DocumentField};
use crate::errors::{DecodeError, DecodeErrorV};
use crate::id::Id;
use crate::models::stats::{spec_stats_f_field, spec_stats_i_field, StatsF, StatsI};
use crate::text::{is_uuid_text, last_segment};
use vstd::prelude::*;

verus! {

#[derive(Clone, Debug, PartialEq)]
pub struct Card {
    pub id: Id,
    pub name: String,
    pub description: String,
    pub image_uri: String,
    pub stat_base: StatsI,
    pub stat_multiplier: StatsF,
}

/// The mathematical shape of a card record.
pub struct CardV {
    pub id: Seq<char>,
    pub name: Seq<char>,
    pub description: Seq<char>,
    pub image_uri: Seq<char>,
    pub stat_base: StatsI,
    pub stat_multiplier: StatsF,
}

impl View for Card {
    type V = CardV;

    open spec fn view(&self) -> CardV {
        CardV {
            id: self.id@,
            name: self.name@,
            description: self.description@,
            image_uri: self.image_uri@,
            stat_base: self.stat_base,
            stat_multiplier: self.stat_multiplier,
        }
    }
}

impl DocumentCodec for Card {
    open spec fn spec_decode(doc: Document) -> Result<CardV, DecodeErrorV> {
        if !is_uuid_text(last_segment(doc.name@)) {
            Err(DecodeErrorV::InvalidId)
        } else {
            match spec_string_field(doc, "name"@) {
                Err(e) => Err(e),
                Ok(name) => match spec_string_field(doc, "description"@) {
                    Err(e) => Err(e),
                    Ok(description) => match spec_string_field(doc, "image_uri"@) {
                        Err(e) => Err(e),
                        Ok(image_uri) => match spec_stats_i_field(doc, "stat_base"@) {
                            Err(e) => Err(e),
                            Ok(stat_base) => match spec_stats_f_field(doc, "stat_multiplier"@) {
                                Err(e) => Err(e),
                                Ok(stat_multiplier) => Ok(
                                    CardV {
                                        id: last_segment(doc.name@),
                                        name,
                                        description,
                                        image_uri,
                                        stat_base,
                                        stat_multiplier,
                                    },
                                ),
                            },
                        },
                    },
                },
            }
        }
    }

    open spec fn spec_id(&self) -> Seq<char> {
        self.id@
    }

    fn from_document(doc: &Document) -> (r: Result<Card, DecodeError>) {
        let id = match doc.extract_id() {
            Ok(id) => id,
            Err(e) => {
                return Err(e);
            },
        };
        let name = match doc.extract_string("name") {
            Ok(s) => s,
            Err(e) => {
                return Err(e);
            },
        };
        let description = match doc.extract_string("description") {
            Ok(s) => s,
            Err(e) => {
                return Err(e);
            },
        };
        let image_uri = match doc.extract_string("image_uri") {
            Ok(s) => s,
            Err(e) => {
                return Err(e);
            },
        };
        let stat_base = match doc.fields.get("stat_base") {
            None => {
                return Err(DecodeError::MissingField { field: "stat_base".to_owned() });
            },
            Some(f) => match StatsI::from_field(f) {
                Ok(s) => s,
                Err(e) => {
                    return Err(DecodeError::Field { field: "stat_base".to_owned(), error: e });
                },
            },
        };
        let stat_multiplier = match doc.fields.get("stat_multiplier") {
            None => {
                return Err(DecodeError::MissingField { field: "stat_multiplier".to_owned() });
            },
            Some(f) => match StatsF::from_field(f) {
                Ok(s) => s,
                Err(e) => {
                    return Err(
                        DecodeError::Field { field: "stat_multiplier".to_owned(), error: e },
                    );
                },
            },
        };
        Ok(Card { id, name, description, image_uri, stat_base, stat_multiplier })
    }

    fn to_document(&self) -> (d: Document) {
        let mut fields: crate::strmap::StrMap<DocumentField> = crate::strmap::StrMap::new();
        fields.insert("name".to_owned(), DocumentField::StringValue(self.name.clone()));
        fields.insert(
            "description".to_owned(),
            DocumentField::StringValue(self.description.clone()),
        );
        fields.insert(
            "image_uri".to_owned(),
            DocumentField::StringValue(self.image_uri.clone()),
        );
        fields.insert("stat_base".to_owned(), self.stat_base.to_field());
        fields.insert("stat_multiplier".to_owned(), self.stat_multiplier.to_field());
        let d = Document::new(fields);
        proof {
            reveal_strlit("name");
            reveal_strlit("description");
            reveal_strlit("image_uri");
            reveal_strlit("stat_base");
            reveal_strlit("stat_multiplier");
            assert("name"@.len() == 4);
            assert("description"@.len() == 11);
            assert("image_uri"@.len() == 9);
            assert("stat_base"@.len() == 9);
            assert("stat_multiplier"@.len() == 15);
            assert("image_uri"@[0] == 'i');
            assert("stat_base"@[0] == 's');
            assert forall|n: String|
                is_uuid_text(last_segment(n@)) && last_segment(n@) == self.spec_id() implies #[trigger] Self::spec_decode(
                spec_named(d, n),
            ) == Ok::<CardV, DecodeErrorV>(self@) by {
                let dd = spec_named(d, n);
                assert(dd.fields == d.fields);
                assert(spec_string_field(dd, "name"@) == Ok::<Seq<char>, DecodeErrorV>(
                    self.name@,
                ));
                assert(spec_string_field(dd, "description"@) == Ok::<Seq<char>, DecodeErrorV>(
                    self.description@,
                ));
                assert(spec_string_field(dd, "image_uri"@) == Ok::<Seq<char>, DecodeErrorV>(
                    self.image_uri@,
                ));
                assert(spec_stats_i_field(dd, "stat_base"@) == Ok::<StatsI, DecodeErrorV>(
                    self.stat_base,
                ));
                assert(spec_stats_f_field(dd, "stat_multiplier"@) == Ok::<StatsF, DecodeErrorV>(
                    self.stat_multiplier,
                ));
            }
        }
        d
    }
}

} // verus!
