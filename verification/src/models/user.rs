//! The user account record: a currency balance, the time the daily reward
//! was last claimed, and at most one staged (drawn but unconfirmed) card.

use crate::codec::{spec_named, spec_timestamp_field, spec_u32_field, DocumentCodec};
use crate::document::{spec_extract_string, Document, DocumentField};
use crate::errors::{DecodeError, DecodeErrorV, FieldError};
use crate::id::Id;
use crate::text::{
    is_uuid_text, last_segment, lemma_dec_value_of_rep, u64_to_dec_string,
};
use crate::timestamp::Timestamp;
use vstd::prelude::*;

verus! {

#[derive(Clone, Debug, PartialEq)]
pub struct User {
    pub id: Id,
    pub currency: u32,
    pub daily_last_claimed: Timestamp,
    pub staged_card: Option<Id>,
}

/// The mathematical shape of a user record.
pub struct UserV {
    pub id: Seq<char>,
    pub currency: u32,
    pub daily_last_claimed: Timestamp,
    pub staged_card: Option<Seq<char>>,
}

impl View for User {
    type V = UserV;

    open spec fn view(&self) -> UserV {
        UserV {
            id: self.id@,
            currency: self.currency,
            daily_last_claimed: self.daily_last_claimed,
            staged_card: match self.staged_card {
                Some(c) => Some(c@),
                None => None,
            },
        }
    }
}

impl User {
    /// A fresh account: no currency, the daily reward never claimed, no
    /// staged card.
    pub fn new(id: Id) -> (r: User)
        ensures
            r.id == id,
            r.currency == 0,
            r.daily_last_claimed == (Timestamp { seconds: 0, nanos: 0 }),
            r.staged_card is None,
    {
        User { id, currency: 0, daily_last_claimed: Timestamp::epoch(), staged_card: None }
    }
}

impl DocumentCodec for User {
    open spec fn spec_decode(doc: Document) -> Result<UserV, DecodeErrorV> {
        if !is_uuid_text(last_segment(doc.name@)) {
            Err(DecodeErrorV::InvalidId)
        } else {
            match spec_u32_field(doc, "currency"@) {
                Err(e) => Err(e),
                Ok(currency) => match spec_timestamp_field(doc, "daily_last_claimed"@) {
                    Err(e) => Err(e),
                    Ok(daily_last_claimed) => match doc.fields.spec_get("staged_card"@) {
                        None => Ok(
                            UserV {
                                id: last_segment(doc.name@),
                                currency,
                                daily_last_claimed,
                                staged_card: None,
                            },
                        ),
                        Some(f) => match spec_extract_string(f) {
                            Ok(s) => if is_uuid_text(s@) {
                                Ok(
                                    UserV {
                                        id: last_segment(doc.name@),
                                        currency,
                                        daily_last_claimed,
                                        staged_card: Some(s@),
                                    },
                                )
                            } else {
                                Err(
                                    DecodeErrorV::Field {
                                        field: "staged_card"@,
                                        error: crate::errors::FieldErrorV::BadId,
                                    },
                                )
                            },
                            Err(e) => Err(DecodeErrorV::Field { field: "staged_card"@, error: e@ }),
                        },
                    },
                },
            }
        }
    }

    open spec fn spec_id(&self) -> Seq<char> {
        self.id@
    }

    fn from_document(doc: &Document) -> (r: Result<User, DecodeError>) {
        let id = match doc.extract_id() {
            Ok(id) => id,
            Err(e) => {
                return Err(e);
            },
        };
        let currency_wide = match doc.extract_integer("currency") {
            Ok(v) => v,
            Err(e) => {
                return Err(e);
            },
        };
        if currency_wide < 0 || currency_wide > 4294967295i64 {
            return Err(
                DecodeError::Field { field: "currency".to_owned(), error: FieldError::BadInteger },
            );
        }
        let currency = currency_wide as u32;
        let daily_last_claimed = match doc.extract_timestamp("daily_last_claimed") {
            Ok(t) => t,
            Err(e) => {
                return Err(e);
            },
        };
        let staged_card = match doc.fields.get("staged_card") {
            None => None,
            Some(f) => match f.extract_string() {
                Ok(s) => match Id::parse(s.as_str()) {
                    Some(sid) => Some(sid),
                    None => {
                        return Err(
                            DecodeError::Field {
                                field: "staged_card".to_owned(),
                                error: FieldError::BadId,
                            },
                        );
                    },
                },
                Err(e) => {
                    return Err(
                        DecodeError::Field { field: "staged_card".to_owned(), error: e },
                    );
                },
            },
        };
        Ok(User { id, currency, daily_last_claimed, staged_card })
    }

    fn to_document(&self) -> (d: Document) {
        let mut fields: crate::strmap::StrMap<DocumentField> = crate::strmap::StrMap::new();
        fields.insert(
            "currency".to_owned(),
            DocumentField::IntegerValue(u64_to_dec_string(self.currency as u64)),
        );
        fields.insert(
            "daily_last_claimed".to_owned(),
            DocumentField::TimestampValue(self.daily_last_claimed),
        );
        match &self.staged_card {
            Some(c) => {
                proof {
                    use_type_invariant(c);
                }
                fields.insert(
                    "staged_card".to_owned(),
                    DocumentField::StringValue(c.as_str().to_owned()),
                );
            },
            None => {},
        }
        let d = Document::new(fields);
        proof {
            reveal_strlit("currency");
            reveal_strlit("daily_last_claimed");
            reveal_strlit("staged_card");
            assert("currency"@.len() == 8);
            assert("daily_last_claimed"@.len() == 18);
            assert("staged_card"@.len() == 11);
            lemma_dec_value_of_rep(self.currency as nat);
            assert forall|n: String|
                is_uuid_text(last_segment(n@)) && last_segment(n@) == self.spec_id() implies #[trigger] Self::spec_decode(
                spec_named(d, n),
            ) == Ok::<UserV, DecodeErrorV>(self@) by {
                let dd = spec_named(d, n);
                assert(dd.fields == d.fields);
                assert(spec_u32_field(dd, "currency"@) == Ok::<u32, DecodeErrorV>(self.currency));
                assert(spec_timestamp_field(dd, "daily_last_claimed"@) == Ok::<
                    Timestamp,
                    DecodeErrorV,
                >(self.daily_last_claimed));
            }
        }
        d
    }
}

} // verus!
