//! Jobs: a unit of work a user sends characters on, created from a job
//! prototype and completed after a fixed duration.

use crate::codec::{
    spec_id_field, spec_string_field, spec_timestamp_field, spec_u32_field,
    DocumentCodec,
};
use crate::document::{Document, DocumentArrayValue, DocumentField};
use crate::errors::{DecodeError, DecodeErrorV, FieldError, FieldErrorV, FieldKind};
use crate::id::Id;
use crate::models::stats::{spec_stats_f_field, StatsF};
use crate::text::{is_uuid_text, last_segment, lemma_dec_value_of_rep, u64_to_dec_string};
use crate::timestamp::Timestamp;
use vstd::prelude::*;

verus! {

#[derive(Clone, Debug, PartialEq)]
pub struct Job {
    pub id: Id,
    pub name: String,
    pub description: String,
    pub recommended_stats: StatsF,
    pub completion_time: Timestamp,
    pub user_id: Id,
    pub character_ids: Vec<Id>,
}

/// The mathematical shape of a job record.
pub struct JobV {
    pub id: Seq<char>,
    pub name: Seq<char>,
    pub description: Seq<char>,
    pub recommended_stats: StatsF,
    pub completion_time: Timestamp,
    pub user_id: Seq<char>,
    pub character_ids: Seq<Seq<char>>,
}

/// The id texts of a sequence of ids.
pub open spec fn id_views(s: Seq<Id>) -> Seq<Seq<char>> {
    Seq::new(s.len(), |i: int| s[i]@)
}

impl View for Job {
    type V = JobV;

    open spec fn view(&self) -> JobV {
        JobV {
            id: self.id@,
            name: self.name@,
            description: self.description@,
            recommended_stats: self.recommended_stats,
            completion_time: self.completion_time,
            user_id: self.user_id@,
            character_ids: id_views(self.character_ids@),
        }
    }
}

impl Job {
    /// Instantiates a prototype for a user: the job completes a fixed
    /// number of minutes after it is taken.
    pub fn new(
        id: Id,
        prototype: &JobPrototype,
        user_id: Id,
        character_ids: Vec<Id>,
        now: Timestamp,
    ) -> (r: Job)
        requires
            now.seconds + prototype.duration_mins * 60 <= i64::MAX,
        ensures
            r.id == id,
            r.name@ == prototype.name@,
            r.description@ == prototype.description@,
            r.recommended_stats == prototype.recommended_stats,
            r.completion_time.seconds == now.seconds + prototype.duration_mins * 60,
            r.completion_time.nanos == now.nanos,
            r.user_id == user_id,
            r.character_ids == character_ids,
    {
        let delay: i64 = (prototype.duration_mins as i64) * 60;
        Job {
            id,
            name: prototype.name.clone(),
            description: prototype.description.clone(),
            recommended_stats: prototype.recommended_stats,
            completion_time: Timestamp {
                seconds: now.seconds + delay,
                nanos: now.nanos,
            },
            user_id,
            character_ids,
        }
    }

    /// Whether the job's completion time is still ahead of `now`.
    pub fn can_complete_at(&self, now: &Timestamp) -> (r: bool)
        ensures
            r == now.spec_lt(&self.completion_time),
    {
        now.lt(&self.completion_time)
    }

    /// [`Job::can_complete_at`] against the system clock; no contract, as
    /// the answer depends on the clock reading.
    pub fn can_complete(&self) -> bool {
        let now = Timestamp { seconds: crate::clock::unix_time_now(), nanos: 0 };
        self.can_complete_at(&now)
    }
}

/// Decoding an array of id strings; the first offending element decides the
/// error.
pub open spec fn spec_decode_id_array(vals: Seq<DocumentField>) -> Result<
    Seq<Seq<char>>,
    FieldErrorV,
>
    decreases vals.len(),
{
    if vals.len() == 0 {
        Ok(Seq::empty())
    } else {
        match spec_decode_id_array(vals.drop_last()) {
            Err(e) => Err(e),
            Ok(ids) => match vals.last() {
                DocumentField::StringValue(s) => if is_uuid_text(s@) {
                    Ok(ids.push(s@))
                } else {
                    Err(FieldErrorV::BadId)
                },
                _ => Err(FieldErrorV::WrongKind { expected: FieldKind::StringValue }),
            },
        }
    }
}

proof fn lemma_id_array_error_propagates(vals: Seq<DocumentField>, k: int)
    requires
        0 <= k <= vals.len(),
        spec_decode_id_array(vals.take(k)) is Err,
    ensures
        spec_decode_id_array(vals) == spec_decode_id_array(vals.take(k)),
    decreases vals.len() - k,
{
    if k == vals.len() {
        assert(vals.take(k) =~= vals);
    } else {
        assert(vals.take(k + 1).drop_last() =~= vals.take(k));
        lemma_id_array_error_propagates(vals, k + 1);
    }
}

fn decode_id_array(vals: &Vec<DocumentField>) -> (r: Result<Vec<Id>, FieldError>)
    ensures
        r matches Ok(ids) ==> spec_decode_id_array(vals@) == Ok::<Seq<Seq<char>>, FieldErrorV>(
            id_views(ids@),
        ),
        r matches Err(e) ==> spec_decode_id_array(vals@) == Err::<Seq<Seq<char>>, FieldErrorV>(
            e@,
        ),
{
    let mut ids: Vec<Id> = Vec::new();
    let mut i: usize = 0;
    proof {
        assert(vals@.take(0) =~= Seq::<DocumentField>::empty());
        assert(id_views(ids@) =~= Seq::<Seq<char>>::empty());
    }
    while i < vals.len()
        invariant
            0 <= i <= vals@.len(),
            ids@.len() == i,
            spec_decode_id_array(vals@.take(i as int)) == Ok::<Seq<Seq<char>>, FieldErrorV>(
                id_views(ids@),
            ),
        decreases vals@.len() - i,
    {
        let ghost prev_ids = ids@;
        proof {
            assert(vals@.take(i + 1).drop_last() =~= vals@.take(i as int));
            assert(vals@.take(i + 1).last() == vals@[i as int]);
        }
        match &vals[i] {
            DocumentField::StringValue(s) => match Id::parse(s.as_str()) {
                Some(id) => {
                    ids.push(id);
                    proof {
                        assert(id_views(ids@) =~= id_views(prev_ids).push(s@));
                    }
                },
                None => {
                    proof {
                        lemma_id_array_error_propagates(vals@, i + 1);
                    }
                    return Err(FieldError::BadId);
                },
            },
            _ => {
                proof {
                    lemma_id_array_error_propagates(vals@, i + 1);
                }
                return Err(FieldError::WrongKind { expected: FieldKind::StringValue });
            },
        }
        i = i + 1;
    }
    proof {
        assert(vals@.take(i as int) =~= vals@);
    }
    Ok(ids)
}

fn encode_id_array(ids: &Vec<Id>) -> (r: Vec<DocumentField>)
    ensures
        spec_decode_id_array(r@) == Ok::<Seq<Seq<char>>, FieldErrorV>(id_views(ids@)),
{
    let mut vals: Vec<DocumentField> = Vec::new();
    let mut i: usize = 0;
    proof {
        assert(vals@ =~= Seq::<DocumentField>::empty());
        assert(id_views(ids@.take(0)) =~= Seq::<Seq<char>>::empty());
    }
    while i < ids.len()
        invariant
            0 <= i <= ids@.len(),
            vals@.len() == i,
            spec_decode_id_array(vals@) == Ok::<Seq<Seq<char>>, FieldErrorV>(
                id_views(ids@.take(i as int)),
            ),
        decreases ids@.len() - i,
    {
        let ghost prev_vals = vals@;
        let text = ids[i].as_str().to_owned();
        vals.push(DocumentField::StringValue(text));
        proof {
            assert(vals@.drop_last() =~= prev_vals);
            assert(id_views(ids@.take(i + 1)) =~= id_views(ids@.take(i as int)).push(
                ids@[i as int]@,
            ));
        }
        i = i + 1;
    }
    proof {
        assert(ids@.take(i as int) =~= ids@);
    }
    vals
}

impl DocumentCodec for Job {
    open spec fn spec_decode(doc: Document) -> Result<JobV, DecodeErrorV> {
        if !is_uuid_text(last_segment(doc.name@)) {
            Err(DecodeErrorV::InvalidId)
        } else {
            match spec_string_field(doc, "name"@) {
                Err(e) => Err(e),
                Ok(name) => match spec_string_field(doc, "description"@) {
                    Err(e) => Err(e),
                    Ok(description) => match spec_stats_f_field(doc, "recommended_stats"@) {
                        Err(e) => Err(e),
                        Ok(recommended_stats) => match spec_timestamp_field(
                            doc,
                            "completion_time"@,
                        ) {
                            Err(e) => Err(e),
                            Ok(completion_time) => match spec_id_field(doc, "user_id"@) {
                                Err(e) => Err(e),
                                Ok(user_id) => match doc.fields.spec_get("character_ids"@) {
                                    None => Err(
                                        DecodeErrorV::MissingField { field: "character_ids"@ },
                                    ),
                                    Some(f) => match f {
                                        DocumentField::ArrayValue(dav) => match dav.values {
                                            None => Err(
                                                DecodeErrorV::Field {
                                                    field: "character_ids"@,
                                                    error: FieldErrorV::EmptyArray,
                                                },
                                            ),
                                            Some(vals) => match spec_decode_id_array(vals@) {
                                                Err(e) => Err(
                                                    DecodeErrorV::Field {
                                                        field: "character_ids"@,
                                                        error: e,
                                                    },
                                                ),
                                                Ok(character_ids) => Ok(
                                                    JobV {
                                                        id: last_segment(doc.name@),
                                                        name,
                                                        description,
                                                        recommended_stats,
                                                        completion_time,
                                                        user_id,
                                                        character_ids,
                                                    },
                                                ),
                                            },
                                        },
                                        _ => Err(
                                            DecodeErrorV::Field {
                                                field: "character_ids"@,
                                                error: FieldErrorV::WrongKind {
                                                    expected: FieldKind::ArrayValue,
                                                },
                                            },
                                        ),
                                    },
                                },
                            },
                        },
                    },
                },
            }
        }
    }

    open spec fn spec_id(&self) -> Seq<char> {
        self.id@
    }

    fn from_document(doc: &Document) -> (r: Result<Job, DecodeError>) {
        let id = match doc.extract_id() {
            Ok(id) => id,
            Err(e) => {
                return Err(e);
            },
        };
        let name = match doc.extract_string("name") {
            Ok(s) => s,
            Err(e) => {
                return Err(e);
            },
        };
        let description = match doc.extract_string("description") {
            Ok(s) => s,
            Err(e) => {
                return Err(e);
            },
        };
        let recommended_stats = match doc.fields.get("recommended_stats") {
            None => {
                return Err(DecodeError::MissingField { field: "recommended_stats".to_owned() });
            },
            Some(f) => match StatsF::from_field(f) {
                Ok(s) => s,
                Err(e) => {
                    return Err(
                        DecodeError::Field { field: "recommended_stats".to_owned(), error: e },
                    );
                },
            },
        };
        let completion_time = match doc.extract_timestamp("completion_time") {
            Ok(t) => t,
            Err(e) => {
                return Err(e);
            },
        };
        let user_text = match doc.extract_string("user_id") {
            Ok(s) => s,
            Err(e) => {
                return Err(e);
            },
        };
        let user_id = match Id::parse(user_text.as_str()) {
            Some(u) => u,
            None => {
                return Err(
                    DecodeError::Field { field: "user_id".to_owned(), error: FieldError::BadId },
                );
            },
        };
        let character_ids = match doc.fields.get("character_ids") {
            None => {
                return Err(DecodeError::MissingField { field: "character_ids".to_owned() });
            },
            Some(f) => match f {
                DocumentField::ArrayValue(dav) => match &dav.values {
                    None => {
                        return Err(
                            DecodeError::Field {
                                field: "character_ids".to_owned(),
                                error: FieldError::EmptyArray,
                            },
                        );
                    },
                    Some(vals) => match decode_id_array(vals) {
                        Ok(ids) => ids,
                        Err(e) => {
                            return Err(
                                DecodeError::Field {
                                    field: "character_ids".to_owned(),
                                    error: e,
                                },
                            );
                        },
                    },
                },
                _ => {
                    return Err(
                        DecodeError::Field {
                            field: "character_ids".to_owned(),
                            error: FieldError::WrongKind { expected: FieldKind::ArrayValue },
                        },
                    );
                },
            },
        };
        Ok(Job { id, name, description, recommended_stats, completion_time, user_id, character_ids })
    }

    fn to_document(&self) -> (d: Document) {
        let mut fields: crate::strmap::StrMap<DocumentField> = crate::strmap::StrMap::new();
        fields.insert("name".to_owned(), DocumentField::StringValue(self.name.clone()));
        fields.insert(
            "description".to_owned(),
            DocumentField::StringValue(self.description.clone()),
        );
        fields.insert("recommended_stats".to_owned(), self.recommended_stats.to_field());
        fields.insert(
            "completion_time".to_owned(),
            DocumentField::TimestampValue(self.completion_time),
        );
        fields.insert(
            "user_id".to_owned(),
            DocumentField::StringValue(self.user_id.as_str().to_owned()),
        );
        let id_fields = encode_id_array(&self.character_ids);
        fields.insert(
            "character_ids".to_owned(),
            DocumentField::ArrayValue(DocumentArrayValue { values: Some(id_fields) }),
        );
        let d = Document::new(fields);
        proof {
            reveal_strlit("name");
            reveal_strlit("description");
            reveal_strlit("recommended_stats");
            reveal_strlit("completion_time");
            reveal_strlit("user_id");
            reveal_strlit("character_ids");
            assert("name"@.len() == 4);
            assert("description"@.len() == 11);
            assert("recommended_stats"@.len() == 17);
            assert("completion_time"@.len() == 15);
            assert("user_id"@.len() == 7);
            assert("character_ids"@.len() == 13);
        }
        d
    }
}

/// A job template on the job board; taking it instantiates a [`Job`].
#[derive(Clone, Debug, PartialEq)]
pub struct JobPrototype {
    pub id: Id,
    pub name: String,
    pub description: String,
    pub recommended_stats: StatsF,
    pub duration_mins: u32,
}

/// The mathematical shape of a job prototype record.
pub struct JobPrototypeV {
    pub id: Seq<char>,
    pub name: Seq<char>,
    pub description: Seq<char>,
    pub recommended_stats: StatsF,
    pub duration_mins: u32,
}

impl View for JobPrototype {
    type V = JobPrototypeV;

    open spec fn view(&self) -> JobPrototypeV {
        JobPrototypeV {
            id: self.id@,
            name: self.name@,
            description: self.description@,
            recommended_stats: self.recommended_stats,
            duration_mins: self.duration_mins,
        }
    }
}

impl DocumentCodec for JobPrototype {
    open spec fn spec_decode(doc: Document) -> Result<JobPrototypeV, DecodeErrorV> {
        if !is_uuid_text(last_segment(doc.name@)) {
            Err(DecodeErrorV::InvalidId)
        } else {
            match spec_string_field(doc, "name"@) {
                Err(e) => Err(e),
                Ok(name) => match spec_string_field(doc, "description"@) {
                    Err(e) => Err(e),
                    Ok(description) => match spec_stats_f_field(doc, "recommended_stats"@) {
                        Err(e) => Err(e),
                        Ok(recommended_stats) => match spec_u32_field(doc, "duration_mins"@) {
                            Err(e) => Err(e),
                            Ok(duration_mins) => Ok(
                                JobPrototypeV {
                                    id: last_segment(doc.name@),
                                    name,
                                    description,
                                    recommended_stats,
                                    duration_mins,
                                },
                            ),
                        },
                    },
                },
            }
        }
    }

    open spec fn spec_id(&self) -> Seq<char> {
        self.id@
    }

    fn from_document(doc: &Document) -> (r: Result<JobPrototype, DecodeError>) {
        let id = match doc.extract_id() {
            Ok(id) => id,
            Err(e) => {
                return Err(e);
            },
        };
        let name = match doc.extract_string("name") {
            Ok(s) => s,
            Err(e) => {
                return Err(e);
            },
        };
        let description = match doc.extract_string("description") {
            Ok(s) => s,
            Err(e) => {
                return Err(e);
            },
        };
        let recommended_stats = match doc.fields.get("recommended_stats") {
            None => {
                return Err(DecodeError::MissingField { field: "recommended_stats".to_owned() });
            },
            Some(f) => match StatsF::from_field(f) {
                Ok(s) => s,
                Err(e) => {
                    return Err(
                        DecodeError::Field { field: "recommended_stats".to_owned(), error: e },
                    );
                },
            },
        };
        let duration_mins = match crate::models::character::extract_u32(doc, "duration_mins") {
            Ok(v) => v,
            Err(e) => {
                return Err(e);
            },
        };
        Ok(JobPrototype { id, name, description, recommended_stats, duration_mins })
    }

    fn to_document(&self) -> (d: Document) {
        let mut fields: crate::strmap::StrMap<DocumentField> = crate::strmap::StrMap::new();
        fields.insert("name".to_owned(), DocumentField::StringValue(self.name.clone()));
        fields.insert(
            "description".to_owned(),
            DocumentField::StringValue(self.description.clone()),
        );
        fields.insert("recommended_stats".to_owned(), self.recommended_stats.to_field());
        fields.insert(
            "duration_mins".to_owned(),
            DocumentField::IntegerValue(u64_to_dec_string(self.duration_mins as u64)),
        );
        let d = Document::new(fields);
        proof {
            reveal_strlit("name");
            reveal_strlit("description");
            reveal_strlit("recommended_stats");
            reveal_strlit("duration_mins");
            assert("name"@.len() == 4);
            assert("description"@.len() == 11);
            assert("recommended_stats"@.len() == 17);
            assert("duration_mins"@.len() == 13);
            lemma_dec_value_of_rep(self.duration_mins as nat);
        }
        d
    }
}

} // verus!
