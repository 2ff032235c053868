//! Round trips of the typed document codec, including the two wire quirks:
//! integers as decimal strings, and integral doubles collapsed into
//! integer fields.

use pccg_storage::codec::DocumentCodec;
use pccg_storage::document::{Document, DocumentField};
use pccg_storage::double::DoubleBits;
use pccg_storage::errors::{DecodeError, FieldError, FieldKind};
use pccg_storage::id::Id;
use pccg_storage::models::card::Card;
use pccg_storage::models::character::Character;
use pccg_storage::models::job::{Job, JobPrototype};
use pccg_storage::models::stats::{StatsF, StatsI};
use pccg_storage::models::user::User;
use pccg_storage::strmap::StrMap;
use pccg_storage::timestamp::Timestamp;

fn bits(x: f64) -> DoubleBits {
    DoubleBits { bits: x.to_bits() }
}

#[test]
fn can_convert_between_document_and_card() {
    let id = Id::parse("8f2b4a1c-3d5e-4f60-9a7b-0c1d2e3f4a5b").unwrap();
    let card = Card {
        id: id.clone(),
        name: "test card".to_owned(),
        description: "test description".to_owned(),
        image_uri: "https://localhost/test_uri.png".to_owned(),
        stat_base: StatsI { physical: 24, mental: 12, tactical: 19 },
        stat_multiplier: StatsF { physical: bits(2.0), mental: bits(0.9), tactical: bits(0.5) },
    };

    let mut doc: Document = card.to_document();
    doc.name = format!("parent_path/{}", id.as_str());

    let card_from_doc: Card = Card::from_document(&doc).unwrap();

    assert_eq!(card, card_from_doc);
}

#[test]
fn can_convert_between_document_and_user() {
    let id = Id::parse("00000000-0000-0000-0000-000000000000").unwrap();
    let user = User::new(id.clone());

    let mut doc: Document = user.to_document();
    doc.name = format!("parent_path/{}", id.as_str());

    let user_from_doc: User = User::from_document(&doc).unwrap();

    assert_eq!(user, user_from_doc);
}

#[test]
fn user_with_staged_card_round_trips() {
    let id = Id::parse("00000000-0000-0000-0000-000000000001").unwrap();
    let staged = Id::parse("aaaaaaaa-bbbb-cccc-dddd-eeeeffff0000").unwrap();
    let user = User {
        id: id.clone(),
        currency: 4294967295,
        daily_last_claimed: Timestamp::new(1600000000, 123456000),
        staged_card: Some(staged),
    };

    let mut doc = user.to_document();
    doc.name = format!("users/{}", id.as_str());

    assert_eq!(user, User::from_document(&doc).unwrap());
}

#[test]
fn can_convert_between_document_and_character() {
    let id = Id::parse("11111111-2222-3333-4444-555555555555").unwrap();
    let proto = Id::parse("8f2b4a1c-3d5e-4f60-9a7b-0c1d2e3f4a5b").unwrap();
    let character = Character::new(id.clone(), proto);

    let mut doc: Document = character.to_document();
    doc.name = format!("parent_path/{}", id.as_str());

    let from_doc: Character = Character::from_document(&doc).unwrap();

    assert_eq!(character, from_doc);
}

#[test]
fn can_convert_between_document_and_job() {
    let id = Id::parse("12121212-3434-5656-7878-909090909090").unwrap();
    let user_id = Id::parse("00000000-0000-0000-0000-000000000002").unwrap();
    let c1 = Id::parse("11111111-2222-3333-4444-555555555555").unwrap();
    let c2 = Id::parse("aaaaaaaa-bbbb-cccc-dddd-eeeeffff0000").unwrap();
    let job = Job {
        id: id.clone(),
        name: "test job".to_owned(),
        description: "test description".to_owned(),
        recommended_stats: StatsF { physical: bits(15.2), mental: bits(29.5), tactical: bits(8.0) },
        completion_time: Timestamp::new(1700000000, 0),
        user_id,
        character_ids: vec![c1, c2],
    };

    let mut doc: Document = job.to_document();
    doc.name = format!("parent_path/{}", id.as_str());

    let from_doc: Job = Job::from_document(&doc).unwrap();

    assert_eq!(job, from_doc);
}

#[test]
fn can_convert_between_document_and_job_prototype() {
    let id = Id::parse("12121212-3434-5656-7878-909090909090").unwrap();
    let job_prototype = JobPrototype {
        id: id.clone(),
        name: "test job".to_owned(),
        description: "test description".to_owned(),
        recommended_stats: StatsF { physical: bits(15.2), mental: bits(29.5), tactical: bits(8.0) },
        duration_mins: 3600,
    };

    let mut doc: Document = job_prototype.to_document();
    doc.name = format!("parent_path/{}", id.as_str());

    let from_doc: JobPrototype = JobPrototype::from_document(&doc).unwrap();

    assert_eq!(job_prototype, from_doc);
}

struct TestItem {
    id: Id,
    number: u32,
    test_case: String,
}

fn test_item_into_document(item: &TestItem) -> Document {
    let mut fields: StrMap<DocumentField> = StrMap::new();
    fields.insert(
        "id".to_owned(),
        DocumentField::StringValue(item.id.as_str().to_owned()),
    );
    fields.insert(
        "number".to_owned(),
        DocumentField::IntegerValue(item.number.to_string()),
    );
    fields.insert(
        "test_case".to_owned(),
        DocumentField::StringValue(item.test_case.clone()),
    );
    Document::new(fields)
}

fn test_item_from_document(doc: &Document) -> Result<TestItem, String> {
    let id = doc.extract_id().map_err(|e| format!("{:?}", e))?;
    let number = doc
        .extract_integer("number")
        .map_err(|e| format!("{:?}", e))?;
    if number < 0 || number > u32::MAX as i64 {
        return Err("number out of range".to_owned());
    }
    let test_case = doc
        .extract_string("test_case")
        .map_err(|e| format!("{:?}", e))?;
    Ok(TestItem { id, number: number as u32, test_case })
}

#[test]
fn can_convert_between_document_and_test_item() {
    let id = Id::parse("8f2b4a1c-3d5e-4f60-9a7b-0c1d2e3f4a5b").unwrap();
    let test_item = TestItem {
        id: id.clone(),
        number: 42,
        test_case: "can_convert_between_document_and_test_item".to_owned(),
    };

    let mut doc: Document = test_item_into_document(&test_item);
    doc.name = format!("parent_path/{}", id.as_str());

    let test_item_from_doc: TestItem = test_item_from_document(&doc).unwrap();

    assert_eq!(test_item.id, test_item_from_doc.id);
    assert_eq!(test_item.number, test_item_from_doc.number);
    assert_eq!(test_item.test_case, test_item_from_doc.test_case);
}

#[test]
fn integral_double_collapsed_to_integer_field_decodes_back() {
    // The store may echo a stat block written as doubles with its integral
    // entries collapsed into integer fields; the decoder must rebuild the
    // exact bit patterns.
    let mut entries: StrMap<DocumentField> = StrMap::new();
    entries.insert("physical".to_owned(), DocumentField::IntegerValue("8".to_owned()));
    entries.insert("mental".to_owned(), DocumentField::IntegerValue("-3".to_owned()));
    entries.insert(
        "tactical".to_owned(),
        DocumentField::DoubleValue(bits(0.25)),
    );
    let field = DocumentField::MapValue(pccg_storage::document::DocumentMapValue {
        fields: Some(entries),
    });
    let stats = StatsF::from_field(&field).unwrap();
    assert_eq!(stats.physical, bits(8.0));
    assert_eq!(stats.mental, bits(-3.0));
    assert_eq!(stats.tactical, bits(0.25));
}

#[test]
fn missing_required_field_names_the_field() {
    let id = Id::parse("00000000-0000-0000-0000-000000000003").unwrap();
    let user = User::new(id.clone());
    let mut doc = user.to_document();
    doc.name = format!("users/{}", id.as_str());
    // A document without the currency field must name it.
    let mut fields: StrMap<DocumentField> = StrMap::new();
    fields.insert(
        "daily_last_claimed".to_owned(),
        DocumentField::TimestampValue(Timestamp::new(0, 0)),
    );
    let mut bare = Document::new(fields);
    bare.name = doc.name.clone();
    let err = User::from_document(&bare).unwrap_err();
    assert_eq!(err, DecodeError::MissingField { field: "currency".to_owned() });
}

#[test]
fn wrong_field_kind_names_field_and_expected_kind() {
    let id = Id::parse("00000000-0000-0000-0000-000000000004").unwrap();
    let mut fields: StrMap<DocumentField> = StrMap::new();
    fields.insert(
        "currency".to_owned(),
        DocumentField::StringValue("not a number".to_owned()),
    );
    let mut doc = Document::new(fields);
    doc.name = format!("users/{}", id.as_str());
    let err = User::from_document(&doc).unwrap_err();
    assert_eq!(
        err,
        DecodeError::Field {
            field: "currency".to_owned(),
            error: FieldError::WrongKind { expected: FieldKind::IntegerValue },
        }
    );
}

#[test]
fn bad_resource_name_is_an_invalid_id() {
    let user = User::new(Id::parse("00000000-0000-0000-0000-000000000005").unwrap());
    let mut doc = user.to_document();
    doc.name = "users/not-a-uuid".to_owned();
    assert_eq!(User::from_document(&doc).unwrap_err(), DecodeError::InvalidId);
}

#[test]
fn integer_out_of_range_is_a_bad_integer() {
    let id = Id::parse("00000000-0000-0000-0000-000000000006").unwrap();
    let mut fields: StrMap<DocumentField> = StrMap::new();
    fields.insert(
        "currency".to_owned(),
        DocumentField::IntegerValue("4294967296".to_owned()),
    );
    fields.insert(
        "daily_last_claimed".to_owned(),
        DocumentField::TimestampValue(Timestamp::new(0, 0)),
    );
    let mut doc = Document::new(fields);
    doc.name = format!("users/{}", id.as_str());
    let err = User::from_document(&doc).unwrap_err();
    assert_eq!(
        err,
        DecodeError::Field { field: "currency".to_owned(), error: FieldError::BadInteger }
    );
}

#[test]
fn staged_card_with_bad_id_text_is_rejected() {
    let id = Id::parse("00000000-0000-0000-0000-000000000007").unwrap();
    let user = User::new(id.clone());
    let mut doc = user.to_document();
    doc.name = format!("users/{}", id.as_str());
    doc.fields.insert(
        "staged_card".to_owned(),
        DocumentField::StringValue("NOT-A-UUID".to_owned()),
    );
    let err = User::from_document(&doc).unwrap_err();
    assert_eq!(
        err,
        DecodeError::Field { field: "staged_card".to_owned(), error: FieldError::BadId }
    );
}

#[test]
fn stat_block_entry_errors_name_the_entry() {
    // A stat block without its tactical entry.
    let mut entries: StrMap<DocumentField> = StrMap::new();
    entries.insert("physical".to_owned(), DocumentField::IntegerValue("1".to_owned()));
    entries.insert("mental".to_owned(), DocumentField::IntegerValue("2".to_owned()));
    let field = DocumentField::MapValue(pccg_storage::document::DocumentMapValue {
        fields: Some(entries),
    });
    assert_eq!(
        StatsI::from_field(&field).unwrap_err(),
        FieldError::MissingEntry { entry: "tactical".to_owned() }
    );

    // A stat block whose physical entry carries the wrong tag.
    let mut entries: StrMap<DocumentField> = StrMap::new();
    entries.insert("physical".to_owned(), DocumentField::StringValue("1".to_owned()));
    entries.insert("mental".to_owned(), DocumentField::IntegerValue("2".to_owned()));
    entries.insert("tactical".to_owned(), DocumentField::IntegerValue("3".to_owned()));
    let field = DocumentField::MapValue(pccg_storage::document::DocumentMapValue {
        fields: Some(entries),
    });
    assert_eq!(
        StatsI::from_field(&field).unwrap_err(),
        FieldError::EntryWrongKind {
            entry: "physical".to_owned(),
            expected: FieldKind::IntegerValue,
        }
    );

    // A map value carrying no field mapping at all.
    let field = DocumentField::MapValue(pccg_storage::document::DocumentMapValue { fields: None });
    assert_eq!(StatsI::from_field(&field).unwrap_err(), FieldError::EmptyMap);
}

#[test]
fn character_id_array_without_values_is_rejected() {
    let id = Id::parse("12121212-3434-5656-7878-909090909091").unwrap();
    let user_id = Id::parse("00000000-0000-0000-0000-000000000008").unwrap();
    let job = Job {
        id: id.clone(),
        name: "j".to_owned(),
        description: "d".to_owned(),
        recommended_stats: StatsF { physical: bits(1.0), mental: bits(1.0), tactical: bits(1.0) },
        completion_time: Timestamp::new(0, 0),
        user_id,
        character_ids: vec![],
    };
    let mut doc = job.to_document();
    doc.name = format!("jobs/{}", id.as_str());
    doc.fields.insert(
        "character_ids".to_owned(),
        DocumentField::ArrayValue(pccg_storage::document::DocumentArrayValue { values: None }),
    );
    let err = Job::from_document(&doc).unwrap_err();
    assert_eq!(
        err,
        DecodeError::Field {
            field: "character_ids".to_owned(),
            error: FieldError::EmptyArray,
        }
    );
}

#[test]
fn document_extract_double_coerces_collapsed_integers() {
    let mut fields: StrMap<DocumentField> = StrMap::new();
    fields.insert("ratio".to_owned(), DocumentField::IntegerValue("12".to_owned()));
    fields.insert("scale".to_owned(), DocumentField::DoubleValue(bits(1.5)));
    let doc = Document::new(fields);
    assert_eq!(doc.extract_double("ratio").unwrap(), bits(12.0));
    assert_eq!(doc.extract_double("scale").unwrap(), bits(1.5));
    assert_eq!(
        doc.extract_double("absent").unwrap_err(),
        DecodeError::MissingField { field: "absent".to_owned() }
    );
}
