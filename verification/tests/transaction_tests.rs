//! The transaction state machine, the retry policy, the response
//! classification, and the token manager's scheduling.

use pccg_storage::client::{
    begin_transaction_options, bearer_value, classify_commit_status, classify_create_response,
    classify_get_status, classify_plain_status, commit_uri, rollback_uri, FirestoreClient,
    GetStatus, RemoteErrorStatus, TransactionOptions,
};
use pccg_storage::codec::DocumentCodec;
use pccg_storage::engine::{
    experience_add, AddOrUpdateOperation, Error as EngineError, ErrorCategory, ErrorCode,
};
use pccg_storage::errors::Error;
use pccg_storage::id::Id;
use pccg_storage::models::user::User;
use pccg_storage::retry::{RetryDecision, RetryPolicy, RETRY_DELAY_MILLIS};
use pccg_storage::server_config::ServerConfig;
use pccg_storage::timestamp::Timestamp;
use pccg_storage::token::{build_claims, classify_token_exchange, refresh_delay_secs, TokenState};
use pccg_storage::transaction::{TransactionType, Write};

fn client() -> FirestoreClient {
    FirestoreClient::new("demo-project", None, "users".to_owned())
}

fn user_id() -> Id {
    Id::parse("00000000-0000-0000-0000-000000000000").unwrap()
}

#[test]
fn writes_are_buffered_in_order_and_sent_only_at_commit() {
    let c = client();
    let mut t = c.make_transaction("tok-1".to_owned(), TransactionType::ReadWrite);
    let id = user_id();
    let user = User::new(id.clone());

    c.buffer_upsert(&mut t, &id, &user).unwrap();
    c.buffer_delete(&mut t, &id).unwrap();

    let req = t.commit_writes().unwrap();
    assert_eq!(req.transaction, "tok-1");
    assert_eq!(req.writes.len(), 2);
    match &req.writes[0] {
        Write::Update { update } => {
            assert_eq!(
                update.name,
                format!(
                    "projects/demo-project/databases/(default)/documents/users/{}",
                    id.as_str()
                )
            );
        },
        other => panic!("expected an update first, got {:?}", other),
    }
    match &req.writes[1] {
        Write::Delete { delete } => {
            assert!(delete.ends_with(id.as_str()));
        },
        other => panic!("expected a delete second, got {:?}", other),
    }
    assert_eq!(
        commit_uri(&req),
        format!("https://firestore.googleapis.com/v1/{}:commit", req.database)
    );
}

#[test]
fn commit_or_abort_twice_is_an_invalid_state_error() {
    let c = client();
    let mut t = c.make_transaction("tok-2".to_owned(), TransactionType::ReadWrite);
    assert!(t.commit_writes().is_ok());
    assert_eq!(t.commit_writes().unwrap_err(), Error::InvalidState);
    assert_eq!(t.abort().unwrap_err(), Error::InvalidState);

    let mut t2 = c.make_transaction("tok-3".to_owned(), TransactionType::ReadWrite);
    let roll = t2.abort().unwrap();
    assert_eq!(roll.transaction, "tok-3");
    assert_eq!(
        rollback_uri(&roll),
        format!("https://firestore.googleapis.com/v1/{}:rollback", roll.database)
    );
    assert_eq!(t2.abort().unwrap_err(), Error::InvalidState);
    assert_eq!(t2.commit_writes().unwrap_err(), Error::InvalidState);
}

#[test]
fn buffering_after_finalization_is_an_invalid_state_error() {
    let c = client();
    let mut t = c.make_transaction("tok-4".to_owned(), TransactionType::ReadWrite);
    t.commit_writes().unwrap();
    let err = c.buffer_upsert(&mut t, &user_id(), &User::new(user_id())).unwrap_err();
    assert_eq!(err, Error::InvalidState);
}

#[test]
fn read_only_transactions_reject_writes() {
    let c = client();
    let mut t = c.make_transaction("tok-5".to_owned(), TransactionType::ReadOnly);
    let err = c.buffer_upsert(&mut t, &user_id(), &User::new(user_id())).unwrap_err();
    assert_eq!(err, Error::InvalidState);
    // Aborting is still the proper way to let the snapshot go.
    assert!(t.abort().is_ok());
}

#[test]
fn discarded_open_transaction_asks_for_a_rollback() {
    let c = client();
    let mut t = c.make_transaction("tok-6".to_owned(), TransactionType::ReadWrite);
    let req = t.rollback_request_if_open().unwrap();
    assert_eq!(req.transaction, "tok-6");
    t.commit_writes().unwrap();
    assert!(t.rollback_request_if_open().is_none());
}

#[test]
fn second_get_for_same_id_uses_the_cache() {
    let c = client();
    let mut t = c.make_transaction("tok-7".to_owned(), TransactionType::ReadWrite);
    let id = user_id();
    let user = User::new(id.clone());

    // First get: a fetch is planned, the fetched document is recorded.
    let planned = c.plan_get(&id, Some(&t));
    let uri = planned.expect("first get must fetch");
    assert!(uri.contains("?transaction="));
    let name = c.doc_name(&id);
    let mut doc = user.to_document();
    doc.name = name.clone();
    t.cache_read(name.clone(), doc);

    // Second get: no fetch, and the cached decode is the same value.
    assert!(c.plan_get(&id, Some(&t)).is_none());
    let cached: User = pccg_storage::client::get_from_cache(&t, name.as_str())
        .expect("cache hit")
        .expect("cached decode");
    assert_eq!(cached, user);

    // Outside a transaction every get fetches.
    assert!(c.plan_get(&id, None).is_some());
}

#[test]
fn transaction_pinned_get_percent_encodes_the_token() {
    let c = client();
    let t = c.make_transaction("ab+/cd".to_owned(), TransactionType::ReadOnly);
    let uri = c.get_uri(c.doc_name(&user_id()).as_str(), Some(&t));
    assert!(uri.ends_with("?transaction=ab%2B%2Fcd"), "{}", uri);
}

#[test]
fn response_classification_follows_the_protocol() {
    assert_eq!(classify_get_status(200), GetStatus::Found);
    assert_eq!(classify_get_status(404), GetStatus::NotFound);
    assert_eq!(classify_get_status(500), GetStatus::Failed);

    assert!(classify_commit_status(200).is_ok());
    assert!(matches!(classify_commit_status(409), Err(Error::Transaction(_))));
    assert!(classify_commit_status(409).unwrap_err().is_retryable());
    assert!(matches!(classify_commit_status(503), Err(Error::Other(_))));
    assert!(!classify_commit_status(503).unwrap_err().is_retryable());

    assert!(classify_create_response(200, None).is_ok());
    assert!(matches!(
        classify_create_response(409, Some(RemoteErrorStatus::AlreadyExists)),
        Err(Error::Conflict(_))
    ));
    assert!(matches!(
        classify_create_response(409, Some(RemoteErrorStatus::Aborted)),
        Err(Error::Transaction(_))
    ));
    assert!(matches!(
        classify_create_response(500, Some(RemoteErrorStatus::Unrecognized)),
        Err(Error::Other(_))
    ));
    assert!(matches!(classify_create_response(500, None), Err(Error::Other(_))));

    assert!(classify_plain_status(200).is_ok());
    assert!(matches!(classify_plain_status(404), Err(Error::Other(_))));

    assert!(classify_token_exchange(200).is_ok());
    assert!(matches!(classify_token_exchange(401), Err(Error::Auth(_))));
}

#[test]
fn retry_policy_retries_contention_up_to_the_bound() {
    let mut p = RetryPolicy::new();
    assert_eq!(
        p.decide(ErrorCategory::InternalRetryable),
        RetryDecision::Retry { delay_millis: RETRY_DELAY_MILLIS }
    );
    assert_eq!(
        p.decide(ErrorCategory::InternalRetryable),
        RetryDecision::Retry { delay_millis: RETRY_DELAY_MILLIS }
    );
    assert_eq!(p.decide(ErrorCategory::InternalRetryable), RetryDecision::GiveUp);
}

#[test]
fn retry_policy_short_circuits_non_retryable_errors() {
    let mut p = RetryPolicy::new();
    assert_eq!(p.decide(ErrorCategory::BadRequest), RetryDecision::GiveUp);
    let mut p2 = RetryPolicy::new();
    assert_eq!(p2.decide(ErrorCategory::FailedPrecondition), RetryDecision::GiveUp);
    let mut p3 = RetryPolicy::new();
    assert_eq!(p3.decide(ErrorCategory::Internal), RetryDecision::GiveUp);
}

#[test]
fn storage_contention_classifies_as_retryable() {
    let e = EngineError::from(Error::Transaction("contention".to_owned()));
    assert!(matches!(e.code, ErrorCode::StorageTransaction));
    assert!(matches!(e.classify(), ErrorCategory::InternalRetryable));

    let e2 = EngineError::from(Error::Other("boom".to_owned()));
    assert!(matches!(e2.code, ErrorCode::StorageGeneric));
    assert!(matches!(e2.classify(), ErrorCategory::Internal));

    let e3 = EngineError::new(ErrorCode::InsufficientFunds, None);
    assert!(matches!(e3.classify(), ErrorCategory::FailedPrecondition));
    let e4 = EngineError::new(ErrorCode::UserNotFound, None);
    assert!(matches!(e4.classify(), ErrorCategory::BadRequest));
}

#[test]
fn token_refresh_schedule_is_clamped() {
    assert_eq!(refresh_delay_secs(3600), 3000);
    assert_eq!(refresh_delay_secs(601), 1);
    // A token shorter than the lead time must not drive the delay through
    // zero: the schedule falls back to the prompt retry delay.
    assert_eq!(refresh_delay_secs(600), 10);
    assert_eq!(refresh_delay_secs(5), 10);
    assert_eq!(refresh_delay_secs(0), 10);
}

#[test]
fn token_state_keeps_the_old_token_on_failure() {
    let mut s = TokenState::new("tok-a".to_owned(), 3600);
    assert_eq!(s.current_token().as_str(), "tok-a");
    assert_eq!(s.next_refresh_delay(), 3000);
    let delay = s.on_refresh_failure();
    assert_eq!(delay, 10);
    assert_eq!(s.current_token().as_str(), "tok-a");
    s.on_refresh_success("tok-b".to_owned(), 1800);
    assert_eq!(s.current_token().as_str(), "tok-b");
    assert_eq!(s.next_refresh_delay(), 1200);
}

#[test]
fn assertion_claims_expire_one_hour_after_issuance() {
    let claims = build_claims("svc@example.test", 1700000000);
    assert_eq!(claims.iss, "svc@example.test");
    assert_eq!(claims.scope, "https://www.googleapis.com/auth/datastore");
    assert_eq!(claims.aud, "https://oauth2.googleapis.com/token");
    assert_eq!(claims.iat, 1700000000);
    assert_eq!(claims.exp, 1700000000 + 3600);
}

#[test]
fn begin_options_pin_the_read_time_for_read_only() {
    let now = Timestamp::new(1700000000, 123456789);
    match begin_transaction_options(TransactionType::ReadOnly, now) {
        TransactionOptions::ReadOnly { read_time } => {
            assert_eq!(read_time.seconds, 1700000000);
            assert_eq!(read_time.nanos, 123456000);
        },
        other => panic!("expected a read-only option, got {:?}", other),
    }
    assert!(matches!(
        begin_transaction_options(TransactionType::ReadWrite, now),
        TransactionOptions::ReadWrite
    ));
}

#[test]
fn bearer_header_carries_the_token() {
    assert_eq!(bearer_value("abc"), "Bearer abc");
}

#[test]
fn server_config_reads_the_port_argument() {
    let args = vec!["prog".to_owned(), "8080".to_owned()];
    assert_eq!(ServerConfig::new(&args).unwrap().port, 8080);
    let missing = ServerConfig::new(&["prog".to_owned()]).unwrap_err();
    assert_eq!(missing.0, "Missing argument for port");
    let not_a_number = ServerConfig::new(&["prog".to_owned(), "eighty".to_owned()]).unwrap_err();
    assert_eq!(not_a_number.0, "Port is not a valid number");
    let out_of_range = ServerConfig::new(&["prog".to_owned(), "70000".to_owned()]).unwrap_err();
    assert_eq!(out_of_range.0, "Port is not a valid number");
}

#[test]
fn experience_carries_into_levels() {
    assert_eq!(experience_add(1, 50, 75), (2, 25));
    assert_eq!(experience_add(3, 0, 0), (3, 0));
    assert_eq!(experience_add(1, 99, 1), (2, 0));
    assert_eq!(experience_add(1, 0, 250), (3, 50));
}

#[test]
fn add_or_update_is_update_exactly_when_it_existed() {
    let existed: Option<()> = Some(());
    let op = match existed {
        Some(_) => AddOrUpdateOperation::Update,
        None => AddOrUpdateOperation::Add,
    };
    assert_eq!(op, AddOrUpdateOperation::Update);
}
