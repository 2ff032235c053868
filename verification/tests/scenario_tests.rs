//! End-to-end scenarios against an in-process stand-in for the remote
//! store: optimistic transactions with buffered writes, contention on
//! commit, batch reads merged by name, and paged listing.

use pccg_storage::client::{
    classify_commit_status, classify_create_response, classify_get_status, get_from_cache,
    record_and_decode, FirestoreClient, GetStatus, RemoteErrorStatus,
};
use pccg_storage::codec::DocumentCodec;
use pccg_storage::document::Document;
use pccg_storage::errors::Error;
use pccg_storage::id::Id;
use pccg_storage::models::character::Character;
use pccg_storage::models::user::User;
use pccg_storage::pagination::ListRun;
use pccg_storage::transaction::{CommitRequest, Transaction, TransactionType, Write};
use std::collections::HashMap;

/// A tiny in-process document store with per-document versions and
/// first-committer-wins conflict detection, standing in for the remote
/// service.
struct FakeStore {
    users: HashMap<String, User>,
    characters: HashMap<String, Character>,
    versions: HashMap<String, u64>,
    tx_reads: HashMap<String, Vec<(String, u64)>>,
    next_token: u32,
}

impl FakeStore {
    fn new() -> FakeStore {
        FakeStore {
            users: HashMap::new(),
            characters: HashMap::new(),
            versions: HashMap::new(),
            tx_reads: HashMap::new(),
            next_token: 0,
        }
    }

    fn begin(&mut self) -> String {
        self.next_token += 1;
        let token = format!("tx-{}", self.next_token);
        self.tx_reads.insert(token.clone(), Vec::new());
        token
    }

    fn version(&self, name: &str) -> u64 {
        *self.versions.get(name).unwrap_or(&0)
    }

    fn user_doc(&self, name: &str) -> Option<Document> {
        self.users.get(name).map(|u| {
            let mut doc = u.to_document();
            doc.name = name.to_owned();
            doc
        })
    }

    fn character_doc(&self, name: &str) -> Option<Document> {
        self.characters.get(name).map(|c| {
            let mut doc = c.to_document();
            doc.name = name.to_owned();
            doc
        })
    }

    /// GET of one document; a transaction id pins the read and records the
    /// version it saw.
    fn get(&mut self, name: &str, tx: Option<&str>) -> (u16, Option<Document>) {
        let doc = self.user_doc(name).or_else(|| self.character_doc(name));
        if let (Some(token), Some(_)) = (tx, &doc) {
            let v = self.version(name);
            self.tx_reads.get_mut(token).unwrap().push((name.to_owned(), v));
        }
        match doc {
            Some(d) => (200, Some(d)),
            None => (404, None),
        }
    }

    /// POST create: conflict when the id already exists.
    fn create_user(&mut self, name: &str, user: &User) -> (u16, Option<RemoteErrorStatus>) {
        if self.users.contains_key(name) {
            return (409, Some(RemoteErrorStatus::AlreadyExists));
        }
        self.users.insert(name.to_owned(), user.clone());
        self.bump(name);
        (200, None)
    }

    fn bump(&mut self, name: &str) {
        let v = self.version(name) + 1;
        self.versions.insert(name.to_owned(), v);
    }

    /// The atomic commit: rejected with contention when any document this
    /// transaction read has changed since; otherwise every buffered write
    /// is applied.
    fn commit(&mut self, req: &CommitRequest) -> u16 {
        let reads = self.tx_reads.remove(&req.transaction).unwrap_or_default();
        for (name, seen) in &reads {
            if self.version(name) != *seen {
                return 409;
            }
        }
        for w in &req.writes {
            match w {
                Write::Update { update } => {
                    let name = update.name.clone();
                    if name.contains("/characters/") {
                        let character = Character::from_document(update).unwrap();
                        self.characters.insert(name.clone(), character);
                    } else {
                        let user = User::from_document(update).unwrap();
                        self.users.insert(name.clone(), user);
                    }
                    self.bump(&name);
                },
                Write::Delete { delete } => {
                    self.users.remove(delete);
                    self.characters.remove(delete);
                    self.bump(delete);
                },
            }
        }
        200
    }

    /// One page of the characters collection, with a continuation token
    /// while more pages follow.
    fn list_characters_page(
        &self,
        page_size: usize,
        page_token: Option<&String>,
    ) -> (Vec<Document>, Option<String>) {
        let mut names: Vec<&String> = self.characters.keys().collect();
        names.sort();
        let start: usize = match page_token {
            Some(t) => t.parse().unwrap(),
            None => 0,
        };
        let end = (start + page_size).min(names.len());
        let docs = names[start..end]
            .iter()
            .map(|n| self.character_doc(n).unwrap())
            .collect();
        let next = if end < names.len() { Some(end.to_string()) } else { None };
        (docs, next)
    }
}

fn users_client() -> FirestoreClient {
    FirestoreClient::new("demo-project", None, "users".to_owned())
}

fn characters_client(user_id: &Id) -> FirestoreClient {
    let users = users_client();
    FirestoreClient::new_for_subcollection(
        &users,
        user_id.as_str().to_owned(),
        "characters".to_owned(),
    )
}

/// The application-side `get` driver: cache first, then one pinned fetch,
/// recording the fetched document in the transaction.
fn get_user(
    c: &FirestoreClient,
    store: &mut FakeStore,
    t: &mut Transaction,
    id: &Id,
) -> Result<Option<User>, Error> {
    let name = c.doc_name(id);
    if let Some(hit) = get_from_cache::<User>(t, name.as_str()) {
        return hit.map(Some);
    }
    let _uri = c.plan_get(id, Some(t)).expect("a miss plans a fetch");
    let (status, doc) = store.get(name.as_str(), Some(t.transaction_id().as_str()));
    match classify_get_status(status) {
        GetStatus::Found => {
            record_and_decode::<User>(t, name, doc.unwrap()).map(Some)
        },
        GetStatus::NotFound => Ok(None),
        GetStatus::Failed => Err(Error::Other("unexpected status".to_owned())),
    }
}

#[test]
fn decrement_and_new_character_commit_atomically() {
    let mut store = FakeStore::new();
    let c_users = users_client();
    let uid = Id::parse("00000000-0000-0000-0000-000000000010").unwrap();
    let c_chars = characters_client(&uid);
    let user_name = c_users.doc_name(&uid);

    let mut u = User::new(uid.clone());
    u.currency = 500;
    store.users.insert(user_name.clone(), u);
    store.bump(&user_name);

    // Begin a ReadWrite transaction, read the user, buffer a decrement and
    // a new character document.
    let mut t = c_users.make_transaction(store.begin(), TransactionType::ReadWrite);
    let read = get_user(&c_users, &mut store, &mut t, &uid).unwrap().unwrap();
    assert_eq!(read.currency, 500);

    let mut updated = read.clone();
    updated.currency = 450;
    c_users.buffer_upsert(&mut t, &uid, &updated).unwrap();

    let cid = Id::parse("11111111-2222-3333-4444-555555555510").unwrap();
    let proto = Id::parse("8f2b4a1c-3d5e-4f60-9a7b-0c1d2e3f4a5b").unwrap();
    let character = Character::new(cid.clone(), proto);
    c_chars.buffer_upsert(&mut t, &cid, &character).unwrap();

    // Buffered writes have no effect before commit.
    assert_eq!(store.users.get(&user_name).unwrap().currency, 500);
    assert!(store.characters.is_empty());

    let req = t.commit_writes().unwrap();
    let status = store.commit(&req);
    classify_commit_status(status).unwrap();

    // A fresh read sees 450, and the character is listable.
    let (status, doc) = store.get(user_name.as_str(), None);
    assert_eq!(classify_get_status(status), GetStatus::Found);
    let fresh = User::from_document(&doc.unwrap()).unwrap();
    assert_eq!(fresh.currency, 450);

    let mut run: ListRun<Character> = ListRun::new();
    let mut token: Option<String> = None;
    loop {
        let (docs, next) = store.list_characters_page(1, token.as_ref());
        run.feed_page(&docs, next.clone()).unwrap();
        if next.is_none() {
            break;
        }
        token = next;
    }
    let listed = run.into_items();
    assert_eq!(listed, vec![character]);
}

#[test]
fn concurrent_decrements_let_exactly_one_commit_win() {
    let mut store = FakeStore::new();
    let c_users = users_client();
    let uid = Id::parse("00000000-0000-0000-0000-000000000020").unwrap();
    let name = c_users.doc_name(&uid);

    let mut u = User::new(uid.clone());
    u.currency = 100;
    store.users.insert(name.clone(), u);
    store.bump(&name);

    let mut t1 = c_users.make_transaction(store.begin(), TransactionType::ReadWrite);
    let mut t2 = c_users.make_transaction(store.begin(), TransactionType::ReadWrite);

    // Both read the same snapshot of the counter.
    let r1 = get_user(&c_users, &mut store, &mut t1, &uid).unwrap().unwrap();
    let r2 = get_user(&c_users, &mut store, &mut t2, &uid).unwrap().unwrap();
    assert_eq!(r1.currency, 100);
    assert_eq!(r2.currency, 100);

    let mut w1 = r1.clone();
    w1.currency = 99;
    c_users.buffer_upsert(&mut t1, &uid, &w1).unwrap();
    let mut w2 = r2.clone();
    w2.currency = 99;
    c_users.buffer_upsert(&mut t2, &uid, &w2).unwrap();

    let first = classify_commit_status(store.commit(&t1.commit_writes().unwrap()));
    let second = classify_commit_status(store.commit(&t2.commit_writes().unwrap()));

    assert!(first.is_ok());
    let err = second.unwrap_err();
    assert!(matches!(err, Error::Transaction(_)));
    assert!(err.is_retryable());
    assert_eq!(store.users.get(&name).unwrap().currency, 99);
}

#[test]
fn absent_document_reads_as_none_and_existing_id_conflicts() {
    let mut store = FakeStore::new();
    let c_users = users_client();
    let missing = Id::parse("99999999-9999-9999-9999-999999999999").unwrap();
    let name = c_users.doc_name(&missing);

    // A get for a nonexistent id is an absent value, not an error.
    let mut t = c_users.make_transaction(store.begin(), TransactionType::ReadWrite);
    let read = get_user(&c_users, &mut store, &mut t, &missing).unwrap();
    assert!(read.is_none());
    t.abort().unwrap();

    // An insert for an id that already exists is a conflict.
    let existing = Id::parse("00000000-0000-0000-0000-000000000030").unwrap();
    let user = User::new(existing.clone());
    let (create_uri, _doc) = c_users.create_request(&existing, &user);
    assert!(create_uri.ends_with(&format!("?documentId={}", existing.as_str())));
    let ename = c_users.doc_name(&existing);
    let (status, remote) = store.create_user(ename.as_str(), &user);
    classify_create_response(status, remote).unwrap();
    let (status2, remote2) = store.create_user(ename.as_str(), &user);
    let err = classify_create_response(status2, remote2).unwrap_err();
    assert!(matches!(err, Error::Conflict(_)));
    let _ = name;
}

#[test]
fn batch_get_merges_cache_fetch_and_missing_by_id() {
    let mut store = FakeStore::new();
    let c_users = users_client();
    let a = Id::parse("00000000-0000-0000-0000-00000000004a").unwrap();
    let b = Id::parse("00000000-0000-0000-0000-00000000004b").unwrap();
    let missing = Id::parse("99999999-9999-9999-9999-999999999999").unwrap();

    let mut ua = User::new(a.clone());
    ua.currency = 1;
    let mut ub = User::new(b.clone());
    ub.currency = 2;
    let name_a = c_users.doc_name(&a);
    let name_b = c_users.doc_name(&b);
    store.users.insert(name_b.clone(), ub.clone());
    store.bump(&name_b);

    // `a` is already cached under the transaction; only `b` and the
    // missing id go on the wire.
    let mut t = c_users.make_transaction(store.begin(), TransactionType::ReadWrite);
    let mut cached_doc = ua.to_document();
    cached_doc.name = name_a.clone();
    t.cache_read(name_a.clone(), cached_doc);

    let ids = vec![a.clone(), b.clone(), missing.clone()];
    let to_fetch = c_users.batch_fetch_names(&ids, &t);
    assert_eq!(to_fetch.len(), 2);
    assert_eq!(to_fetch[0], name_b);
    assert_eq!(to_fetch[1], c_users.doc_name(&missing));

    let mut fetched: Vec<(String, Option<Document>)> = Vec::new();
    for n in &to_fetch {
        let (status, doc) = store.get(n.as_str(), Some(t.transaction_id().as_str()));
        fetched.push((n.clone(), if status == 200 { doc } else { None }));
    }

    let merged: Vec<(Id, Option<User>)> =
        c_users.merge_batch_results(&ids, Some(&t), &fetched).unwrap();
    assert_eq!(merged.len(), 3);
    assert_eq!(merged[0].0, a);
    assert_eq!(merged[0].1.as_ref().unwrap().currency, 1);
    assert_eq!(merged[1].0, b);
    assert_eq!(merged[1].1.as_ref().unwrap().currency, 2);
    assert_eq!(merged[2].0, missing);
    assert!(merged[2].1.is_none());
}

#[test]
fn listing_accumulates_every_page_in_order() {
    let mut store = FakeStore::new();
    let uid = Id::parse("00000000-0000-0000-0000-000000000050").unwrap();
    let c_chars = characters_client(&uid);
    let proto = Id::parse("8f2b4a1c-3d5e-4f60-9a7b-0c1d2e3f4a5b").unwrap();

    let mut expected: Vec<Character> = Vec::new();
    for i in 0..5u32 {
        let cid = Id::parse(&format!("11111111-2222-3333-4444-55555555550{}", i)).unwrap();
        let ch = Character::new(cid.clone(), proto.clone());
        let name = c_chars.doc_name(&cid);
        store.characters.insert(name.clone(), ch.clone());
        store.bump(&name);
        expected.push(ch);
    }

    // Page size 2: three pages, the last one short.
    let mut run: ListRun<Character> = ListRun::new();
    let mut token: Option<String> = None;
    let mut pages = 0;
    loop {
        assert!(run.next_uri(&c_chars).is_some());
        let (docs, next) = store.list_characters_page(2, token.as_ref());
        run.feed_page(&docs, next.clone()).unwrap();
        pages += 1;
        if next.is_none() {
            break;
        }
        token = next;
    }
    assert_eq!(pages, 3);
    assert!(run.next_uri(&c_chars).is_none());
    let listed = run.into_items();
    assert_eq!(listed, expected);
}

#[test]
fn listing_an_empty_collection_yields_nothing() {
    let store = FakeStore::new();
    let uid = Id::parse("00000000-0000-0000-0000-000000000060").unwrap();
    let c_chars = characters_client(&uid);
    let mut run: ListRun<Character> = ListRun::new();
    let (docs, next) = store.list_characters_page(2, None);
    assert!(docs.is_empty());
    assert!(next.is_none());
    run.feed_page(&docs, next).unwrap();
    assert!(run.next_uri(&c_chars).is_none());
    assert!(run.into_items().is_empty());
}

#[test]
fn list_page_with_undecodable_document_fails_the_run() {
    let mut store = FakeStore::new();
    let uid = Id::parse("00000000-0000-0000-0000-000000000070").unwrap();
    let c_chars = characters_client(&uid);
    let proto = Id::parse("8f2b4a1c-3d5e-4f60-9a7b-0c1d2e3f4a5b").unwrap();
    let cid = Id::parse("11111111-2222-3333-4444-555555555570").unwrap();
    let ch = Character::new(cid.clone(), proto);
    let name = c_chars.doc_name(&cid);
    store.characters.insert(name, ch);

    let (mut docs, next) = store.list_characters_page(10, None);
    // A record of the wrong shape in the same collection: a data-integrity
    // fault, surfaced as an error, never a silently dropped item.
    let mut broken = Document::new(pccg_storage::strmap::StrMap::new());
    broken.name = c_chars.doc_name(&Id::parse("22222222-3333-4444-5555-666666666670").unwrap());
    docs.push(broken);

    let mut run: ListRun<Character> = ListRun::new();
    let err = run.feed_page(&docs, next).unwrap_err();
    assert!(matches!(err, Error::Decode(_)));
    // The run is left as it was: still not done, nothing accumulated.
    assert!(run.next_uri(&c_chars).is_some());
}

#[test]
fn batch_get_with_undecodable_document_fails_the_merge() {
    let c_users = users_client();
    let a = Id::parse("00000000-0000-0000-0000-00000000008a").unwrap();
    let name_a = c_users.doc_name(&a);
    let mut broken = Document::new(pccg_storage::strmap::StrMap::new());
    broken.name = name_a.clone();

    let ids = vec![a.clone()];
    let fetched: Vec<(String, Option<Document>)> = vec![(name_a, Some(broken))];
    let err = c_users
        .merge_batch_results::<User>(&ids, None, &fetched)
        .unwrap_err();
    assert!(matches!(err, Error::Decode(_)));
}
