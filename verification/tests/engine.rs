use films::attribute::{AttributeValue, DeleteRequest, Item, PutRequest, WriteRequest};
use films::ddb::batch::{unprocessed_count, Batch, UnprocessedSet, CHUNK_SIZE};
use films::ddb::error::StoreError;
use films::ddb::lifecycle::{
    contains_name, Lifecycle, Outcome, Reply, Request, TABLE_WAIT_POLLS, TABLE_WAIT_TIMEOUT,
};
use films::ddb::table::{ScalarType, TableDescriptor, TableStatus};
use films::ddb::writer::{BatchWriter, WriteReply};
use films::ddb::{
    await_table, bulk_load_data, create_table, ensure_ready, initialize, table_exists, write_batch,
    CAPACITY,
};
use films::models::Film;

fn numbered_films(n: usize) -> Vec<Film> {
    (0..n)
        .map(|i| Film::new(1900 + i as i32, format!("film {}", i)))
        .collect()
}

fn numbered_ops(n: usize) -> Vec<WriteRequest> {
    numbered_films(n)
        .iter()
        .map(|f| WriteRequest::put(PutRequest::from_film(f)))
        .collect()
}

fn film_of(op: &WriteRequest) -> Film {
    Film::from_item(op.put_request().unwrap().item().unwrap())
}

fn films_of(ops: &Vec<WriteRequest>) -> Vec<Film> {
    ops.iter().map(film_of).collect()
}

/// What a stub store saw: the requests it was given, in order.
struct StubStore {
    tables: Result<Vec<String>, String>,
    create_fails: bool,
    statuses: Vec<Result<Option<TableStatus>, String>>,
    seen: Vec<String>,
    slept: u64,
}

fn stub_store(tables: &[&str], statuses: Vec<Result<Option<TableStatus>, String>>) -> StubStore {
    StubStore {
        tables: Ok(tables.iter().map(|t| t.to_string()).collect()),
        create_fails: false,
        statuses,
        seen: vec![],
        slept: 0,
    }
}

fn drive(started: (Lifecycle, Request), store: &mut StubStore) -> Result<Outcome, StoreError> {
    let (mut state, mut request) = started;
    let mut polls = 0;
    loop {
        assert_eq!(state.request(), request);
        let reply = match request {
            Request::ListTables => {
                store.seen.push("list".to_string());
                match &store.tables {
                    Ok(names) => Reply::Tables(names.clone()),
                    Err(reason) => Reply::Failed(reason.clone()),
                }
            }
            Request::CreateTable(descriptor) => {
                store.seen.push(format!("create {}", descriptor.table_name));
                if store.create_fails {
                    Reply::Failed("create failed".to_string())
                } else {
                    Reply::Created
                }
            }
            Request::DescribeTable(name) => {
                store.seen.push(format!("describe {}", name));
                let status = store.statuses[polls].clone();
                polls += 1;
                match status {
                    Ok(s) => Reply::Described(s),
                    Err(reason) => Reply::Failed(reason),
                }
            }
            Request::Sleep(seconds) => {
                store.slept += seconds;
                Reply::Slept
            }
            Request::BulkLoad(name) => {
                store.seen.push(format!("load {}", name));
                Reply::Loaded
            }
            Request::Finish(result) => return result,
        };
        request = state.step(reply);
    }
}

fn count_seen(store: &StubStore, prefix: &str) -> usize {
    store.seen.iter().filter(|s| s.starts_with(prefix)).count()
}

#[test]
fn existing_table_is_ready_without_create() {
    let mut store = stub_store(&["other", "films"], vec![]);
    let result = drive(initialize("films"), &mut store);
    assert_eq!(result, Ok(Outcome::Ready));
    assert_eq!(store.seen, vec!["list".to_string()]);
    assert_eq!(store.slept, 0);
}

#[test]
fn missing_table_is_created_once_polled_and_loaded() {
    let mut store = stub_store(
        &["other"],
        vec![
            Ok(Some(TableStatus::Creating)),
            Ok(None),
            Ok(Some(TableStatus::Active)),
        ],
    );
    let result = drive(initialize("films"), &mut store);
    assert_eq!(result, Ok(Outcome::CreatedAndReady));
    assert_eq!(
        store.seen,
        vec![
            "list".to_string(),
            "create films".to_string(),
            "describe films".to_string(),
            "describe films".to_string(),
            "describe films".to_string(),
            "load films".to_string(),
        ]
    );
    assert_eq!(store.slept, 20);
}

#[test]
fn table_active_at_first_poll_is_not_waited_for() {
    let mut store = stub_store(&[], vec![Ok(Some(TableStatus::Active))]);
    assert_eq!(drive(initialize("films"), &mut store), Ok(Outcome::CreatedAndReady));
    assert_eq!(count_seen(&store, "create"), 1);
    assert_eq!(count_seen(&store, "describe"), 1);
    assert_eq!(store.slept, 0);
}

#[test]
fn table_active_at_sixth_poll_is_ready() {
    let mut statuses = vec![Ok(Some(TableStatus::Creating)); 5];
    statuses.push(Ok(Some(TableStatus::Active)));
    let mut store = stub_store(&[], statuses);
    assert_eq!(drive(initialize("films"), &mut store), Ok(Outcome::CreatedAndReady));
    assert_eq!(count_seen(&store, "describe"), 6);
    assert_eq!(store.slept, 50);
}

#[test]
fn never_active_table_fails_after_six_polls() {
    let mut store = stub_store(&[], vec![Ok(Some(TableStatus::Creating)); 10]);
    let result = drive(initialize("films"), &mut store);
    assert_eq!(result, Err(StoreError::TableNotReady("films".to_string())));
    assert_eq!(count_seen(&store, "create"), 1);
    assert_eq!(count_seen(&store, "describe"), 6);
    assert_eq!(count_seen(&store, "load"), 0);
    assert_eq!(store.slept, 60);
    assert_eq!(TABLE_WAIT_POLLS, 6);
    assert_eq!(TABLE_WAIT_TIMEOUT, 10);
}

#[test]
fn every_status_but_active_keeps_polling() {
    let mut store = stub_store(
        &[],
        vec![
            Ok(Some(TableStatus::Updating)),
            Ok(Some(TableStatus::Deleting)),
            Ok(Some(TableStatus::Archiving)),
            Ok(Some(TableStatus::Archived)),
            Ok(Some(TableStatus::InaccessibleEncryptionCredentials)),
            Ok(Some(TableStatus::Unknown)),
        ],
    );
    assert_eq!(
        drive(initialize("films"), &mut store),
        Err(StoreError::TableNotReady("films".to_string()))
    );
    assert_eq!(count_seen(&store, "describe"), 6);
}

#[test]
fn failed_listing_is_handed_on() {
    let mut store = stub_store(&[], vec![]);
    store.tables = Err("no route".to_string());
    assert_eq!(
        drive(initialize("films"), &mut store),
        Err(StoreError::StoreUnavailable("no route".to_string()))
    );
    assert_eq!(store.seen, vec!["list".to_string()]);
}

#[test]
fn failed_create_is_handed_on() {
    let mut store = stub_store(&[], vec![]);
    store.create_fails = true;
    assert_eq!(
        drive(initialize("films"), &mut store),
        Err(StoreError::StoreUnavailable("create failed".to_string()))
    );
    assert_eq!(count_seen(&store, "describe"), 0);
}

#[test]
fn failed_describe_is_handed_on() {
    let mut store = stub_store(
        &[],
        vec![Ok(Some(TableStatus::Creating)), Err("throttled".to_string())],
    );
    assert_eq!(
        drive(initialize("films"), &mut store),
        Err(StoreError::StoreUnavailable("throttled".to_string()))
    );
    assert_eq!(count_seen(&store, "describe"), 2);
    assert_eq!(store.slept, 10);
}

#[test]
fn await_table_polls_without_create_or_load() {
    let mut store = stub_store(&[], vec![Ok(None), Ok(Some(TableStatus::Active))]);
    assert_eq!(drive(await_table("films"), &mut store), Ok(Outcome::Ready));
    assert_eq!(
        store.seen,
        vec!["describe films".to_string(), "describe films".to_string()]
    );
    let mut never = stub_store(&[], vec![Ok(None); 6]);
    assert_eq!(
        drive(await_table("films"), &mut never),
        Err(StoreError::TableNotReady("films".to_string()))
    );
    assert_eq!(count_seen(&never, "describe"), 6);
}

#[test]
fn stray_reply_changes_nothing() {
    let (mut state, request) = initialize("films");
    assert_eq!(request, Request::ListTables);
    assert_eq!(state.step(Reply::Slept), Request::ListTables);
    assert_eq!(state.step(Reply::Created), Request::ListTables);
    assert_eq!(state.step(Reply::Tables(vec![])), Request::CreateTable(create_table("films", "year", "title", 10)));
    assert_eq!(state.step(Reply::Loaded), Request::CreateTable(create_table("films", "year", "title", 10)));
    assert_eq!(state.step(Reply::Created), Request::DescribeTable("films".to_string()));
    assert_eq!(
        state.step(Reply::Described(Some(TableStatus::Active))),
        Request::BulkLoad("films".to_string())
    );
    assert_eq!(state.step(Reply::Loaded), Request::Finish(Ok(Outcome::CreatedAndReady)));
    assert_eq!(
        state.step(Reply::Failed("late".to_string())),
        Request::Finish(Ok(Outcome::CreatedAndReady))
    );
}

#[test]
fn ensure_ready_takes_a_valid_descriptor() {
    let descriptor = create_table("books", "isbn", "edition", 3);
    assert!(descriptor.is_valid());
    let mut store = stub_store(&[], vec![Ok(Some(TableStatus::Active))]);
    assert_eq!(drive(ensure_ready(descriptor), &mut store), Ok(Outcome::CreatedAndReady));
    assert_eq!(
        store.seen,
        vec![
            "list".to_string(),
            "create books".to_string(),
            "describe books".to_string(),
            "load books".to_string()
        ]
    );
}

#[test]
fn create_table_sets_keys_and_capacity() {
    let descriptor = create_table("films", "year", "title", CAPACITY);
    assert_eq!(
        descriptor,
        TableDescriptor {
            table_name: "films".to_string(),
            partition_key: "year".to_string(),
            partition_key_type: ScalarType::N,
            sort_key: "title".to_string(),
            sort_key_type: ScalarType::S,
            read_capacity: 10,
            write_capacity: 10,
        }
    );
    assert!(descriptor.is_valid());
    assert_eq!(descriptor.duplicate(), descriptor);
    assert!(!create_table("films", "year", "year", 10).is_valid());
    assert!(!create_table("films", "year", "title", 0).is_valid());
    assert!(!create_table("films", "year", "title", -1).is_valid());
}

#[test]
fn table_exists_tests_membership() {
    let listing = Ok(vec!["a".to_string(), "films".to_string()]);
    assert_eq!(table_exists(&listing, "films"), Ok(true));
    assert_eq!(table_exists(&listing, "film"), Ok(false));
    assert_eq!(table_exists(&Ok(vec![]), "films"), Ok(false));
    assert_eq!(
        table_exists(&Err("denied".to_string()), "films"),
        Err(StoreError::StoreUnavailable("denied".to_string()))
    );
    assert!(contains_name(&vec!["x".to_string()], &"x".to_string()));
    assert!(!contains_name(&vec!["x".to_string()], &"X".to_string()));
}

#[test]
fn error_constructors() {
    assert_eq!(StoreError::table_not_ready("films"), StoreError::TableNotReady("films".to_string()));
    assert_eq!(StoreError::BatchTooLarge(26).duplicate(), StoreError::BatchTooLarge(26));
    assert_eq!(
        StoreError::table_not_ready("t").duplicate(),
        StoreError::TableNotReady("t".to_string())
    );
}

#[test]
fn bulk_load_splits_into_batches_of_25() {
    for (n, sizes) in [
        (0, vec![]),
        (1, vec![1]),
        (24, vec![24]),
        (25, vec![25]),
        (26, vec![25, 1]),
        (50, vec![25, 25]),
        (51, vec![25, 25, 1]),
        (60, vec![25, 25, 10]),
        (137, vec![25, 25, 25, 25, 25, 12]),
    ] {
        let data = numbered_films(n);
        let writers = bulk_load_data("films", &data);
        assert_eq!(writers.len(), (n + 24) / 25);
        let found: Vec<usize> = writers.iter().map(|w| w.next_batch().unwrap().len()).collect();
        assert_eq!(found, sizes);
        let mut joined: Vec<Film> = vec![];
        for writer in &writers {
            assert_eq!(writer.table_name(), "films");
            assert_eq!(writer.outcome(), None);
            joined.extend(films_of(writer.next_batch().unwrap()));
        }
        assert_eq!(joined, data);
    }
    assert_eq!(CHUNK_SIZE, 25);
}

#[test]
fn all_batches_are_there_before_any_is_written() {
    let data = numbered_films(60);
    let mut writers = bulk_load_data("films", &data);
    let mut submitted: Vec<usize> = vec![];
    for writer in &writers {
        submitted.push(writer.next_batch().unwrap().len());
    }
    assert_eq!(submitted, vec![25, 25, 10]);
    for writer in &writers {
        assert_eq!(writer.outcome(), None);
    }
    writers[2].step(WriteReply::Unprocessed(None));
    assert_eq!(writers[2].outcome(), Some(Ok(())));
    writers[0].step(WriteReply::Failed("throttled".to_string()));
    assert_eq!(
        writers[0].outcome(),
        Some(Err(StoreError::StoreUnavailable("throttled".to_string())))
    );
    assert_eq!(writers[1].outcome(), None);
    assert_eq!(writers[1].next_batch().unwrap().len(), 25);
    writers[1].step(WriteReply::Unprocessed(Some(UnprocessedSet::new())));
    assert_eq!(writers[1].outcome(), Some(Ok(())));
}

fn held_back(table: &str, n: usize) -> WriteReply {
    let mut set = UnprocessedSet::new();
    set.insert("other".to_string(), numbered_ops(2));
    set.insert(table.to_string(), numbered_ops(n));
    WriteReply::Unprocessed(Some(set))
}

fn calls_until_written(writer: &mut BatchWriter, k: usize, first: usize) -> usize {
    let mut calls = 0;
    while let Some(ops) = writer.next_batch() {
        if calls == 0 {
            assert_eq!(ops.len(), first);
        } else {
            assert_eq!(films_of(ops), numbered_films(3));
        }
        calls += 1;
        let reply = if calls <= k {
            held_back("films", 3)
        } else {
            WriteReply::Unprocessed(None)
        };
        writer.step(reply);
    }
    calls
}

#[test]
fn write_batch_ends_after_k_plus_one_calls() {
    for k in [0, 1, 2, 7] {
        let batch = Batch::new(numbered_ops(25)).unwrap();
        let mut writer = write_batch("films", batch);
        assert_eq!(calls_until_written(&mut writer, k, 25), k + 1);
        assert_eq!(writer.outcome(), Some(Ok(())));
        assert!(writer.next_batch().is_none());
    }
}

#[test]
fn write_batch_of_nothing_makes_no_call() {
    let batch = Batch::new(vec![]).unwrap();
    assert_eq!(batch.len(), 0);
    let mut writer = write_batch("films", batch);
    assert!(writer.next_batch().is_none());
    assert_eq!(writer.outcome(), Some(Ok(())));
    writer.step(held_back("films", 3));
    assert!(writer.next_batch().is_none());
    assert_eq!(writer.outcome(), Some(Ok(())));
}

#[test]
fn write_batch_stops_at_a_failed_call() {
    let mut writer = write_batch("films", Batch::new(numbered_ops(4)).unwrap());
    writer.step(held_back("films", 3));
    assert_eq!(writer.next_batch().unwrap().len(), 3);
    writer.step(WriteReply::Failed("gone".to_string()));
    assert!(writer.next_batch().is_none());
    assert_eq!(
        writer.outcome(),
        Some(Err(StoreError::StoreUnavailable("gone".to_string())))
    );
    writer.step(WriteReply::Unprocessed(None));
    assert_eq!(
        writer.outcome(),
        Some(Err(StoreError::StoreUnavailable("gone".to_string())))
    );
}

#[test]
fn write_batch_resubmits_only_this_tables_operations() {
    let mut writer = write_batch("films", Batch::new(numbered_ops(5)).unwrap());
    let mut set = UnprocessedSet::new();
    set.insert("other".to_string(), numbered_ops(2));
    writer.step(WriteReply::Unprocessed(Some(set)));
    assert_eq!(writer.outcome(), Some(Ok(())));
}

#[test]
fn batch_of_more_than_25_is_too_large() {
    assert_eq!(Batch::new(numbered_ops(26)).err(), Some(StoreError::BatchTooLarge(26)));
    assert_eq!(Batch::new(numbered_ops(40)).err(), Some(StoreError::BatchTooLarge(40)));
    let batch = Batch::new(numbered_ops(25)).unwrap();
    assert_eq!(batch.len(), 25);
    assert_eq!(films_of(batch.ops()), numbered_films(25));
    assert_eq!(films_of(&batch.into_ops()), numbered_films(25));
}

#[test]
fn unprocessed_count_counts_the_tables_operations() {
    let mut set = UnprocessedSet::new();
    set.insert("a".to_string(), numbered_ops(2));
    set.insert("films".to_string(), numbered_ops(7));
    assert_eq!(unprocessed_count(Some(&set), "films"), 7);
    assert_eq!(set.count("films"), 7);
    assert_eq!(unprocessed_count(Some(&set), "a"), 2);
    assert_eq!(unprocessed_count(Some(&set), "b"), 0);
    assert_eq!(unprocessed_count(None, "films"), 0);
    assert_eq!(unprocessed_count(Some(&UnprocessedSet::new()), "films"), 0);
}

#[test]
fn unprocessed_set_holds_each_table_once() {
    let mut set = UnprocessedSet::new();
    set.insert("films".to_string(), numbered_ops(7));
    set.insert("a".to_string(), numbered_ops(2));
    set.insert("films".to_string(), numbered_ops(1));
    assert_eq!(set.count("films"), 1);
    assert_eq!(set.count("a"), 2);
    assert_eq!(films_of(&set.take("films")), numbered_films(1));
    let mut other = UnprocessedSet::new();
    other.insert("a".to_string(), numbered_ops(3));
    assert_eq!(films_of(&other.take("b")), numbered_films(0));
}

#[test]
fn write_batch_carries_deletes_as_they_are() {
    let mut key = Item::new();
    key.insert("year".into(), AttributeValue::N("1900".into()));
    key.insert("title".into(), AttributeValue::S("film 0".into()));
    let mut ops = numbered_ops(2);
    ops.push(WriteRequest::delete(DeleteRequest::new(Some(key))));
    let mut writer = write_batch("films", Batch::new(ops).unwrap());
    {
        let first = writer.next_batch().unwrap();
        assert_eq!(first.len(), 3);
        assert!(first[2].put_request().is_none());
        assert_eq!(first[2].delete_request().unwrap().key().unwrap().len(), 2);
    }
    let mut left = Item::new();
    left.insert("year".into(), AttributeValue::N("1900".into()));
    let mut set = UnprocessedSet::new();
    set.insert(
        "films".to_string(),
        vec![WriteRequest::delete(DeleteRequest::new(Some(left)))],
    );
    writer.step(WriteReply::Unprocessed(Some(set)));
    let again = writer.next_batch().unwrap();
    assert_eq!(again.len(), 1);
    assert_eq!(
        again[0].delete_request().unwrap().key().unwrap().get("year"),
        Some(&AttributeValue::N("1900".into()))
    );
}
