//! The table's lifecycle and the bulk load.
//!
//! Nothing here talks to the store. `initialize` and `await_table` give a
//! [`Lifecycle`] to be driven, `bulk_load_data` and `write_batch` give
//! [`BatchWriter`]s to be driven; the driver makes the calls.
use crate::attribute::{writes_of, texts, WriteView, PutRequest, WriteRequest};
use crate::models::{film_item, Film};
use vstd::prelude::*;

pub mod batch;
pub mod error;
pub mod lifecycle;
pub mod table;
pub mod writer;

use crate::ddb::batch::{batch_count, chunk, concat, lemma_split_rejoins, split, Batch, CHUNK_SIZE};
use crate::ddb::error::{StoreError, StoreErrorView};
use crate::ddb::lifecycle::{contains_name, Lifecycle, LifecycleView, Request, RequestView};
use crate::ddb::table::{ScalarType, TableDescriptor, TableDescriptorView};
use crate::ddb::writer::{BatchWriter, WriterView};

verus! {

/// The read and the write capacity that the films table is made with.
pub const CAPACITY: i64 = 10;

/// The descriptor of a table with a numeric partition key and a string sort
/// key, and the same capacity for reading and for writing.
pub open spec fn table_with(
    table_name: Seq<char>,
    primary_key: Seq<char>,
    sort_key: Seq<char>,
    capacity: int,
) -> TableDescriptorView {
    TableDescriptorView {
        table_name,
        partition_key: primary_key,
        partition_key_type: ScalarType::N,
        sort_key,
        sort_key_type: ScalarType::S,
        read_capacity: capacity,
        write_capacity: capacity,
    }
}

/// The descriptor of the films table of the given name: keyed by year, then
/// title, with the capacity that this library provisions.
pub open spec fn films_table(table_name: Seq<char>) -> TableDescriptorView {
    table_with(table_name, "year"@, "title"@, CAPACITY as int)
}

/// The films table can be made with its descriptor.
pub proof fn lemma_films_table_valid(table_name: Seq<char>)
    ensures
        films_table(table_name).valid(),
{
    reveal_strlit("year");
    reveal_strlit("title");
    assert("year"@.len() != "title"@.len());
}

/// Starts the lifecycle of the films table `table_name`: if the table is there
/// it is left as it is; if not it is made, waited for, and loaded. The first
/// request lists the tables.
pub fn initialize(table_name: &str) -> (started: (Lifecycle, Request))
    ensures
        started.0@ == LifecycleView::ensure(films_table(table_name@)),
        started.1@ == RequestView::ListTables,
{
    proof {
        lemma_films_table_valid(table_name@);
    }
    ensure_ready(create_table(table_name, "year", "title", CAPACITY))
}

/// Starts the lifecycle of the table that `descriptor` describes: one with two
/// keys of different names and positive capacities. The first request lists
/// the tables.
pub fn ensure_ready(descriptor: TableDescriptor) -> (started: (Lifecycle, Request))
    requires
        descriptor@.valid(),
    ensures
        started.0@ == LifecycleView::ensure(descriptor@),
        started.1@ == RequestView::ListTables,
{
    let state = Lifecycle::ensure(descriptor);
    let request = state.request();
    (state, request)
}

/// Whether `table` is among the tables listed. A listing that failed gives
/// `StoreUnavailable` with the failure's text.
pub fn table_exists(listing: &Result<Vec<String>, String>, table: &str) -> (found: Result<
    bool,
    StoreError,
>)
    ensures
        match *listing {
            Ok(names) => found == Ok::<bool, StoreError>(texts(names@).contains(table@)),
            Err(reason) => found is Err && found->Err_0@ == StoreErrorView::StoreUnavailable(reason@),
        },
{
    match listing {
        Ok(names) => {
            let name: String = table.to_owned();
            Ok(contains_name(names, &name))
        },
        Err(reason) => Err(StoreError::StoreUnavailable(reason.clone())),
    }
}

/// The descriptor of the table `table_name` with `primary_key`, a number, as
/// its partition key and `sort_key`, a string, as its sort key, provisioned
/// with `capacity` for reading and for writing.
pub fn create_table(table_name: &str, primary_key: &str, sort_key: &str, capacity: i64) -> (descriptor:
    TableDescriptor)
    ensures
        descriptor@ == table_with(table_name@, primary_key@, sort_key@, capacity as int),
{
    TableDescriptor {
        table_name: table_name.to_owned(),
        partition_key: primary_key.to_owned(),
        partition_key_type: ScalarType::N,
        sort_key: sort_key.to_owned(),
        sort_key_type: ScalarType::S,
        read_capacity: capacity,
        write_capacity: capacity,
    }
}

/// Starts the wait for the films table `table_name` to become active: six
/// polls at most, ten seconds after each. The first request describes the table.
pub fn await_table(table_name: &str) -> (started: (Lifecycle, Request))
    ensures
        started.0@ == LifecycleView::wait(films_table(table_name@)),
        started.1@ == RequestView::DescribeTable(table_name@),
{
    let state = Lifecycle::wait(create_table(table_name, "year", "title", CAPACITY));
    let request = state.request();
    (state, request)
}

/// The puts of the given films, in order: for each film the write operation
/// that puts the film's item.
pub open spec fn film_writes(films: Seq<Film>) -> Seq<WriteView> {
    Seq::new(films.len(), |i: int| WriteView::put(film_item(films[i]@)))
}

/// What each of the writers has still to submit.
pub open spec fn pending_batches(writers: Seq<BatchWriter>) -> Seq<Seq<WriteView>> {
    Seq::new(writers.len(), |i: int| writers[i]@.pending)
}

/// Prepares the load of `data` into `table_name`: one put for each film, in
/// order, split into batches of 25 (the last one holds what is left), and for
/// each batch a writer that has all of it still to submit. The writers are
/// independent of one another: all are there before any is driven, and how one
/// ends is nothing to the others.
pub fn bulk_load_data(table_name: &str, data: &Vec<Film>) -> (writers: Vec<BatchWriter>)
    ensures
        writers@.len() == batch_count(data@.len()),
        forall|i: int|
            0 <= i < writers@.len() ==> (#[trigger] writers@[i])@ == WriterView::start(
                table_name@,
                chunk(film_writes(data@), i),
            ),
        forall|i: int| 0 <= i < writers@.len() ==> 1 <= (#[trigger] writers@[i])@.pending.len() <= 25,
        concat(pending_batches(writers@)) == film_writes(data@),
{
    let ghost items = film_writes(data@);
    let mut writers: Vec<BatchWriter> = Vec::new();
    let mut current: Vec<WriteRequest> = Vec::new();
    let mut i: usize = 0;
    while i < data.len()
        invariant
            i <= data.len(),
            items == film_writes(data@),
            writers@.len() == i / 25,
            current@.len() == i % 25,
            writes_of(current@) == items.subrange(25 * (i as int / 25), i as int),
            forall|b: int|
                0 <= b < writers@.len() ==> (#[trigger] writers@[b])@ == WriterView::start(
                    table_name@,
                    chunk(items, b),
                ),
        decreases data.len() - i,
    {
        let ghost before = current@;
        current.push(WriteRequest::put(PutRequest::from_film(&data[i])));
        assert(writes_of(current@) =~= writes_of(before).push(items[i as int]));
        assert(writes_of(current@) =~= items.subrange(25 * (i as int / 25), i as int + 1));
        i = i + 1;
        if current.len() == CHUNK_SIZE {
            let mut full: Vec<WriteRequest> = Vec::new();
            core::mem::swap(&mut current, &mut full);
            assert(writes_of(full@) == chunk(items, writers@.len() as int));
            writers.push(BatchWriter::new(table_name, Batch::full(full)));
            assert(writes_of(current@) =~= items.subrange(25 * (i as int / 25), i as int));
        }
    }
    if current.len() > 0 {
        assert(writes_of(current@) == chunk(items, writers@.len() as int));
        writers.push(BatchWriter::new(table_name, Batch::full(current)));
    }
    proof {
        lemma_split_rejoins(items);
        assert(pending_batches(writers@) =~= split(items));
    }
    writers
}

/// The writer of `batch` to `table_name`, with all of the batch still to submit.
pub fn write_batch(table_name: &str, batch: Batch) -> (writer: BatchWriter)
    ensures
        writer@ == WriterView::start(table_name@, batch@),
{
    BatchWriter::new(table_name, batch)
}

} // verus!
