//! Batches of write operations: how a run of operations is split into them,
//! and what the store may leave unprocessed of one.
use crate::attribute::{writes_of, WriteView, WriteRequest};
use crate::ddb::error::{StoreError, StoreErrorView};
use vstd::prelude::*;

verus! {

/// The most write operations that the store takes in one call.
pub const CHUNK_SIZE: usize = 25;

/// The number of batches that `n` operations are split into: `n / 25`, rounded up.
pub open spec fn batch_count(n: nat) -> nat {
    (n + 24) / 25
}

/// The `i`-th run of 25 elements of `s`; the last run holds what is left.
pub open spec fn chunk<A>(s: Seq<A>, i: int) -> Seq<A> {
    s.subrange(25 * i, if 25 * i + 25 <= s.len() {
        25 * i + 25
    } else {
        s.len() as int
    })
}

/// The runs of 25 elements that `s` is split into, in order.
pub open spec fn split<A>(s: Seq<A>) -> Seq<Seq<A>> {
    Seq::new(batch_count(s.len()), |i: int| chunk(s, i))
}

/// The parts, joined in order.
pub open spec fn concat<A>(parts: Seq<Seq<A>>) -> Seq<A>
    decreases parts.len(),
{
    if parts.len() == 0 {
        Seq::empty()
    } else {
        concat(parts.drop_last()) + parts.last()
    }
}

proof fn lemma_split_prefix<A>(s: Seq<A>, n: int)
    requires
        0 <= n <= batch_count(s.len()),
    ensures
        concat(split(s).take(n)) == s.subrange(
            0,
            if 25 * n <= s.len() {
                25 * n
            } else {
                s.len() as int
            },
        ),
    decreases n,
{
    let parts = split(s).take(n);
    if n == 0 {
        assert(s.subrange(0, 0) =~= Seq::<A>::empty());
    } else {
        lemma_split_prefix(s, n - 1);
        assert(parts.drop_last() =~= split(s).take(n - 1));
        assert(parts.last() == chunk(s, n - 1));
        let end = if 25 * n <= s.len() {
            25 * n
        } else {
            s.len() as int
        };
        assert(s.subrange(0, 25 * (n - 1)) + chunk(s, n - 1) =~= s.subrange(0, end));
    }
}

/// Splitting a sequence into runs of 25 gives `len / 25`, rounded up, runs of 1
/// to 25 elements each, and the runs joined in order are the sequence again.
pub proof fn lemma_split_rejoins<A>(s: Seq<A>)
    ensures
        split(s).len() == batch_count(s.len()),
        forall|i: int| 0 <= i < split(s).len() ==> 1 <= (#[trigger] split(s)[i]).len() <= 25,
        concat(split(s)) == s,
{
    lemma_split_prefix(s, batch_count(s.len()) as int);
    assert(split(s).take(split(s).len() as int) =~= split(s));
    assert(s.subrange(0, s.len() as int) =~= s);
}

/// At most 25 write operations, in order: what one call to the store may carry.
#[derive(Debug)]
pub struct Batch {
    ops: Vec<WriteRequest>,
}

impl View for Batch {
    type V = Seq<WriteView>;

    closed spec fn view(&self) -> Seq<WriteView> {
        writes_of(self.ops@)
    }
}

impl Batch {
    #[verifier::type_invariant]
    spec fn within_limit(&self) -> bool {
        self.ops@.len() <= CHUNK_SIZE
    }

    /// The batch of the given operations, or `BatchTooLarge` with their number
    /// where they are more than 25.
    pub fn new(ops: Vec<WriteRequest>) -> (batch: Result<Batch, StoreError>)
        ensures
            match batch {
                Ok(b) => ops@.len() <= 25 && b@ == writes_of(ops@),
                Err(e) => ops@.len() > 25 && e@ == StoreErrorView::BatchTooLarge(ops@.len()),
            },
    {
        if ops.len() > CHUNK_SIZE {
            Err(StoreError::BatchTooLarge(ops.len()))
        } else {
            Ok(Batch { ops })
        }
    }

    /// The batch of at most 25 operations.
    pub(crate) fn full(ops: Vec<WriteRequest>) -> (batch: Batch)
        requires
            ops@.len() <= 25,
        ensures
            batch@ == writes_of(ops@),
    {
        Batch { ops }
    }

    /// The number of operations.
    pub fn len(&self) -> (count: usize)
        ensures
            count == self@.len(),
            count <= 25,
    {
        proof {
            use_type_invariant(self);
        }
        self.ops.len()
    }

    /// The operations, in order.
    pub fn ops(&self) -> (ops: &Vec<WriteRequest>)
        ensures
            writes_of(ops@) == self@,
            ops@.len() <= 25,
    {
        proof {
            use_type_invariant(self);
        }
        &self.ops
    }

    /// Gives the operations up.
    pub fn into_ops(self) -> (ops: Vec<WriteRequest>)
        ensures
            writes_of(ops@) == self@,
            ops@.len() <= 25,
    {
        proof {
            use_type_invariant(&self);
        }
        self.ops
    }
}

/// The operations that the store left unprocessed for one table.
#[derive(Debug)]
pub struct TableWrites {
    pub table_name: String,
    pub requests: Vec<WriteRequest>,
}

/// What one call left unprocessed, as a mathematical value: for each table
/// that has anything left, its operations.
pub type UnprocessedView = Map<Seq<char>, Seq<WriteView>>;

/// The mapping from tables to operations that a list of entries stands for.
/// Where a table occurs twice, the later entry counts.
pub open spec fn tables_of(entries: Seq<TableWrites>) -> UnprocessedView
    decreases entries.len(),
{
    if entries.len() == 0 {
        Map::empty()
    } else {
        tables_of(entries.drop_last()).insert(
            entries.last().table_name@,
            writes_of(entries.last().requests@),
        )
    }
}

/// Whether no two entries of the list are for the same table.
pub open spec fn distinct_tables(entries: Seq<TableWrites>) -> bool {
    forall|i: int, j: int|
        0 <= i < j < entries.len() ==> (#[trigger] entries[i]).table_name@
            != (#[trigger] entries[j]).table_name@
}

/// An entry of a list without a repeated table is found under its table.
pub proof fn lemma_table_lookup(entries: Seq<TableWrites>, i: int)
    requires
        distinct_tables(entries),
        0 <= i < entries.len(),
    ensures
        tables_of(entries).contains_key(entries[i].table_name@),
        tables_of(entries)[entries[i].table_name@] == writes_of(entries[i].requests@),
    decreases entries.len(),
{
    if i < entries.len() - 1 {
        let rest = entries.drop_last();
        assert(rest[i] == entries[i]);
        assert(entries.last() == entries[entries.len() - 1]);
        assert forall|a: int, b: int| 0 <= a < b < rest.len() implies (#[trigger] rest[a]).table_name@
            != (#[trigger] rest[b]).table_name@ by {
            assert(rest[a] == entries[a] && rest[b] == entries[b]);
        }
        lemma_table_lookup(rest, i);
    }
}

/// A table that no entry of the list is for is not in the mapping.
pub proof fn lemma_table_absent(entries: Seq<TableWrites>, table: Seq<char>)
    requires
        forall|i: int| 0 <= i < entries.len() ==> (#[trigger] entries[i]).table_name@ != table,
    ensures
        !tables_of(entries).contains_key(table),
    decreases entries.len(),
{
    if entries.len() > 0 {
        let rest = entries.drop_last();
        assert forall|i: int| 0 <= i < rest.len() implies (#[trigger] rest[i]).table_name@
            != table by {
            assert(rest[i] == entries[i]);
        }
        lemma_table_absent(rest, table);
        assert(entries.last() == entries[entries.len() - 1]);
    }
}

/// Replacing an entry by one for the same table replaces that table's
/// operations in the mapping.
pub proof fn lemma_table_replace(entries: Seq<TableWrites>, i: int, entry: TableWrites)
    requires
        0 <= i < entries.len(),
        entries[i].table_name@ == entry.table_name@,
        distinct_tables(entries),
    ensures
        distinct_tables(entries.update(i, entry)),
        tables_of(entries.update(i, entry)) == tables_of(entries).insert(
            entry.table_name@,
            writes_of(entry.requests@),
        ),
    decreases entries.len(),
{
    let changed = entries.update(i, entry);
    assert forall|a: int, b: int| 0 <= a < b < changed.len() implies (
    #[trigger] changed[a]).table_name@ != (#[trigger] changed[b]).table_name@ by {
        assert(changed[a].table_name@ == entries[a].table_name@);
        assert(changed[b].table_name@ == entries[b].table_name@);
    }
    let rest = entries.drop_last();
    let put = tables_of(entries).insert(entry.table_name@, writes_of(entry.requests@));
    if i == entries.len() - 1 {
        assert(changed.drop_last() =~= rest);
        assert(tables_of(changed) =~= put);
    } else {
        assert forall|a: int, b: int| 0 <= a < b < rest.len() implies (#[trigger] rest[a]).table_name@
            != (#[trigger] rest[b]).table_name@ by {
            assert(rest[a] == entries[a] && rest[b] == entries[b]);
        }
        assert(rest[i] == entries[i]);
        lemma_table_replace(rest, i, entry);
        assert(changed.drop_last() =~= rest.update(i, entry));
        assert(changed.last() == entries.last());
        assert(entries.last() == entries[entries.len() - 1]);
        assert(entries.last().table_name@ != entry.table_name@);
        assert(tables_of(changed) =~= put);
    }
}

/// What one call left unprocessed, table by table; no table twice.
#[derive(Debug)]
pub struct UnprocessedSet {
    tables: Vec<TableWrites>,
}

impl View for UnprocessedSet {
    type V = UnprocessedView;

    closed spec fn view(&self) -> UnprocessedView {
        tables_of(self.tables@)
    }
}

/// What a set holds for `table`: that table's operations, or none where the
/// set has nothing for it.
pub open spec fn pending_in(set: UnprocessedView, table: Seq<char>) -> Seq<WriteView> {
    if set.contains_key(table) {
        set[table]
    } else {
        Seq::empty()
    }
}

/// What a set that may be missing holds for `table`.
pub open spec fn pending_for(set: Option<UnprocessedView>, table: Seq<char>) -> Seq<WriteView> {
    match set {
        Some(s) => pending_in(s, table),
        None => Seq::empty(),
    }
}

/// The view of a set that may be missing.
pub open spec fn set_view(set: Option<&UnprocessedSet>) -> Option<UnprocessedView> {
    match set {
        Some(s) => Some(s@),
        None => None,
    }
}

impl UnprocessedSet {
    #[verifier::type_invariant]
    spec fn well_formed(&self) -> bool {
        distinct_tables(self.tables@)
    }

    /// The set that holds nothing for any table.
    pub fn new() -> (set: UnprocessedSet)
        ensures
            set@ == Map::<Seq<char>, Seq<WriteView>>::empty(),
    {
        UnprocessedSet { tables: Vec::new() }
    }

    /// Puts `requests` under `table_name`, in place of what was there, if anything.
    pub fn insert(&mut self, table_name: String, requests: Vec<WriteRequest>)
        ensures
            final(self)@ == old(self)@.insert(table_name@, writes_of(requests@)),
    {
        proof {
            use_type_invariant(&*self);
        }
        let place = self.find_table(&table_name);
        let entry = TableWrites { table_name, requests };
        let mut tables: Vec<TableWrites> = Vec::new();
        core::mem::swap(&mut self.tables, &mut tables);
        match place {
            Some(i) => {
                proof {
                    lemma_table_replace(tables@, i as int, entry);
                }
                tables[i] = entry;
            },
            None => {
                proof {
                    let grown = tables@.push(entry);
                    assert(grown.drop_last() =~= tables@);
                    assert forall|a: int, b: int| 0 <= a < b < grown.len() implies (
                    #[trigger] grown[a]).table_name@ != (#[trigger] grown[b]).table_name@ by {
                        if b < tables@.len() {
                            assert(grown[a] == tables@[a] && grown[b] == tables@[b]);
                        } else {
                            assert(grown[a] == tables@[a]);
                        }
                    }
                }
                tables.push(entry);
            },
        }
        self.tables = tables;
    }

    /// The place of the entry for `table_name`, if the set has one.
    fn find_table(&self, table_name: &String) -> (place: Option<usize>)
        ensures
            match place {
                Some(i) => i < self.tables@.len() && self.tables@[i as int].table_name@
                    == table_name@ && self@.contains_key(table_name@) && self@[table_name@]
                    == writes_of(self.tables@[i as int].requests@),
                None => !self@.contains_key(table_name@) && forall|j: int|
                    0 <= j < self.tables@.len() ==> (#[trigger] self.tables@[j]).table_name@
                        != table_name@,
            },
    {
        proof {
            use_type_invariant(self);
        }
        let mut i: usize = 0;
        while i < self.tables.len()
            invariant
                i <= self.tables@.len(),
                distinct_tables(self.tables@),
                forall|j: int| 0 <= j < i ==> (#[trigger] self.tables@[j]).table_name@ != table_name@,
            decreases self.tables@.len() - i,
        {
            if self.tables[i].table_name == *table_name {
                proof {
                    lemma_table_lookup(self.tables@, i as int);
                }
                return Some(i);
            }
            i = i + 1;
        }
        proof {
            lemma_table_absent(self.tables@, table_name@);
        }
        None
    }

    /// The number of operations that the set holds for `table_name`.
    pub fn count(&self, table_name: &str) -> (count: usize)
        ensures
            count == pending_in(self@, table_name@).len(),
    {
        let name: String = table_name.to_owned();
        match self.find_table(&name) {
            Some(i) => self.tables[i].requests.len(),
            None => 0,
        }
    }

    /// Gives up the operations that the set holds for `table_name`.
    pub fn take(self, table_name: &str) -> (requests: Vec<WriteRequest>)
        ensures
            writes_of(requests@) == pending_in(self@, table_name@),
    {
        let name: String = table_name.to_owned();
        match self.find_table(&name) {
            Some(i) => {
                let mut tables = self.tables;
                let entry = tables.remove(i);
                entry.requests
            },
            None => {
                let requests: Vec<WriteRequest> = Vec::new();
                assert(writes_of(requests@) =~= Seq::<WriteView>::empty());
                requests
            },
        }
    }
}

/// The number of operations that a set holds for `table_name`; none where
/// there is no set.
pub fn unprocessed_count(unprocessed: Option<&UnprocessedSet>, table_name: &str) -> (count: usize)
    ensures
        count == pending_for(set_view(unprocessed), table_name@).len(),
{
    match unprocessed {
        Some(set) => set.count(table_name),
        None => 0,
    }
}

} // verus!
