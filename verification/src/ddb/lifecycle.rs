//! The lifecycle of the table: is it there, make it if not, wait until it is
//! active, then have it loaded.
//!
//! The lifecycle decides; its driver talks to the store. The driver carries out
//! the request it is given, hands the answer to `step`, and carries out the
//! request that comes back, until that request is `Finish`.
//!
//! Waiting is a plain poll at a fixed interval: six polls, ten seconds after
//! each. There is no backoff.
use crate::ddb::error::{StoreError, StoreErrorView};
use crate::ddb::table::{TableDescriptor, TableDescriptorView, TableStatus};
use crate::attribute::texts;
use vstd::prelude::*;

verus! {

/// The number of polls within which a new table has to become active.
pub const TABLE_WAIT_POLLS: u64 = 6;

/// The seconds to wait after a poll that did not find the table active.
pub const TABLE_WAIT_TIMEOUT: u64 = 10;

/// How a lifecycle ended well.
#[derive(Debug, Clone, Copy, PartialEq, Eq, Structural)]
pub enum Outcome {
    /// The table is there and active; nothing was loaded.
    Ready,
    /// The table was made, became active, and was loaded.
    CreatedAndReady,
}

/// What a lifecycle is waiting for.
#[derive(Debug, Clone, Copy, PartialEq, Eq, Structural)]
pub enum Phase {
    /// For the list of tables.
    Listing,
    /// For the table to be made.
    Creating,
    /// For the table's description.
    Describing,
    /// For the interval between two polls to pass.
    Sleeping,
    /// For the load to be done.
    Loading,
    /// For nothing: it has ended.
    Finished,
}

/// What a lifecycle asks of its driver.
#[derive(Debug, PartialEq, Eq)]
pub enum Request {
    /// List the tables.
    ListTables,
    /// Make the table.
    CreateTable(TableDescriptor),
    /// Describe the named table.
    DescribeTable(String),
    /// Let this many seconds pass.
    Sleep(u64),
    /// Load the data into the named table, all batches at once, and wait for all.
    BulkLoad(String),
    /// Stop: this is how it ended.
    Finish(Result<Outcome, StoreError>),
}

/// What a [`Request`] is, as a mathematical value.
pub enum RequestView {
    ListTables,
    CreateTable(TableDescriptorView),
    DescribeTable(Seq<char>),
    Sleep(nat),
    BulkLoad(Seq<char>),
    Finish(Result<Outcome, StoreErrorView>),
}

impl View for Request {
    type V = RequestView;

    open spec fn view(&self) -> RequestView {
        match self {
            Request::ListTables => RequestView::ListTables,
            Request::CreateTable(descriptor) => RequestView::CreateTable(descriptor@),
            Request::DescribeTable(table_name) => RequestView::DescribeTable(table_name@),
            Request::Sleep(seconds) => RequestView::Sleep(*seconds as nat),
            Request::BulkLoad(table_name) => RequestView::BulkLoad(table_name@),
            Request::Finish(Ok(outcome)) => RequestView::Finish(Ok(*outcome)),
            Request::Finish(Err(error)) => RequestView::Finish(Err(error@)),
        }
    }
}

/// The driver's answer to a request.
#[derive(Debug, PartialEq, Eq)]
pub enum Reply {
    /// The names of the tables that there are.
    Tables(Vec<String>),
    /// The table's creation was accepted.
    Created,
    /// The table's state, or `None` where the description gave no table or no state.
    Described(Option<TableStatus>),
    /// The interval has passed.
    Slept,
    /// The load is done.
    Loaded,
    /// The call to the store failed; the text says how.
    Failed(String),
}

/// What a [`Reply`] is, as a mathematical value.
pub enum ReplyView {
    Tables(Seq<Seq<char>>),
    Created,
    Described(Option<TableStatus>),
    Slept,
    Loaded,
    Failed(Seq<char>),
}

impl View for Reply {
    type V = ReplyView;

    open spec fn view(&self) -> ReplyView {
        match self {
            Reply::Tables(names) => ReplyView::Tables(texts(names@)),
            Reply::Created => ReplyView::Created,
            Reply::Described(status) => ReplyView::Described(*status),
            Reply::Slept => ReplyView::Slept,
            Reply::Loaded => ReplyView::Loaded,
            Reply::Failed(reason) => ReplyView::Failed(reason@),
        }
    }
}

/// The state of a lifecycle, as a mathematical value.
pub struct LifecycleView {
    /// What the table is made with.
    pub descriptor: TableDescriptorView,
    /// What is being waited for.
    pub phase: Phase,
    /// The polls made so far, counted up to the limit.
    pub polls: nat,
    /// Whether this lifecycle had the table made.
    pub created: bool,
    /// Why it failed, if it did.
    pub failure: Option<StoreErrorView>,
}

impl LifecycleView {
    /// The lifecycle that starts by asking whether the table is there.
    pub open spec fn ensure(descriptor: TableDescriptorView) -> LifecycleView {
        LifecycleView {
            descriptor,
            phase: Phase::Listing,
            polls: 0,
            created: false,
            failure: None,
        }
    }

    /// The lifecycle that only waits for the table to become active.
    pub open spec fn wait(descriptor: TableDescriptorView) -> LifecycleView {
        LifecycleView { phase: Phase::Describing, ..LifecycleView::ensure(descriptor) }
    }

    /// This lifecycle, ended: with the given failure, or well where there is none.
    pub open spec fn ended(self, failure: Option<StoreErrorView>) -> LifecycleView {
        LifecycleView { phase: Phase::Finished, failure, ..self }
    }

    /// How a lifecycle that has ended did end.
    pub open spec fn result(self) -> Result<Outcome, StoreErrorView> {
        match self.failure {
            Some(error) => Err(error),
            None => Ok(
                if self.created {
                    Outcome::CreatedAndReady
                } else {
                    Outcome::Ready
                },
            ),
        }
    }

    /// What the lifecycle asks for in this state.
    pub open spec fn request(self) -> RequestView {
        match self.phase {
            Phase::Listing => RequestView::ListTables,
            Phase::Creating => RequestView::CreateTable(self.descriptor),
            Phase::Describing => RequestView::DescribeTable(self.descriptor.table_name),
            Phase::Sleeping => RequestView::Sleep(TABLE_WAIT_TIMEOUT as nat),
            Phase::Loading => RequestView::BulkLoad(self.descriptor.table_name),
            Phase::Finished => RequestView::Finish(self.result()),
        }
    }

    /// The state after the driver's answer to the request asked for.
    ///
    /// A table that is listed is ready as it is: it is neither made nor loaded,
    /// nor held against the descriptor. One that is not listed is made, then
    /// polled. A poll that finds it active ends the waiting; after any other
    /// poll the interval is waited out, and after the sixth such poll the
    /// lifecycle fails. A table that this lifecycle made is loaded once it is
    /// active. A failed call ends the lifecycle with that failure. An answer to
    /// another request than the one asked for changes nothing.
    pub open spec fn step(self, reply: ReplyView) -> LifecycleView {
        match (self.phase, reply) {
            (Phase::Finished, _) => self,
            (_, ReplyView::Failed(reason)) => self.ended(
                Some(StoreErrorView::StoreUnavailable(reason)),
            ),
            (Phase::Listing, ReplyView::Tables(names)) => if names.contains(
                self.descriptor.table_name,
            ) {
                self.ended(None)
            } else {
                LifecycleView { phase: Phase::Creating, ..self }
            },
            (Phase::Creating, ReplyView::Created) => LifecycleView {
                phase: Phase::Describing,
                polls: 0,
                created: true,
                ..self
            },
            (Phase::Describing, ReplyView::Described(status)) => {
                let polls = if self.polls < TABLE_WAIT_POLLS {
                    self.polls + 1
                } else {
                    self.polls
                };
                if status == Some(TableStatus::Active) {
                    if self.created {
                        LifecycleView { phase: Phase::Loading, polls, ..self }
                    } else {
                        LifecycleView { polls, ..self.ended(None) }
                    }
                } else {
                    LifecycleView { phase: Phase::Sleeping, polls, ..self }
                }
            },
            (Phase::Sleeping, ReplyView::Slept) => if self.polls >= TABLE_WAIT_POLLS {
                self.ended(Some(StoreErrorView::TableNotReady(self.descriptor.table_name)))
            } else {
                LifecycleView { phase: Phase::Describing, ..self }
            },
            (Phase::Loading, ReplyView::Loaded) => self.ended(None),
            _ => self,
        }
    }

    /// The state after the given answers, one after the other.
    pub open spec fn after(self, replies: Seq<ReplyView>) -> LifecycleView
        decreases replies.len(),
    {
        if replies.len() == 0 {
            self
        } else {
            self.after(replies.drop_last()).step(replies.last())
        }
    }

    /// The number of times the table was asked to be made while the given
    /// answers came in.
    pub open spec fn creations(self, replies: Seq<ReplyView>) -> nat
        decreases replies.len(),
    {
        if replies.len() == 0 {
            0
        } else {
            self.creations(replies.drop_last()) + if self.after(replies.drop_last()).phase
                == Phase::Creating {
                1nat
            } else {
                0nat
            }
        }
    }

    /// The number of polls made while the given answers came in.
    pub open spec fn polls_made(self, replies: Seq<ReplyView>) -> nat
        decreases replies.len(),
    {
        if replies.len() == 0 {
            0
        } else {
            self.polls_made(replies.drop_last()) + if self.after(replies.drop_last()).phase
                == Phase::Describing {
                1nat
            } else {
                0nat
            }
        }
    }
}

/// The answers to a run of polls: each poll's state, and the interval after it.
pub open spec fn polling(statuses: Seq<Option<TableStatus>>) -> Seq<ReplyView> {
    Seq::new(
        2 * statuses.len(),
        |i: int|
            if i % 2 == 0 {
                ReplyView::Described(statuses[i / 2])
            } else {
                ReplyView::Slept
            },
    )
}

/// Whether none of the states is `Active`.
pub open spec fn never_active(statuses: Seq<Option<TableStatus>>) -> bool {
    forall|i: int| 0 <= i < statuses.len() ==> #[trigger] statuses[i] != Some(TableStatus::Active)
}

/// One answer alone takes one step; it counts where it answers a creation or a poll.
pub proof fn lemma_after_one(state: LifecycleView, reply: ReplyView)
    ensures
        state.after(seq![reply]) == state.step(reply),
        state.creations(seq![reply]) == if state.phase == Phase::Creating {
            1nat
        } else {
            0nat
        },
        state.polls_made(seq![reply]) == if state.phase == Phase::Describing {
            1nat
        } else {
            0nat
        },
{
    let one = seq![reply];
    let none = one.drop_last();
    assert(none =~= Seq::<ReplyView>::empty());
    assert(state.after(none) == state);
    assert(state.creations(none) == 0);
    assert(state.polls_made(none) == 0);
}

/// Answers taken in one run after another are taken in as one run.
pub proof fn lemma_after_joined(state: LifecycleView, first: Seq<ReplyView>, then: Seq<ReplyView>)
    ensures
        state.after(first + then) == state.after(first).after(then),
        state.creations(first + then) == state.creations(first) + state.after(first).creations(
            then,
        ),
        state.polls_made(first + then) == state.polls_made(first) + state.after(first).polls_made(
            then,
        ),
    decreases then.len(),
{
    if then.len() == 0 {
        assert(first + then =~= first);
    } else {
        lemma_after_joined(state, first, then.drop_last());
        assert((first + then).drop_last() =~= first + then.drop_last());
        assert((first + then).last() == then.last());
    }
}

/// Polls that never find the table active: as long as the limit is not
/// reached the lifecycle goes on polling; with the sixth it fails.
pub proof fn lemma_polling_in_vain(state: LifecycleView, statuses: Seq<Option<TableStatus>>)
    requires
        state.phase == Phase::Describing,
        state.polls + statuses.len() <= TABLE_WAIT_POLLS,
        never_active(statuses),
    ensures
        state.after(polling(statuses)) == if statuses.len() > 0 && state.polls + statuses.len()
            == TABLE_WAIT_POLLS {
            LifecycleView {
                polls: state.polls + statuses.len(),
                ..state.ended(Some(StoreErrorView::TableNotReady(state.descriptor.table_name)))
            }
        } else {
            LifecycleView { polls: state.polls + statuses.len(), ..state }
        },
        state.polls_made(polling(statuses)) == statuses.len(),
        state.creations(polling(statuses)) == 0,
    decreases statuses.len(),
{
    let replies = polling(statuses);
    if statuses.len() > 0 {
        let before = statuses.drop_last();
        lemma_polling_in_vain(state, before);
        let poll = seq![ReplyView::Described(statuses.last())];
        let pause = seq![ReplyView::Slept];
        assert(replies =~= polling(before) + (poll + pause));
        let polled = state.after(polling(before));
        lemma_after_joined(state, polling(before), poll + pause);
        lemma_after_joined(polled, poll, pause);
        lemma_after_one(polled, ReplyView::Described(statuses.last()));
        lemma_after_one(polled.after(poll), ReplyView::Slept);
        assert(statuses.last() == statuses[statuses.len() - 1]);
    } else {
        assert(replies =~= Seq::<ReplyView>::empty());
    }
}

/// The answers of a store that does not have the table, makes it, and reports
/// the given states when polled.
pub open spec fn made_and_polled(
    names: Seq<Seq<char>>,
    statuses: Seq<Option<TableStatus>>,
) -> Seq<ReplyView> {
    seq![ReplyView::Tables(names), ReplyView::Created] + polling(statuses)
}

proof fn lemma_made(descriptor: TableDescriptorView, names: Seq<Seq<char>>)
    requires
        !names.contains(descriptor.table_name),
    ensures
        LifecycleView::ensure(descriptor).after(seq![ReplyView::Tables(names), ReplyView::Created])
            == (LifecycleView { created: true, ..LifecycleView::wait(descriptor) }),
        LifecycleView::ensure(descriptor).creations(
            seq![ReplyView::Tables(names), ReplyView::Created],
        ) == 1,
        LifecycleView::ensure(descriptor).polls_made(
            seq![ReplyView::Tables(names), ReplyView::Created],
        ) == 0,
{
    let start = LifecycleView::ensure(descriptor);
    let listed = seq![ReplyView::Tables(names)];
    let made = seq![ReplyView::Created];
    assert(seq![ReplyView::Tables(names), ReplyView::Created] =~= listed + made);
    lemma_after_joined(start, listed, made);
    lemma_after_one(start, ReplyView::Tables(names));
    lemma_after_one(start.after(listed), ReplyView::Created);
}

/// A table that is listed is ready at once: the first request lists the
/// tables, the next one ends the lifecycle well, and the table is never asked
/// to be made.
pub proof fn lemma_existing_table_is_ready(descriptor: TableDescriptorView, names: Seq<Seq<char>>)
    requires
        names.contains(descriptor.table_name),
    ensures
        LifecycleView::ensure(descriptor).request() == RequestView::ListTables,
        LifecycleView::ensure(descriptor).step(ReplyView::Tables(names)).request()
            == RequestView::Finish(Ok(Outcome::Ready)),
        LifecycleView::ensure(descriptor).creations(seq![ReplyView::Tables(names)]) == 0,
{
    lemma_after_one(LifecycleView::ensure(descriptor), ReplyView::Tables(names));
}

/// A table that is not listed and never becomes active: it is asked to be made
/// exactly once, polled exactly six times, and the lifecycle then fails with
/// `TableNotReady`.
pub proof fn lemma_never_active_fails(
    descriptor: TableDescriptorView,
    names: Seq<Seq<char>>,
    statuses: Seq<Option<TableStatus>>,
)
    requires
        !names.contains(descriptor.table_name),
        statuses.len() == TABLE_WAIT_POLLS,
        never_active(statuses),
    ensures
        LifecycleView::ensure(descriptor).after(made_and_polled(names, statuses)).request()
            == RequestView::Finish(Err(StoreErrorView::TableNotReady(descriptor.table_name))),
        LifecycleView::ensure(descriptor).creations(made_and_polled(names, statuses)) == 1,
        LifecycleView::ensure(descriptor).polls_made(made_and_polled(names, statuses)) == 6,
{
    let start = LifecycleView::ensure(descriptor);
    let both = seq![ReplyView::Tables(names), ReplyView::Created];
    lemma_made(descriptor, names);
    lemma_after_joined(start, both, polling(statuses));
    lemma_polling_in_vain(start.after(both), statuses);
}

/// A table that is not listed and becomes active with the poll after `n`
/// polls in vain, `n` less than six: it is asked to be made exactly once,
/// polled exactly `n + 1` times, then loaded, and the lifecycle ends well.
pub proof fn lemma_becomes_active(
    descriptor: TableDescriptorView,
    names: Seq<Seq<char>>,
    statuses: Seq<Option<TableStatus>>,
)
    requires
        !names.contains(descriptor.table_name),
        statuses.len() < TABLE_WAIT_POLLS,
        never_active(statuses),
    ensures
        ({
            let replies = made_and_polled(names, statuses).push(
                ReplyView::Described(Some(TableStatus::Active)),
            );
            let start = LifecycleView::ensure(descriptor);
            &&& start.after(replies).request() == RequestView::BulkLoad(descriptor.table_name)
            &&& start.after(replies).step(ReplyView::Loaded).request() == RequestView::Finish(
                Ok(Outcome::CreatedAndReady),
            )
            &&& start.creations(replies) == 1
            &&& start.polls_made(replies) == statuses.len() + 1
        }),
{
    let start = LifecycleView::ensure(descriptor);
    let both = seq![ReplyView::Tables(names), ReplyView::Created];
    let before = made_and_polled(names, statuses);
    let replies = before.push(ReplyView::Described(Some(TableStatus::Active)));
    lemma_made(descriptor, names);
    lemma_after_joined(start, both, polling(statuses));
    lemma_polling_in_vain(start.after(both), statuses);
    assert(replies.drop_last() =~= before);
}

/// The lifecycle of one table.
#[derive(Debug)]
pub struct Lifecycle {
    descriptor: TableDescriptor,
    phase: Phase,
    polls: u64,
    created: bool,
    failure: Option<StoreError>,
}

impl View for Lifecycle {
    type V = LifecycleView;

    closed spec fn view(&self) -> LifecycleView {
        LifecycleView {
            descriptor: self.descriptor@,
            phase: self.phase,
            polls: self.polls as nat,
            created: self.created,
            failure: match self.failure {
                Some(error) => Some(error@),
                None => None,
            },
        }
    }
}

/// Whether `name` is among `names`.
pub fn contains_name(names: &Vec<String>, name: &String) -> (found: bool)
    ensures
        found == texts(names@).contains(name@),
{
    let mut i: usize = 0;
    while i < names.len()
        invariant
            i <= names.len(),
            forall|j: int| 0 <= j < i ==> texts(names@)[j] != name@,
        decreases names.len() - i,
    {
        if names[i] == *name {
            assert(texts(names@)[i as int] == name@);
            return true;
        }
        i = i + 1;
    }
    false
}

impl Lifecycle {
    /// The lifecycle that starts by asking whether the table is there. The
    /// table may have to be made, so the descriptor has to be one that a table
    /// can be made with.
    pub fn ensure(descriptor: TableDescriptor) -> (state: Lifecycle)
        requires
            descriptor@.valid(),
        ensures
            state@ == LifecycleView::ensure(descriptor@),
    {
        Lifecycle { descriptor, phase: Phase::Listing, polls: 0, created: false, failure: None }
    }

    /// The lifecycle that only waits for the table to become active.
    pub fn wait(descriptor: TableDescriptor) -> (state: Lifecycle)
        ensures
            state@ == LifecycleView::wait(descriptor@),
    {
        Lifecycle { descriptor, phase: Phase::Describing, polls: 0, created: false, failure: None }
    }

    /// What is to be done next.
    pub fn request(&self) -> (request: Request)
        ensures
            request@ == self@.request(),
    {
        match self.phase {
            Phase::Listing => Request::ListTables,
            Phase::Creating => Request::CreateTable(self.descriptor.duplicate()),
            Phase::Describing => Request::DescribeTable(self.descriptor.table_name.clone()),
            Phase::Sleeping => Request::Sleep(TABLE_WAIT_TIMEOUT),
            Phase::Loading => Request::BulkLoad(self.descriptor.table_name.clone()),
            Phase::Finished => match &self.failure {
                Some(error) => Request::Finish(Err(error.duplicate())),
                None => Request::Finish(
                    Ok(
                        if self.created {
                            Outcome::CreatedAndReady
                        } else {
                            Outcome::Ready
                        },
                    ),
                ),
            },
        }
    }

    /// Takes in the answer to the request asked for, and gives the next request.
    pub fn step(&mut self, reply: Reply) -> (next: Request)
        ensures
            final(self)@ == old(self)@.step(reply@),
            next@ == final(self)@.request(),
    {
        match (self.phase, reply) {
            (Phase::Finished, _) => {},
            (_, Reply::Failed(reason)) => {
                self.phase = Phase::Finished;
                self.failure = Some(StoreError::StoreUnavailable(reason));
            },
            (Phase::Listing, Reply::Tables(names)) => {
                if contains_name(&names, &self.descriptor.table_name) {
                    self.phase = Phase::Finished;
                    self.failure = None;
                } else {
                    self.phase = Phase::Creating;
                }
            },
            (Phase::Creating, Reply::Created) => {
                self.phase = Phase::Describing;
                self.polls = 0;
                self.created = true;
            },
            (Phase::Describing, Reply::Described(status)) => {
                if self.polls < TABLE_WAIT_POLLS {
                    self.polls = self.polls + 1;
                }
                let active: bool = match status {
                    Some(TableStatus::Active) => true,
                    _ => false,
                };
                if !active {
                    self.phase = Phase::Sleeping;
                } else if self.created {
                    self.phase = Phase::Loading;
                } else {
                    self.phase = Phase::Finished;
                    self.failure = None;
                }
            },
            (Phase::Sleeping, Reply::Slept) => {
                if self.polls >= TABLE_WAIT_POLLS {
                    self.phase = Phase::Finished;
                    self.failure = Some(StoreError::table_not_ready(self.descriptor.table_name.as_str()));
                } else {
                    self.phase = Phase::Describing;
                }
            },
            (Phase::Loading, Reply::Loaded) => {
                self.phase = Phase::Finished;
                self.failure = None;
            },
            _ => {},
        }
        self.request()
    }
}

} // verus!
