//! The writing of one batch: submit, look at what the store left unprocessed
//! for the table, submit exactly that again, until nothing is left.
//!
//! The writer decides; its driver talks to the store. The driver submits what
//! `next_batch` gives, hands the store's answer to `step`, and goes on until
//! `next_batch` gives nothing. No limit is set on the number of calls: a store
//! that keeps leaving operations unprocessed is asked again without end.
use crate::attribute::{writes_of, WriteView, WriteRequest};
use crate::ddb::batch::{pending_for, pending_in, Batch, UnprocessedSet, UnprocessedView};
use crate::ddb::error::{StoreError, StoreErrorView};
use vstd::prelude::*;

verus! {

/// The store's answer to one submission.
#[derive(Debug)]
pub enum WriteReply {
    /// The call went through and left these operations unprocessed.
    Unprocessed(Option<UnprocessedSet>),
    /// The call itself failed; the text says how.
    Failed(String),
}

/// What a [`WriteReply`] is, as a mathematical value.
pub enum WriteReplyView {
    Unprocessed(Option<UnprocessedView>),
    Failed(Seq<char>),
}

impl View for WriteReply {
    type V = WriteReplyView;

    open spec fn view(&self) -> WriteReplyView {
        match self {
            WriteReply::Unprocessed(Some(set)) => WriteReplyView::Unprocessed(Some(set@)),
            WriteReply::Unprocessed(None) => WriteReplyView::Unprocessed(None),
            WriteReply::Failed(reason) => WriteReplyView::Failed(reason@),
        }
    }
}

/// What a writer asks of its driver.
pub enum WriteAction {
    /// Submit these operations to the table in one call.
    Submit(Seq<WriteView>),
    /// Stop: the batch is written, or the store failed.
    Finish(Result<(), StoreErrorView>),
}

/// The state of a writer, as a mathematical value.
pub struct WriterView {
    /// The table written to.
    pub table: Seq<char>,
    /// What is still to be submitted.
    pub pending: Seq<WriteView>,
    /// How a call failed, if one did.
    pub failure: Option<Seq<char>>,
}

impl WriterView {
    /// The writer that has the whole batch still to submit.
    pub open spec fn start(table: Seq<char>, batch: Seq<WriteView>) -> WriterView {
        WriterView { table, pending: batch, failure: None }
    }

    /// What the writer asks for in this state.
    pub open spec fn action(self) -> WriteAction {
        match self.failure {
            Some(reason) => WriteAction::Finish(Err(StoreErrorView::StoreUnavailable(reason))),
            None => if self.pending.len() > 0 {
                WriteAction::Submit(self.pending)
            } else {
                WriteAction::Finish(Ok(()))
            },
        }
    }

    /// The state after the store's answer to the submission asked for. What the
    /// store left unprocessed for the table is what remains to submit; a failed
    /// call ends the writing. A writer that has finished stays as it is.
    pub open spec fn step(self, reply: WriteReplyView) -> WriterView {
        match self.action() {
            WriteAction::Finish(_) => self,
            WriteAction::Submit(_) => match reply {
                WriteReplyView::Unprocessed(set) => WriterView {
                    pending: pending_for(set, self.table),
                    ..self
                },
                WriteReplyView::Failed(reason) => WriterView { failure: Some(reason), ..self },
            },
        }
    }

    /// The state after the given answers, one after the other.
    pub open spec fn after(self, replies: Seq<WriteReplyView>) -> WriterView
        decreases replies.len(),
    {
        if replies.len() == 0 {
            self
        } else {
            self.after(replies.drop_last()).step(replies.last())
        }
    }

    /// The number of submissions made while the given answers came in: one for
    /// each answer that found the writer asking to submit.
    pub open spec fn calls(self, replies: Seq<WriteReplyView>) -> nat
        decreases replies.len(),
    {
        if replies.len() == 0 {
            0
        } else {
            self.calls(replies.drop_last()) + if self.after(replies.drop_last()).action() is Submit {
                1nat
            } else {
                0nat
            }
        }
    }
}

/// The answers of a store that leaves `held` unprocessed `k` times and then
/// answers with `drained`.
pub open spec fn throttled(
    held: UnprocessedView,
    drained: Option<UnprocessedView>,
    k: nat,
) -> Seq<WriteReplyView> {
    Seq::new(
        k + 1,
        |i: int|
            if i < k {
                WriteReplyView::Unprocessed(Some(held))
            } else {
                WriteReplyView::Unprocessed(drained)
            },
    )
}

proof fn lemma_throttled_prefix(
    table: Seq<char>,
    batch: Seq<WriteView>,
    held: UnprocessedView,
    drained: Option<UnprocessedView>,
    k: nat,
    i: int,
)
    requires
        batch.len() > 0,
        pending_in(held, table).len() > 0,
        0 <= i <= k,
    ensures
        WriterView::start(table, batch).after(throttled(held, drained, k).take(i))
            == WriterView::start(
            table,
            if i == 0 {
                batch
            } else {
                pending_in(held, table)
            },
        ),
        WriterView::start(table, batch).calls(throttled(held, drained, k).take(i)) == i,
    decreases i,
{
    let replies = throttled(held, drained, k).take(i);
    if i > 0 {
        lemma_throttled_prefix(table, batch, held, drained, k, i - 1);
        assert(replies.drop_last() =~= throttled(held, drained, k).take(i - 1));
        assert(replies.last() == WriteReplyView::Unprocessed(Some(held)));
    }
}

/// A batch that is not empty, written to a store that leaves the same
/// operations unprocessed for the first `k` calls and none after that, is
/// written after exactly `k + 1` calls: the first submits the batch, each later
/// one exactly what was left unprocessed, and the writing then ends in success.
pub proof fn lemma_retry_until_drained(
    table: Seq<char>,
    batch: Seq<WriteView>,
    held: UnprocessedView,
    drained: Option<UnprocessedView>,
    k: nat,
)
    requires
        batch.len() > 0,
        pending_in(held, table).len() > 0,
        pending_for(drained, table).len() == 0,
    ensures
        forall|i: int|
            0 <= i <= k ==> (#[trigger] WriterView::start(table, batch).after(
                throttled(held, drained, k).take(i),
            )).action() == WriteAction::Submit(
                if i == 0 {
                    batch
                } else {
                    pending_in(held, table)
                },
            ),
        WriterView::start(table, batch).after(throttled(held, drained, k)).action()
            == WriteAction::Finish(Ok(())),
        WriterView::start(table, batch).calls(throttled(held, drained, k)) == k + 1,
{
    let writer = WriterView::start(table, batch);
    let replies = throttled(held, drained, k);
    assert forall|i: int| 0 <= i <= k implies (#[trigger] writer.after(replies.take(i))).action()
        == WriteAction::Submit(
        if i == 0 {
            batch
        } else {
            pending_in(held, table)
        },
    ) by {
        lemma_throttled_prefix(table, batch, held, drained, k, i);
    }
    lemma_throttled_prefix(table, batch, held, drained, k, k as int);
    assert(replies.drop_last() =~= replies.take(k as int));
    assert(replies.last() == WriteReplyView::Unprocessed(drained));
    assert(writer.after(replies).pending =~= Seq::<WriteView>::empty());
}

/// The outcome of a writing, as a mathematical value.
pub open spec fn outcome_view(outcome: Result<(), StoreError>) -> Result<(), StoreErrorView> {
    match outcome {
        Ok(_) => Ok(()),
        Err(e) => Err(e@),
    }
}

/// The writer of one batch to one table.
#[derive(Debug)]
pub struct BatchWriter {
    table_name: String,
    pending: Vec<WriteRequest>,
    failure: Option<String>,
}

impl View for BatchWriter {
    type V = WriterView;

    closed spec fn view(&self) -> WriterView {
        WriterView {
            table: self.table_name@,
            pending: writes_of(self.pending@),
            failure: match self.failure {
                Some(reason) => Some(reason@),
                None => None,
            },
        }
    }
}

impl BatchWriter {
    /// The writer that has all of `batch` still to submit to `table_name`.
    pub fn new(table_name: &str, batch: Batch) -> (writer: BatchWriter)
        ensures
            writer@ == WriterView::start(table_name@, batch@),
    {
        BatchWriter { table_name: table_name.to_owned(), pending: batch.into_ops(), failure: None }
    }

    /// The table written to.
    pub fn table_name(&self) -> (table_name: &String)
        ensures
            table_name@ == self@.table,
    {
        &self.table_name
    }

    /// The operations to submit in the next call, or `None` once the writing has ended.
    pub fn next_batch(&self) -> (batch: Option<&Vec<WriteRequest>>)
        ensures
            match batch {
                Some(ops) => self@.action() == WriteAction::Submit(writes_of(ops@)),
                None => self@.action() is Finish,
            },
    {
        if self.failure.is_none() && self.pending.len() > 0 {
            Some(&self.pending)
        } else {
            None
        }
    }

    /// How the writing ended, or `None` while there is something to submit.
    pub fn outcome(&self) -> (outcome: Option<Result<(), StoreError>>)
        ensures
            match outcome {
                Some(ended) => self@.action() == WriteAction::Finish(outcome_view(ended)),
                None => self@.action() is Submit,
            },
    {
        match &self.failure {
            Some(reason) => Some(Err(StoreError::StoreUnavailable(reason.clone()))),
            None => if self.pending.len() > 0 {
                None
            } else {
                Some(Ok(()))
            },
        }
    }

    /// Takes in the store's answer to the submission of `next_batch`.
    pub fn step(&mut self, reply: WriteReply)
        ensures
            final(self)@ == old(self)@.step(reply@),
    {
        if self.failure.is_some() || self.pending.len() == 0 {
            return ;
        }
        match reply {
            WriteReply::Failed(reason) => {
                self.failure = Some(reason);
            },
            WriteReply::Unprocessed(None) => {
                self.pending = Vec::new();
                assert(writes_of(self.pending@) =~= Seq::<WriteView>::empty());
            },
            WriteReply::Unprocessed(Some(set)) => {
                self.pending = set.take(self.table_name.as_str());
            },
        }
    }
}

} // verus!
