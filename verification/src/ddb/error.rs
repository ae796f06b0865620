//! The ways in which work on the table fails.
use vstd::prelude::*;

verus! {

/// A failure of the table's lifecycle or of a bulk load.
#[derive(Debug, PartialEq, Eq)]
pub enum StoreError {
    /// A call to the store failed; the text says how. It is handed on as it came.
    StoreUnavailable(String),
    /// The named table did not become active within the polls allowed.
    TableNotReady(String),
    /// A batch was asked for with this many operations, more than the store takes.
    BatchTooLarge(usize),
}

/// What a [`StoreError`] is, as a mathematical value.
pub enum StoreErrorView {
    StoreUnavailable(Seq<char>),
    TableNotReady(Seq<char>),
    BatchTooLarge(nat),
}

impl View for StoreError {
    type V = StoreErrorView;

    open spec fn view(&self) -> StoreErrorView {
        match self {
            StoreError::StoreUnavailable(reason) => StoreErrorView::StoreUnavailable(reason@),
            StoreError::TableNotReady(table_name) => StoreErrorView::TableNotReady(table_name@),
            StoreError::BatchTooLarge(size) => StoreErrorView::BatchTooLarge(*size as nat),
        }
    }
}

impl StoreError {
    /// The failure of a table that did not become active in time.
    pub fn table_not_ready(table_name: &str) -> (error: StoreError)
        ensures
            error@ == StoreErrorView::TableNotReady(table_name@),
    {
        StoreError::TableNotReady(table_name.to_owned())
    }

    /// A copy of this failure.
    pub fn duplicate(&self) -> (error: StoreError)
        ensures
            error@ == self@,
    {
        match self {
            StoreError::StoreUnavailable(reason) => StoreError::StoreUnavailable(reason.clone()),
            StoreError::TableNotReady(table_name) => StoreError::TableNotReady(table_name.clone()),
            StoreError::BatchTooLarge(size) => StoreError::BatchTooLarge(*size),
        }
    }
}

} // verus!
