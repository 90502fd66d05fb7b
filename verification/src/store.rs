//! The store boundary as the handlers see it: what came back for a
//! statement, and the rule for operations that expect a single row.

use vstd::prelude::*;
use crate::value::{cells, table, Row, ValueView};

verus! {

/// Number of connections that the pool of a deployment holds unless it is
/// constructed with another size. Requests beyond it wait for a
/// connection.
pub const DEFAULT_POOL_SIZE: u32 = 5;

/// Why a store operation produced no result.
#[derive(Debug, Clone, Copy, PartialEq, Eq)]
pub enum StoreFailure {
    /// A single-row operation matched no row.
    NoSuchResource,
    /// Anything else: the statement failed, a single-row operation matched
    /// several rows, or a row did not have the declared shape.
    TransientStoreError,
}

/// What the store handed back for one statement.
#[derive(Debug, Clone, PartialEq, Eq)]
pub enum Fetched {
    /// The statement ran; these are the rows it returned, possibly none.
    Rows(Vec<Row>),
    /// The statement did not run to completion.
    Failed,
}

/// Mathematical value of a [`Fetched`].
pub enum FetchedView {
    Rows(Seq<Seq<ValueView>>),
    Failed,
}

impl View for Fetched {
    type V = FetchedView;

    open spec fn view(&self) -> FetchedView {
        match self {
            Fetched::Rows(rows) => FetchedView::Rows(table(rows@)),
            Fetched::Failed => FetchedView::Failed,
        }
    }
}

/// The rows that a multi-row operation obtained: every row that came back,
/// or a failure when the statement did not complete.
pub open spec fn all_rows(fetched: FetchedView) -> Result<Seq<Seq<ValueView>>, StoreFailure> {
    match fetched {
        FetchedView::Rows(rows) => Ok(rows),
        FetchedView::Failed => Err(StoreFailure::TransientStoreError),
    }
}

/// The row that a single-row operation obtained. No row means that the
/// resource does not exist; several rows, or a statement that did not
/// complete, are store errors.
pub open spec fn only_row(fetched: FetchedView) -> Result<Seq<ValueView>, StoreFailure> {
    match fetched {
        FetchedView::Rows(rows) => if rows.len() == 1 {
            Ok(rows[0])
        } else if rows.len() == 0 {
            Err(StoreFailure::NoSuchResource)
        } else {
            Err(StoreFailure::TransientStoreError)
        },
        FetchedView::Failed => Err(StoreFailure::TransientStoreError),
    }
}

/// Applies the multi-row rule: hands the rows on, however many there are.
pub fn fetch_all(fetched: Fetched) -> (outcome: Result<Vec<Row>, StoreFailure>)
    ensures
        match all_rows(fetched@) {
            Ok(rows) => outcome matches Ok(found) && table(found@) == rows,
            Err(failure) => outcome == Err::<Vec<Row>, StoreFailure>(failure),
        },
{
    match fetched {
        Fetched::Rows(rows) => Ok(rows),
        Fetched::Failed => Err(StoreFailure::TransientStoreError),
    }
}

/// Applies the single-row rule: exactly one row is a result, anything else
/// a failure.
pub fn fetch_one(fetched: Fetched) -> (outcome: Result<Row, StoreFailure>)
    ensures
        match only_row(fetched@) {
            Ok(row) => outcome matches Ok(found) && cells(found@) == row,
            Err(failure) => outcome == Err::<Row, StoreFailure>(failure),
        },
{
    match fetched {
        Fetched::Rows(mut rows) => {
            if rows.len() == 1 {
                let row = rows.pop().unwrap();
                Ok(row)
            } else if rows.len() == 0 {
                Err(StoreFailure::NoSuchResource)
            } else {
                Err(StoreFailure::TransientStoreError)
            }
        },
        Fetched::Failed => Err(StoreFailure::TransientStoreError),
    }
}

} // verus!
