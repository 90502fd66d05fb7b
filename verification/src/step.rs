//! What a handler decides before the store is involved.

use vstd::prelude::*;
use crate::response::{Response, ResponseView};
use crate::statement::{Statement, StatementView};

verus! {

/// The next thing to do for a request.
#[derive(Debug, Clone, PartialEq, Eq)]
pub enum Step<R> {
    /// Answer at once; no statement is sent.
    Reply(Response<R>),
    /// Send this one statement and hand what comes back to the handler's
    /// second half.
    Execute(Statement),
}

/// Mathematical value of a [`Step`].
pub enum StepView<V> {
    Reply(ResponseView<V>),
    Execute(StatementView),
}

impl<R: View> View for Step<R> {
    type V = StepView<R::V>;

    open spec fn view(&self) -> StepView<R::V> {
        match self {
            Step::Reply(response) => StepView::Reply(response@),
            Step::Execute(statement) => StepView::Execute(statement@),
        }
    }
}

impl<V> StepView<V> {
    /// How many statements the step sends to the store.
    pub open spec fn statements_sent(self) -> nat {
        match self {
            StepView::Reply(_) => 0,
            StepView::Execute(_) => 1,
        }
    }
}

} // verus!
