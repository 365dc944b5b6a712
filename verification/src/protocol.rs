//! The shape that every operation needing a collaborator takes: it is
//! advanced one event at a time, and each advance says what comes next.

use vstd::prelude::*;
use crate::error::{WorkerError, WorkerErrorView};

verus! {

/// What an operation asks of its driver after an event.
#[derive(Debug, PartialEq, Eq)]
pub enum Step<A, T> {
    /// The driver performs the action and reports its outcome as the next
    /// event.
    Perform(A),
    /// The operation has ended, with this result.
    Finished(Result<T, WorkerError>),
    /// The event answers nothing that was asked: nothing has changed.
    Ignored,
}

pub enum StepView<A, T> {
    Perform(A),
    Finished(Result<T, WorkerErrorView>),
    Ignored,
}

impl<A: View, T: View> View for Step<A, T> {
    type V = StepView<A::V, T::V>;

    open spec fn view(&self) -> StepView<A::V, T::V> {
        match self {
            Step::Perform(action) => StepView::Perform(action@),
            Step::Finished(Ok(value)) => StepView::Finished(Ok(value@)),
            Step::Finished(Err(error)) => StepView::Finished(Err(error@)),
            Step::Ignored => StepView::Ignored,
        }
    }
}

/// A collaborator's outcome: what it yielded, or the text of its failure.
pub open spec fn outcome_view<T>(outcome: Result<T, String>) -> Result<T, Seq<char>> {
    match outcome {
        Ok(value) => Ok(value),
        Err(text) => Err(text@),
    }
}

} // verus!
