//! The one value an invocation produces.

use crate::error::BridgeError;
use vstd::prelude::*;

verus! {

/// What one invocation of the foreign function came to: the decoded text it
/// returned, or the message of the failure that ended it.
#[derive(Debug, PartialEq, Eq)]
pub enum CallOutcome {
    Success(String),
    Failure(String),
}

/// The mathematical value of a [`CallOutcome`].
pub enum CallOutcomeView {
    Success(Seq<char>),
    Failure(Seq<char>),
}

impl View for CallOutcome {
    type V = CallOutcomeView;

    open spec fn view(&self) -> CallOutcomeView {
        match self {
            CallOutcome::Success(payload) => CallOutcomeView::Success(payload@),
            CallOutcome::Failure(message) => CallOutcomeView::Failure(message@),
        }
    }
}

impl CallOutcome {
    /// The failure outcome that reports `error` by its message.
    pub fn from_error(error: &BridgeError) -> (outcome: CallOutcome)
        ensures
            outcome@ == CallOutcomeView::Failure(error@.message()),
    {
        CallOutcome::Failure(error.message())
    }
}

} // verus!
