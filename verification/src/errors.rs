//! Why a transition of a view or a mutation was abandoned.

use vstd::prelude::*;
use vstd::string::StringExecFns;
use crate::store::{RequestView, StoreRequest};

verus! {

/// The ways in which handling an event can fail. Whatever the failure,
/// the state of the views is as it was before the event.
#[derive(Debug, PartialEq, Eq)]
pub enum LoreGuiError {
    /// A mutation was asked for while no store is connected. Queries do
    /// not fail in that way: without a store they have no rows.
    NoDatabase,
    /// Text that the user typed is not a value of the type that is
    /// needed, or a selection that the request builds on is missing.
    InputError(String),
    /// A query that may have one row at most had more. The store's data
    /// is damaged; no row is picked.
    MultipleResults,
    /// The store refused a request. The text is the store's own.
    StoreError(String),
    /// The store has not been asked this yet. Whoever holds the
    /// connection sends the request, records the answer and hands the
    /// event in again.
    Unanswered(StoreRequest),
}

/// An error as a plain value: the kind, and the characters of its text.
pub enum Failure {
    NoDatabase,
    InputError(Seq<char>),
    MultipleResults,
    StoreError(Seq<char>),
    Unanswered(RequestView),
}

impl View for LoreGuiError {
    type V = Failure;

    open spec fn view(&self) -> Failure {
        match *self {
            LoreGuiError::NoDatabase => Failure::NoDatabase,
            LoreGuiError::InputError(message) => Failure::InputError(message@),
            LoreGuiError::MultipleResults => Failure::MultipleResults,
            LoreGuiError::StoreError(message) => Failure::StoreError(message@),
            LoreGuiError::Unanswered(request) => Failure::Unanswered(request@),
        }
    }
}

/// A result as a plain value: what it holds, or the error as a plain value.
pub open spec fn outcome<T>(result: Result<T, LoreGuiError>) -> Result<T, Failure> {
    match result {
        Ok(value) => Ok(value),
        Err(error) => Err(error@),
    }
}

/// A list that was computed, or the error, as plain values.
pub open spec fn rows<T>(result: Result<Vec<T>, LoreGuiError>) -> Result<Seq<T>, Failure> {
    match result {
        Ok(list) => Ok(list@),
        Err(error) => Err(error@),
    }
}

/// Whether a transition ended as expected: on success in the state that
/// was expected, and on failure with the error that was expected and in
/// the state in which it began.
pub open spec fn lands<M>(
    result: Result<(), LoreGuiError>,
    before: M,
    after: M,
    expected: Result<M, Failure>,
) -> bool {
    match expected {
        Ok(target) => result is Ok && after == target,
        Err(failure) => outcome(result) == Err::<(), Failure>(failure) && after == before,
    }
}

/// What follows a step that may fail: the failure of the step, or else
/// what comes next.
pub open spec fn and_then<M>(first: Result<(), Failure>, next: Result<M, Failure>) -> Result<
    M,
    Failure,
> {
    match first {
        Ok(_) => next,
        Err(failure) => Err(failure),
    }
}

impl Failure {
    /// The words that tell the user of the error.
    pub open spec fn text(self) -> Seq<char> {
        match self {
            Failure::NoDatabase => "no database is connected"@,
            Failure::InputError(message) => "input error: "@ + message,
            Failure::MultipleResults => "more than one result where at most one was expected"@,
            Failure::StoreError(message) => "the database failed: "@ + message,
            Failure::Unanswered(_) => "the database has not been asked yet"@,
        }
    }
}

impl LoreGuiError {
    /// The words that tell the user of the error.
    pub fn message(&self) -> (message: String)
        ensures
            message@ == self@.text(),
    {
        match self {
            LoreGuiError::NoDatabase => "no database is connected".to_owned(),
            LoreGuiError::InputError(message) => "input error: ".to_owned().concat(
                message.as_str(),
            ),
            LoreGuiError::MultipleResults => {
                "more than one result where at most one was expected".to_owned()
            },
            LoreGuiError::StoreError(message) => "the database failed: ".to_owned().concat(
                message.as_str(),
            ),
            LoreGuiError::Unanswered(_) => "the database has not been asked yet".to_owned(),
        }
    }
}

impl Clone for LoreGuiError {
    fn clone(&self) -> (copy: Self)
        ensures
            copy == *self,
    {
        match self {
            LoreGuiError::NoDatabase => LoreGuiError::NoDatabase,
            LoreGuiError::InputError(message) => LoreGuiError::InputError(message.clone()),
            LoreGuiError::MultipleResults => LoreGuiError::MultipleResults,
            LoreGuiError::StoreError(message) => LoreGuiError::StoreError(message.clone()),
            LoreGuiError::Unanswered(request) => LoreGuiError::Unanswered(request.clone()),
        }
    }
}

} // verus!
