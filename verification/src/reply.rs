//! The classes of outcome that every answer falls into.
use vstd::prelude::*;
use crate::sleep_query::{NightAnswer, QueryError};
use crate::upload::UploadError;

verus! {

/// How a request ended.
#[derive(Debug, Clone, Copy, PartialEq, Eq, Structural)]
pub enum Outcome {
    /// The request was served. A list that finds nothing is served, too.
    Success,
    /// The client sent something that cannot be accepted. Nothing was read
    /// or written.
    Validation,
    /// The one record that was asked for does not exist.
    NotFound,
    /// The server could not do its part: the store failed, or it holds
    /// something that cannot be read.
    ServerFault,
}

/// The HTTP status of an outcome.
pub open spec fn status_code_of(outcome: Outcome) -> u16 {
    match outcome {
        Outcome::Success => 200,
        Outcome::Validation => 400,
        Outcome::NotFound => 404,
        Outcome::ServerFault => 500,
    }
}

/// The word under `status` in the envelope of an answer.
pub open spec fn status_word_of(outcome: Outcome) -> Seq<char> {
    match outcome {
        Outcome::Success => "success"@,
        _ => "error"@,
    }
}

/// The outcome of an upload that was turned down.
pub open spec fn outcome_of_upload_error(error: UploadError) -> Outcome {
    match error {
        UploadError::WrongStreamType => Outcome::Validation,
        UploadError::InvalidOwner => Outcome::ServerFault,
    }
}

/// The outcome of a query after one night.
pub open spec fn outcome_of_night_answer(answer: NightAnswer) -> Outcome {
    match answer {
        NightAnswer::Found(_) => Outcome::Success,
        NightAnswer::Unreadable(_) => Outcome::ServerFault,
        NightAnswer::Missing => Outcome::NotFound,
    }
}

impl Outcome {
    /// The HTTP status of this outcome.
    pub fn status_code(&self) -> (code: u16)
        ensures
            code == status_code_of(*self),
    {
        match self {
            Outcome::Success => 200,
            Outcome::Validation => 400,
            Outcome::NotFound => 404,
            Outcome::ServerFault => 500,
        }
    }

    /// The word under `status` in the envelope: `success` or `error`.
    pub fn status(&self) -> (word: &'static str)
        ensures
            word@ == status_word_of(*self),
    {
        match self {
            Outcome::Success => "success",
            _ => "error",
        }
    }

    /// The outcome of an upload that was turned down.
    pub fn of_upload_error(error: UploadError) -> (outcome: Outcome)
        ensures
            outcome == outcome_of_upload_error(error),
    {
        match error {
            UploadError::WrongStreamType => Outcome::Validation,
            UploadError::InvalidOwner => Outcome::ServerFault,
        }
    }

    /// The outcome of a query that was turned down: the client is at fault.
    pub fn of_query_error(error: QueryError) -> (outcome: Outcome)
        ensures
            outcome == Outcome::Validation,
    {
        Outcome::Validation
    }

    /// The outcome of a query after one night. A night without a record is
    /// not found; it is no empty success.
    pub fn of_night_answer(answer: NightAnswer) -> (outcome: Outcome)
        ensures
            outcome == outcome_of_night_answer(answer),
    {
        match answer {
            NightAnswer::Found(_) => Outcome::Success,
            NightAnswer::Unreadable(_) => Outcome::ServerFault,
            NightAnswer::Missing => Outcome::NotFound,
        }
    }
}

} // verus!
