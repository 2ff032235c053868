//! The engine-facing error model: every fault the storage layer or the
//! domain rules can raise, classified into the four categories the HTTP
//! layer and the retry policy act on. Only storage contention is
//! retryable; retrying anything else cannot change the outcome.

use crate::errors::Error as StorageError;
use vstd::prelude::*;

verus! {

/// Whether an add-or-update created the record or replaced it.
#[derive(Clone, Copy, Debug, PartialEq, Eq, Structural)]
pub enum AddOrUpdateOperation {
    Add,
    Update,
}

#[derive(Clone, Copy, Debug, PartialEq, Eq, Structural)]
pub enum ErrorCode {
    CardNotFound,
    CharacterNotFound,
    CharacterPreoccupied,
    CompendiumEmpty,
    DailyAlreadyClaimed,
    DrawStageEmpty,
    DrawStagePopulated,
    IdMismatch,
    InsufficientFunds,
    JobNotFound,
    Other,
    StorageGeneric,
    StorageTransaction,
    UserNotFound,
}

#[derive(Clone, Copy, Debug, PartialEq, Eq, Structural)]
pub enum ErrorCategory {
    BadRequest,
    FailedPrecondition,
    Internal,
    InternalRetryable,
}

/// What a code classifies as: absent or mismatched records are the
/// caller's fault; exhausted or broken internals are the server's;
/// violated domain preconditions are final; storage contention alone is
/// worth retrying.
pub open spec fn spec_classify(code: ErrorCode) -> ErrorCategory {
    match code {
        ErrorCode::CardNotFound => ErrorCategory::BadRequest,
        ErrorCode::CharacterNotFound => ErrorCategory::BadRequest,
        ErrorCode::IdMismatch => ErrorCategory::BadRequest,
        ErrorCode::JobNotFound => ErrorCategory::BadRequest,
        ErrorCode::UserNotFound => ErrorCategory::BadRequest,
        ErrorCode::CompendiumEmpty => ErrorCategory::Internal,
        ErrorCode::Other => ErrorCategory::Internal,
        ErrorCode::StorageGeneric => ErrorCategory::Internal,
        ErrorCode::CharacterPreoccupied => ErrorCategory::FailedPrecondition,
        ErrorCode::DailyAlreadyClaimed => ErrorCategory::FailedPrecondition,
        ErrorCode::DrawStageEmpty => ErrorCategory::FailedPrecondition,
        ErrorCode::DrawStagePopulated => ErrorCategory::FailedPrecondition,
        ErrorCode::InsufficientFunds => ErrorCategory::FailedPrecondition,
        ErrorCode::StorageTransaction => ErrorCategory::InternalRetryable,
    }
}

#[derive(Debug)]
pub enum ErrorSource {
    Storage(StorageError),
}

#[derive(Debug)]
pub struct Error {
    pub code: ErrorCode,
    pub source: Option<ErrorSource>,
}

impl Error {
    pub fn new(code: ErrorCode, source: Option<ErrorSource>) -> (r: Error)
        ensures
            r.code == code,
            r.source == source,
    {
        Error { code, source }
    }

    pub fn classify(&self) -> (r: ErrorCategory)
        ensures
            r == spec_classify(self.code),
    {
        match self.code {
            ErrorCode::CardNotFound => ErrorCategory::BadRequest,
            ErrorCode::CharacterNotFound => ErrorCategory::BadRequest,
            ErrorCode::IdMismatch => ErrorCategory::BadRequest,
            ErrorCode::JobNotFound => ErrorCategory::BadRequest,
            ErrorCode::UserNotFound => ErrorCategory::BadRequest,
            ErrorCode::CompendiumEmpty => ErrorCategory::Internal,
            ErrorCode::Other => ErrorCategory::Internal,
            ErrorCode::StorageGeneric => ErrorCategory::Internal,
            ErrorCode::CharacterPreoccupied => ErrorCategory::FailedPrecondition,
            ErrorCode::DailyAlreadyClaimed => ErrorCategory::FailedPrecondition,
            ErrorCode::DrawStageEmpty => ErrorCategory::FailedPrecondition,
            ErrorCode::DrawStagePopulated => ErrorCategory::FailedPrecondition,
            ErrorCode::InsufficientFunds => ErrorCategory::FailedPrecondition,
            ErrorCode::StorageTransaction => ErrorCategory::InternalRetryable,
        }
    }
}

impl From<StorageError> for Error {
    /// A storage fault surfaces as an engine error: contention keeps its
    /// retryable classification, everything else is a generic storage
    /// fault; the cause is carried along.
    fn from(e: StorageError) -> (r: Error) {
        let code = match &e {
            StorageError::Transaction(_) => ErrorCode::StorageTransaction,
            _ => ErrorCode::StorageGeneric,
        };
        Error { code, source: Some(ErrorSource::Storage(e)) }
    }
}

impl vstd::std_specs::convert::FromSpecImpl<StorageError> for Error {
    open spec fn obeys_from_spec() -> bool {
        true
    }

    open spec fn from_spec(e: StorageError) -> Error {
        Error {
            code: if e is Transaction {
                ErrorCode::StorageTransaction
            } else {
                ErrorCode::StorageGeneric
            },
            source: Some(ErrorSource::Storage(e)),
        }
    }
}

/// Adds earned experience to a level/experience pair, carrying each full
/// hundred experience points into a level.
pub fn experience_add(original_level: u32, original_exp: u32, exp_to_add: u32) -> (r: (u32, u32))
    requires
        original_exp + exp_to_add <= u32::MAX,
        original_level + (original_exp + exp_to_add) / 100 <= u32::MAX,
    ensures
        r.0 == original_level + (original_exp + exp_to_add) / 100,
        r.1 == (original_exp + exp_to_add) % 100,
        r.1 < 100,
{
    let gained: u32 = original_exp + exp_to_add;
    let new_level: u32 = original_level + gained / 100;
    let new_exp: u32 = gained % 100;
    (new_level, new_exp)
}

} // verus!
