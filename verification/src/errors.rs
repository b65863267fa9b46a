//! The ways in which an operation on a quest is declined.

use vstd::prelude::*;

verus! {

/// The three families of failure.
#[derive(Clone, Copy, Debug, PartialEq, Eq, Structural)]
pub enum ErrorKind {
    /// The quest, or the membership, is absent.
    NotFound,
    /// A guard on status, capacity or occupancy declined the operation.
    PreconditionFailed,
    /// The store failed for a reason that no guard names.
    StoreFailure,
}

/// Why an operation was declined.
#[derive(Clone, Copy, Debug, PartialEq, Eq, Structural)]
pub enum QuestError {
    QuestNotFound,
    QuestNotJoinable,
    QuestNotLeavable,
    CrewFull,
    AlreadyMember,
    NotAMember,
    InvalidTransition,
    CrewAlreadyAssembled,
    StoreFailure,
}

impl QuestError {
    /// The family that the error belongs to.
    pub open spec fn spec_kind(self) -> ErrorKind {
        match self {
            QuestError::QuestNotFound => ErrorKind::NotFound,
            QuestError::StoreFailure => ErrorKind::StoreFailure,
            _ => ErrorKind::PreconditionFailed,
        }
    }

    /// The sentence shown to the caller.
    pub open spec fn message(self) -> Seq<char> {
        match self {
            QuestError::QuestNotFound => "Quest not found"@,
            QuestError::QuestNotJoinable => "The quest not joinable"@,
            QuestError::QuestNotLeavable => "The quest not leavable"@,
            QuestError::CrewFull => "The quest has adventures full"@,
            QuestError::AlreadyMember => "You already joined quest"@,
            QuestError::NotAMember => "Failed to leave quest"@,
            QuestError::InvalidTransition => "Cannot changed status of this quest"@,
            QuestError::CrewAlreadyAssembled => "Quest has been taken by adventurers now !!"@,
            QuestError::StoreFailure => "The quest store failed"@,
        }
    }

    /// The family that the error belongs to.
    #[verifier::when_used_as_spec(spec_kind)]
    pub fn kind(self) -> (kind: ErrorKind)
        ensures
            kind == self.spec_kind(),
    {
        match self {
            QuestError::QuestNotFound => ErrorKind::NotFound,
            QuestError::StoreFailure => ErrorKind::StoreFailure,
            _ => ErrorKind::PreconditionFailed,
        }
    }

    /// The sentence shown to the caller.
    pub fn to_string(&self) -> (text: String)
        ensures
            text@ == self.message(),
    {
        match self {
            QuestError::QuestNotFound => "Quest not found".to_owned(),
            QuestError::QuestNotJoinable => "The quest not joinable".to_owned(),
            QuestError::QuestNotLeavable => "The quest not leavable".to_owned(),
            QuestError::CrewFull => "The quest has adventures full".to_owned(),
            QuestError::AlreadyMember => "You already joined quest".to_owned(),
            QuestError::NotAMember => "Failed to leave quest".to_owned(),
            QuestError::InvalidTransition => "Cannot changed status of this quest".to_owned(),
            QuestError::CrewAlreadyAssembled => "Quest has been taken by adventurers now !!".to_owned(),
            QuestError::StoreFailure => "The quest store failed".to_owned(),
        }
    }
}

} // verus!
