//! Admission control: who may join a quest's crew, and who may leave it.

use vstd::prelude::*;
use crate::errors::QuestError;
use crate::quest_adventurer_junction::MAX_ADVENTURERS_PER_QUEST;
use crate::quest_statuses::QuestStatuses;

verus! {

/// Whether a quest in this status, with a crew of this size, takes the
/// adventurer, who is or is not in the crew already. The cap is judged of a
/// newcomer only, and before the status: a full crew is reported before a
/// closed roster. Who is in the crew already is told so wherever the roster
/// is open, however full the crew is.
pub open spec fn join_decision(
    status: QuestStatuses,
    adventurers_count: i64,
    is_member: bool,
) -> Result<(), QuestError> {
    if !is_member && adventurers_count >= MAX_ADVENTURERS_PER_QUEST {
        Err(QuestError::CrewFull)
    } else if !status.roster_is_open() {
        Err(QuestError::QuestNotJoinable)
    } else if is_member {
        Err(QuestError::AlreadyMember)
    } else {
        Ok(())
    }
}

/// Whether a quest in this status lets an adventurer go.
pub open spec fn leave_decision(status: QuestStatuses) -> Result<(), QuestError> {
    if status.roster_is_open() {
        Ok(())
    } else {
        Err(QuestError::QuestNotLeavable)
    }
}

/// What a store answers when asked to record a membership.
#[derive(Clone, Copy, Debug, PartialEq, Eq, Structural)]
pub enum InsertOutcome {
    /// The membership is recorded.
    Inserted,
    /// The store already holds this adventurer in this crew.
    DuplicateMembership,
    /// The store holds a full crew for this quest.
    CapacityExceeded,
    /// The store failed otherwise.
    Failed,
}

/// The answer to a join, given what the store said at insert time. The store
/// has the last word: its refusals are named, not passed on as a plain failure.
pub open spec fn join_outcome_of(outcome: InsertOutcome) -> Result<(), QuestError> {
    match outcome {
        InsertOutcome::Inserted => Ok(()),
        InsertOutcome::DuplicateMembership => Err(QuestError::AlreadyMember),
        InsertOutcome::CapacityExceeded => Err(QuestError::CrewFull),
        InsertOutcome::Failed => Err(QuestError::StoreFailure),
    }
}

/// The answer to a leave, given how many memberships the store deleted.
pub open spec fn leave_outcome_of(rows_deleted: usize) -> Result<(), QuestError> {
    if rows_deleted == 0 {
        Err(QuestError::NotAMember)
    } else {
        Ok(())
    }
}

/// Judges a join from what was read: the quest's status, the size of its
/// crew, and whether the adventurer is in the crew already.
pub fn join_guard(status: QuestStatuses, adventurers_count: i64, is_member: bool) -> (verdict: Result<
    (),
    QuestError,
>)
    ensures
        verdict == join_decision(status, adventurers_count, is_member),
{
    if !is_member && adventurers_count >= MAX_ADVENTURERS_PER_QUEST {
        return Err(QuestError::CrewFull);
    }
    if !status.can_join() {
        return Err(QuestError::QuestNotJoinable);
    }
    if is_member {
        return Err(QuestError::AlreadyMember);
    }
    Ok(())
}

/// Judges a leave from the status that was read.
pub fn leave_guard(status: QuestStatuses) -> (verdict: Result<(), QuestError>)
    ensures
        verdict == leave_decision(status),
{
    if !status.can_join() {
        return Err(QuestError::QuestNotLeavable);
    }
    Ok(())
}

/// Names the store's answer to an insert.
pub fn join_outcome(outcome: InsertOutcome) -> (answer: Result<(), QuestError>)
    ensures
        answer == join_outcome_of(outcome),
{
    match outcome {
        InsertOutcome::Inserted => Ok(()),
        InsertOutcome::DuplicateMembership => Err(QuestError::AlreadyMember),
        InsertOutcome::CapacityExceeded => Err(QuestError::CrewFull),
        InsertOutcome::Failed => Err(QuestError::StoreFailure),
    }
}

/// Names the store's answer to a delete.
pub fn leave_outcome(rows_deleted: usize) -> (answer: Result<(), QuestError>)
    ensures
        answer == leave_outcome_of(rows_deleted),
{
    if rows_deleted == 0 {
        return Err(QuestError::NotAMember);
    }
    Ok(())
}

} // verus!
