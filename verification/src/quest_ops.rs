//! The guard on a quest's definition: when it may be edited or removed.

use vstd::prelude::*;
use crate::errors::QuestError;

verus! {

/// A quest's definition may change only while nobody has joined it.
pub open spec fn definition_decision(adventurers_count: i64) -> Result<(), QuestError> {
    if adventurers_count > 0 {
        Err(QuestError::CrewAlreadyAssembled)
    } else {
        Ok(())
    }
}

/// The answer to an edit or a removal, given how many quests the store changed.
pub open spec fn definition_outcome_of(rows_changed: usize) -> Result<(), QuestError> {
    if rows_changed == 0 {
        Err(QuestError::QuestNotFound)
    } else {
        Ok(())
    }
}

/// Judges an edit from the size of the crew that was read.
pub fn edit_guard(adventurers_count: i64) -> (verdict: Result<(), QuestError>)
    ensures
        verdict == definition_decision(adventurers_count),
{
    if adventurers_count > 0 {
        return Err(QuestError::CrewAlreadyAssembled);
    }
    Ok(())
}

/// Judges a removal from the size of the crew that was read.
pub fn remove_guard(adventurers_count: i64) -> (verdict: Result<(), QuestError>)
    ensures
        verdict == definition_decision(adventurers_count),
{
    if adventurers_count > 0 {
        return Err(QuestError::CrewAlreadyAssembled);
    }
    Ok(())
}

/// Names the store's answer to an edit or a removal.
pub fn definition_outcome(rows_changed: usize) -> (answer: Result<(), QuestError>)
    ensures
        answer == definition_outcome_of(rows_changed),
{
    if rows_changed == 0 {
        return Err(QuestError::QuestNotFound);
    }
    Ok(())
}

} // verus!
