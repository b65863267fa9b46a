//! The lifecycle machine: when a quest may change its status.

use vstd::prelude::*;
use crate::errors::QuestError;
use crate::quest_adventurer_junction::MAX_ADVENTURERS_PER_QUEST;
use crate::quest_statuses::QuestStatuses;

verus! {

/// Whether a quest in status `current`, with a crew of this size, may move to
/// `target`. Besides an edge of the lifecycle, a departure needs a crew of at
/// least one and at most the cap; the end of a journey asks nothing of the crew.
pub open spec fn transition_decision(
    current: QuestStatuses,
    adventurers_count: i64,
    target: QuestStatuses,
) -> Result<(), QuestError> {
    if QuestStatuses::transition_allowed(current, target) && (target == QuestStatuses::InJourney
        ==> 0 < adventurers_count <= MAX_ADVENTURERS_PER_QUEST) {
        Ok(())
    } else {
        Err(QuestError::InvalidTransition)
    }
}

/// The answer to a change of status, given how many quests the store
/// changed when it was asked to change this one only if its status still
/// allowed the step: the quest's id where it changed one, and a declined
/// transition where it changed none, because the quest had moved on.
pub open spec fn transition_outcome_of(rows_changed: usize, quest_id: i32) -> Result<i32, QuestError> {
    if rows_changed == 0 {
        Err(QuestError::InvalidTransition)
    } else {
        Ok(quest_id)
    }
}

/// Names the store's answer to a conditional change of status.
pub fn transition_outcome(rows_changed: usize, quest_id: i32) -> (answer: Result<i32, QuestError>)
    ensures
        answer == transition_outcome_of(rows_changed, quest_id),
{
    if rows_changed == 0 {
        return Err(QuestError::InvalidTransition);
    }
    Ok(quest_id)
}

/// Judges a change of status from the status and the size of the crew that
/// were read.
pub fn transition_guard(
    current: QuestStatuses,
    adventurers_count: i64,
    target: QuestStatuses,
) -> (verdict: Result<(), QuestError>)
    ensures
        verdict == transition_decision(current, adventurers_count, target),
{
    let can_update = QuestStatuses::can_transition(current, target) && (target
        != QuestStatuses::InJourney || (adventurers_count > 0 && adventurers_count
        <= MAX_ADVENTURERS_PER_QUEST));
    if !can_update {
        return Err(QuestError::InvalidTransition);
    }
    Ok(())
}

/// May the quest depart?
pub fn in_journey_guard(current: QuestStatuses, adventurers_count: i64) -> (verdict: Result<
    (),
    QuestError,
>)
    ensures
        verdict == transition_decision(current, adventurers_count, QuestStatuses::InJourney),
        verdict is Ok <==> current.roster_is_open() && 1 <= adventurers_count
            <= MAX_ADVENTURERS_PER_QUEST,
{
    transition_guard(current, adventurers_count, QuestStatuses::InJourney)
}

/// May the journey end in success?
pub fn to_completed_guard(current: QuestStatuses) -> (verdict: Result<(), QuestError>)
    ensures
        verdict == transition_decision(current, 0, QuestStatuses::Completed),
        verdict is Ok <==> current == QuestStatuses::InJourney,
{
    transition_guard(current, 0, QuestStatuses::Completed)
}

/// May the journey end in failure?
pub fn to_failed_guard(current: QuestStatuses) -> (verdict: Result<(), QuestError>)
    ensures
        verdict == transition_decision(current, 0, QuestStatuses::Failed),
        verdict is Ok <==> current == QuestStatuses::InJourney,
{
    transition_guard(current, 0, QuestStatuses::Failed)
}

} // verus!
