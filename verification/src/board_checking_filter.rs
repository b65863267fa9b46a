//! What to look for on the quest board.

use vstd::prelude::*;
use crate::quest_statuses::QuestStatuses;

verus! {

/// Each field that is set narrows the board: `name` to quests whose name holds
/// it, letter case aside, and `status` to quests in exactly that status.
#[derive(Debug)]
pub struct BoardCheckingFilter {
    pub name: Option<String>,
    pub status: Option<QuestStatuses>,
}

} // verus!
