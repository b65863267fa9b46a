//! Membership of an adventurer in a quest's crew.

use vstd::prelude::*;

verus! {

/// The most adventurers a quest's crew can hold.
pub const MAX_ADVENTURERS_PER_QUEST: i64 = 4;

/// One membership: this adventurer is part of this quest's crew.
#[derive(Clone, Copy, Debug, PartialEq, Eq, Structural)]
pub struct QuestAdventurerJunction {
    pub quest_id: i32,
    pub adventurer_id: i32,
}

} // verus!
