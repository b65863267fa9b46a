//! The quest store as mathematics: what it holds, what holds of it at every
//! instant, and what each operation answers and leaves behind.

use vstd::prelude::*;
use crate::board_checking_filter::BoardCheckingFilter;
use crate::crew_switchboard::{join_decision, leave_decision};
use crate::errors::QuestError;
use crate::journey_ledger::transition_decision;
use crate::quest_adventurer_junction::{QuestAdventurerJunction, MAX_ADVENTURERS_PER_QUEST};
use crate::quest_model::QuestModel;
use crate::quest_ops::definition_decision;
use crate::quest_statuses::QuestStatuses;
use crate::quest_viewing::filter_accepts;
use crate::quests::{AddQuestEntity, EditQuestEntity, QuestEntity, QuestRecord};

verus! {

/// How many memberships in `roster` belong to the quest.
pub open spec fn crew_size(roster: Seq<QuestAdventurerJunction>, quest_id: i32) -> nat
    decreases roster.len(),
{
    if roster.len() == 0 {
        0
    } else {
        crew_size(roster.drop_last(), quest_id) + if roster.last().quest_id == quest_id {
            1nat
        } else {
            0nat
        }
    }
}

/// What the store holds, as mathematics: the quests in the order in which they
/// were posted, the memberships in the order in which they were made, and the
/// id that the next quest will get.
pub struct StoreState {
    pub quests: Seq<QuestRecord>,
    pub roster: Seq<QuestAdventurerJunction>,
    pub next_id: int,
}

impl StoreState {
    /// A store with no quest and no crew, whose first quest will be quest 1.
    pub open spec fn empty() -> StoreState {
        StoreState { quests: Seq::empty(), roster: Seq::empty(), next_id: 1 }
    }

    /// The record at `i` is the quest `quest_id`, and it has not been removed.
    pub open spec fn live_at(self, i: int, quest_id: i32) -> bool {
        &&& 0 <= i < self.quests.len()
        &&& self.quests[i].quest.id == quest_id
        &&& self.quests[i].deleted_at is None
    }

    /// The quest exists and has not been removed.
    pub open spec fn has_live(self, quest_id: i32) -> bool {
        exists|i: int| self.live_at(i, quest_id)
    }

    /// Where the quest stands among the records, if it is on the board.
    pub open spec fn live_index(self, quest_id: i32) -> int {
        choose|i: int| self.live_at(i, quest_id)
    }

    /// The quest as it stands on the board.
    pub open spec fn live_quest(self, quest_id: i32) -> QuestEntity {
        self.quests[self.live_index(quest_id)].quest
    }

    /// The size of the quest's crew.
    pub open spec fn crew_count(self, quest_id: i32) -> nat {
        crew_size(self.roster, quest_id)
    }

    /// The adventurer is in the quest's crew.
    pub open spec fn is_member(self, junction: QuestAdventurerJunction) -> bool {
        self.roster.contains(junction)
    }

    /// What holds of the store at every instant: no two quests share an id,
    /// every member is in the crew of a quest that is on the board, no
    /// adventurer is twice in one crew, and no crew is larger than the cap.
    pub open spec fn wf(self) -> bool {
        &&& 1 <= self.next_id <= i32::MAX
        &&& forall|i: int| 0 <= i < self.quests.len() ==> 0 < (#[trigger] self.quests[i]).quest.id < self.next_id
        &&& forall|i: int, j: int|
            0 <= i < j < self.quests.len() ==> (#[trigger] self.quests[i]).quest.id != (
            #[trigger] self.quests[j]).quest.id
        &&& forall|k: int|
            0 <= k < self.roster.len() ==> 0 < (#[trigger] self.roster[k]).quest_id < self.next_id
        &&& forall|k: int|
            0 <= k < self.roster.len() ==> self.has_live((#[trigger] self.roster[k]).quest_id)
        &&& self.roster.no_duplicates()
        &&& forall|quest_id: i32| #[trigger] crew_size(self.roster, quest_id) <= MAX_ADVENTURERS_PER_QUEST
    }

    /// The answer to a join. The quest is looked up first; then its status,
    /// the size of its crew and the adventurer's membership are judged
    /// together.
    pub open spec fn join_result(self, junction: QuestAdventurerJunction) -> Result<(), QuestError> {
        if !self.has_live(junction.quest_id) {
            Err(QuestError::QuestNotFound)
        } else {
            join_decision(
                self.live_quest(junction.quest_id).status,
                self.crew_count(junction.quest_id) as i64,
                self.is_member(junction),
            )
        }
    }

    /// The store after a join: one membership more where it succeeds, and
    /// nothing changed where it does not.
    pub open spec fn after_join(self, junction: QuestAdventurerJunction) -> StoreState {
        if self.join_result(junction) is Ok {
            StoreState { roster: self.roster.push(junction), ..self }
        } else {
            self
        }
    }

    /// The answer to a leave.
    pub open spec fn leave_result(self, junction: QuestAdventurerJunction) -> Result<
        (),
        QuestError,
    > {
        if !self.has_live(junction.quest_id) {
            Err(QuestError::QuestNotFound)
        } else {
            match leave_decision(self.live_quest(junction.quest_id).status) {
                Err(e) => Err(e),
                Ok(_) => if self.is_member(junction) {
                    Ok(())
                } else {
                    Err(QuestError::NotAMember)
                },
            }
        }
    }

    /// The store after a leave: that membership gone where it succeeds, and
    /// nothing changed where it does not.
    pub open spec fn after_leave(self, junction: QuestAdventurerJunction) -> StoreState {
        if self.leave_result(junction) is Ok {
            StoreState { roster: self.roster.remove(self.roster.index_of(junction)), ..self }
        } else {
            self
        }
    }

    /// The answer to a change of status: the quest's id where the lifecycle
    /// allows the step from the status that the quest has at this instant.
    pub open spec fn transition_result(self, quest_id: i32, target: QuestStatuses) -> Result<
        i32,
        QuestError,
    > {
        if !self.has_live(quest_id) {
            Err(QuestError::QuestNotFound)
        } else {
            match transition_decision(
                self.live_quest(quest_id).status,
                self.crew_count(quest_id) as i64,
                target,
            ) {
                Err(e) => Err(e),
                Ok(_) => Ok(quest_id),
            }
        }
    }

    /// The store after a change of status: where it succeeds the quest has the
    /// new status and records the commander who enacted it.
    pub open spec fn after_transition(
        self,
        quest_id: i32,
        guild_commander_id: i32,
        target: QuestStatuses,
    ) -> StoreState {
        if self.transition_result(quest_id, target) is Ok {
            let i = self.live_index(quest_id);
            let record = self.quests[i];
            StoreState {
                quests: self.quests.update(
                    i,
                    QuestRecord {
                        quest: QuestEntity { status: target, guild_commander_id, ..record.quest },
                        ..record
                    },
                ),
                ..self
            }
        } else {
            self
        }
    }

    /// The answer to posting a quest: the next id, while ids are left.
    pub open spec fn add_result(self) -> Result<i32, QuestError> {
        if self.next_id < i32::MAX {
            Ok(self.next_id as i32)
        } else {
            Err(QuestError::StoreFailure)
        }
    }

    /// The record of a quest posted under `id`.
    pub open spec fn posted(entity: AddQuestEntity, id: i32) -> QuestRecord {
        QuestRecord {
            quest: QuestEntity {
                id,
                name: entity.name,
                description: entity.description,
                status: entity.status,
                guild_commander_id: entity.guild_commander_id,
                created_at: entity.created_at,
                updated_at: entity.updated_at,
            },
            deleted_at: None,
        }
    }

    /// The store after posting a quest.
    pub open spec fn after_add(self, entity: AddQuestEntity) -> StoreState {
        if self.add_result() is Ok {
            StoreState {
                quests: self.quests.push(StoreState::posted(entity, self.next_id as i32)),
                next_id: self.next_id + 1,
                ..self
            }
        } else {
            self
        }
    }

    /// Whether the quest's definition may be touched: nobody has joined it,
    /// and it is on the board.
    pub open spec fn definition_result(self, quest_id: i32) -> Result<(), QuestError> {
        match definition_decision(self.crew_count(quest_id) as i64) {
            Err(e) => Err(e),
            Ok(_) => if self.has_live(quest_id) {
                Ok(())
            } else {
                Err(QuestError::QuestNotFound)
            },
        }
    }

    /// The answer to an edit.
    pub open spec fn edit_result(self, quest_id: i32) -> Result<i32, QuestError> {
        match self.definition_result(quest_id) {
            Err(e) => Err(e),
            Ok(_) => Ok(quest_id),
        }
    }

    /// The quest after a change: a field that the change leaves unset stays,
    /// and the quest stays with the commander who is recorded on it.
    pub open spec fn edited(quest: QuestEntity, change: EditQuestEntity) -> QuestEntity {
        QuestEntity {
            name: match change.name {
                Some(name) => name,
                None => quest.name,
            },
            description: match change.description {
                Some(description) => Some(description),
                None => quest.description,
            },
            updated_at: change.updated_at,
            ..quest
        }
    }

    /// The store after an edit.
    pub open spec fn after_edit(self, quest_id: i32, change: EditQuestEntity) -> StoreState {
        if self.definition_result(quest_id) is Ok {
            let i = self.live_index(quest_id);
            let record = self.quests[i];
            StoreState {
                quests: self.quests.update(
                    i,
                    QuestRecord { quest: StoreState::edited(record.quest, change), ..record },
                ),
                ..self
            }
        } else {
            self
        }
    }

    /// The store after a removal: where it succeeds the quest carries the
    /// time of its removal. Nothing is erased.
    pub open spec fn after_remove(self, quest_id: i32, deleted_at: i64) -> StoreState {
        if self.definition_result(quest_id) is Ok {
            let i = self.live_index(quest_id);
            let record = self.quests[i];
            StoreState {
                quests: self.quests.update(i, QuestRecord { deleted_at: Some(deleted_at), ..record }),
                ..self
            }
        } else {
            self
        }
    }

    /// What a reader sees of a quest: the quest with the size of its crew at
    /// this instant, unless it is absent or removed.
    pub open spec fn view_result(self, quest_id: i32) -> Result<QuestModel, QuestError> {
        if self.has_live(quest_id) {
            Ok(self.live_quest(quest_id).model(self.crew_count(quest_id) as i64))
        } else {
            Err(QuestError::QuestNotFound)
        }
    }

    /// The record at `i` is on the board under the filter: it has not been
    /// removed, and the filter lets it through.
    pub open spec fn on_board(self, i: int, filter: BoardCheckingFilter) -> bool {
        &&& 0 <= i < self.quests.len()
        &&& self.quests[i].deleted_at is None
        &&& filter_accepts(filter, self.quests[i].quest)
    }

    /// What a reader sees of the record at `i`.
    pub open spec fn board_entry(self, i: int) -> QuestModel {
        self.quests[i].quest.model(self.crew_count(self.quests[i].quest.id) as i64)
    }

    /// `entry` is what a reader sees of some quest that is on the board under
    /// the filter.
    pub open spec fn shows(self, filter: BoardCheckingFilter, entry: QuestModel) -> bool {
        exists|i: int| #[trigger] self.on_board(i, filter) && entry == self.board_entry(i)
    }

    /// `board` is the board under the filter: it shows quests that are on the
    /// board and nothing else, each with the size of its crew, all of them,
    /// none twice, and the newest first.
    pub open spec fn is_board(self, filter: BoardCheckingFilter, board: Seq<QuestModel>) -> bool {
        &&& forall|a: int| 0 <= a < board.len() ==> self.shows(filter, #[trigger] board[a])
        &&& forall|i: int| #[trigger]
            self.on_board(i, filter) ==> exists|a: int|
                0 <= a < board.len() && #[trigger] board[a] == self.board_entry(i)
        &&& forall|a: int, b: int|
            0 <= a < b < board.len() ==> (#[trigger] board[a]).id != (#[trigger] board[b]).id
        &&& forall|a: int, b: int|
            0 <= a < b < board.len() ==> (#[trigger] board[a]).created_at >= (
            #[trigger] board[b]).created_at
    }
}

/// What stands where after one element is put into a sequence.
pub proof fn insert_places<A>(s: Seq<A>, p: int, x: A)
    requires
        0 <= p <= s.len(),
    ensures
        s.insert(p, x).len() == s.len() + 1,
        forall|a: int| 0 <= a < p ==> #[trigger] s.insert(p, x)[a] == s[a],
        s.insert(p, x)[p] == x,
        forall|a: int| p < a <= s.len() ==> #[trigger] s.insert(p, x)[a] == s[a - 1],
{
}

/// A membership counts for its quest's crew.
pub proof fn member_is_counted(roster: Seq<QuestAdventurerJunction>, k: int)
    requires
        0 <= k < roster.len(),
    ensures
        crew_size(roster, roster[k].quest_id) >= 1,
    decreases roster.len(),
{
    if k < roster.len() - 1 {
        member_is_counted(roster.drop_last(), k);
    }
}

/// Replacing a record by one with the same id keeps the store well formed, as
/// long as the new record is not removed or its quest has no crew.
pub proof fn wf_after_update(state: StoreState, i: int, record: QuestRecord)
    requires
        state.wf(),
        0 <= i < state.quests.len(),
        record.quest.id == state.quests[i].quest.id,
        record.deleted_at is None || state.crew_count(record.quest.id) == 0,
    ensures
        (StoreState { quests: state.quests.update(i, record), ..state }).wf(),
{
    let after = StoreState { quests: state.quests.update(i, record), ..state };
    assert forall|a: int| 0 <= a < after.quests.len() implies 0 < (
    #[trigger] after.quests[a]).quest.id < after.next_id by {
        assert(after.quests[a].quest.id == state.quests[a].quest.id);
    }
    assert forall|a: int, b: int| 0 <= a < b < after.quests.len() implies (
    #[trigger] after.quests[a]).quest.id != (#[trigger] after.quests[b]).quest.id by {
        assert(after.quests[a].quest.id == state.quests[a].quest.id);
        assert(after.quests[b].quest.id == state.quests[b].quest.id);
    }
    assert forall|k: int| 0 <= k < after.roster.len() implies after.has_live(
        (#[trigger] after.roster[k]).quest_id,
    ) by {
        let q = state.roster[k].quest_id;
        assert(state.has_live(q));
        let w = state.live_index(q);
        assert(state.live_at(w, q));
        if w == i {
            member_is_counted(state.roster, k);
        } else {
            assert(after.quests[w] == state.quests[w]);
        }
        assert(after.live_at(w, q));
    }
}

/// One membership more adds one to its quest's crew and nothing to any other.
pub proof fn crew_size_push(
    roster: Seq<QuestAdventurerJunction>,
    junction: QuestAdventurerJunction,
    quest_id: i32,
)
    ensures
        crew_size(roster.push(junction), quest_id) == crew_size(roster, quest_id) + if junction.quest_id
            == quest_id {
            1nat
        } else {
            0nat
        },
{
    assert(roster.push(junction).drop_last() =~= roster);
}

/// One membership less takes one from its quest's crew and nothing from any other.
pub proof fn crew_size_remove(roster: Seq<QuestAdventurerJunction>, k: int, quest_id: i32)
    requires
        0 <= k < roster.len(),
    ensures
        crew_size(roster, quest_id) == crew_size(roster.remove(k), quest_id) + if roster[k].quest_id
            == quest_id {
            1nat
        } else {
            0nat
        },
    decreases roster.len(),
{
    if k == roster.len() - 1 {
        assert(roster.remove(k) =~= roster.drop_last());
    } else {
        crew_size_remove(roster.drop_last(), k, quest_id);
        assert(roster.remove(k).drop_last() =~= roster.drop_last().remove(k));
        assert(roster.remove(k).last() == roster.last());
    }
}

/// In a well-formed store a live quest stands at one place only.
pub proof fn live_index_is_unique(state: StoreState, i: int, quest_id: i32)
    requires
        state.wf(),
        state.live_at(i, quest_id),
    ensures
        state.has_live(quest_id),
        state.live_index(quest_id) == i,
{
    let j = state.live_index(quest_id);
    assert(state.live_at(j, quest_id));
    if i < j {
        assert(state.quests[i].quest.id != state.quests[j].quest.id);
    } else if j < i {
        assert(state.quests[j].quest.id != state.quests[i].quest.id);
    }
}

} // verus!
