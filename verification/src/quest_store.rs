//! The quest store: the quests on the board and the crews that have formed,
//! with every operation applied as one step from one state to the next.

use vstd::prelude::*;
use crate::board_checking_filter::BoardCheckingFilter;
use crate::clock::current_timestamp;
use crate::crew_switchboard::{join_guard, leave_guard};
use crate::errors::QuestError;
use crate::journey_ledger::transition_guard;
use crate::quest_adventurer_junction::{QuestAdventurerJunction, MAX_ADVENTURERS_PER_QUEST};
use crate::quest_model::{AddQuestModel, EditQuestModel, QuestModel};
use crate::quest_ops::{edit_guard, remove_guard};
use crate::quest_statuses::QuestStatuses;
use crate::quest_viewing::accepts;
use crate::quests::{AddQuestEntity, EditQuestEntity, QuestEntity, QuestRecord};
use crate::store_state::{
    crew_size, crew_size_push, crew_size_remove, insert_places, live_index_is_unique,
    wf_after_update, StoreState,
};
use crate::text::{fold_text, folded};

verus! {

/// The quests and crews, held in memory.
pub struct QuestStore {
    quests: Vec<QuestRecord>,
    roster: Vec<QuestAdventurerJunction>,
    next_id: i32,
}

impl View for QuestStore {
    type V = StoreState;

    closed spec fn view(&self) -> StoreState {
        StoreState { quests: self.quests@, roster: self.roster@, next_id: self.next_id as int }
    }
}

impl QuestStore {
    /// The store's invariant. `new` establishes it and every operation keeps it.
    pub open spec fn wf(&self) -> bool {
        self@.wf()
    }

    /// A store with no quest and no crew.
    pub fn new() -> (store: QuestStore)
        ensures
            store.wf(),
            store@ == StoreState::empty(),
    {
        QuestStore { quests: Vec::new(), roster: Vec::new(), next_id: 1 }
    }

    /// Where the live quest `quest_id` stands, if there is one.
    fn find_live(&self, quest_id: i32) -> (place: Option<usize>)
        requires
            self.wf(),
        ensures
            match place {
                Some(i) => self@.live_at(i as int, quest_id) && self@.has_live(quest_id)
                    && self@.live_index(quest_id) == i,
                None => !self@.has_live(quest_id),
            },
    {
        let mut i: usize = 0;
        while i < self.quests.len()
            invariant
                self.wf(),
                i <= self.quests.len(),
                forall|j: int| 0 <= j < i ==> !self@.live_at(j, quest_id),
            decreases self.quests.len() - i,
        {
            if self.quests[i].quest.id == quest_id && self.quests[i].deleted_at.is_none() {
                proof {
                    live_index_is_unique(self@, i as int, quest_id);
                }
                return Some(i);
            }
            i += 1;
        }
        None
    }

    /// Where the membership stands in the roster, if it is there.
    fn find_member(&self, junction: QuestAdventurerJunction) -> (place: Option<usize>)
        ensures
            match place {
                Some(k) => k < self.roster@.len() && self.roster@[k as int] == junction,
                None => !self@.is_member(junction),
            },
    {
        let mut k: usize = 0;
        while k < self.roster.len()
            invariant
                k <= self.roster.len(),
                forall|j: int| 0 <= j < k ==> self.roster@[j] != junction,
            decreases self.roster.len() - k,
        {
            if self.roster[k].quest_id == junction.quest_id && self.roster[k].adventurer_id
                == junction.adventurer_id {
                return Some(k);
            }
            k += 1;
        }
        None
    }

    /// The size of the quest's crew.
    fn crew_of(&self, quest_id: i32) -> (count: usize)
        ensures
            count == self@.crew_count(quest_id),
            count <= self.roster@.len(),
    {
        let mut count: usize = 0;
        let mut k: usize = 0;
        while k < self.roster.len()
            invariant
                k <= self.roster.len(),
                count <= k,
                count == crew_size(self.roster@.take(k as int), quest_id),
            decreases self.roster.len() - k,
        {
            proof {
                assert(self.roster@.take(k + 1).drop_last() =~= self.roster@.take(k as int));
            }
            if self.roster[k].quest_id == quest_id {
                count += 1;
            }
            k += 1;
        }
        proof {
            assert(self.roster@.take(k as int) =~= self.roster@);
        }
        count
    }

    /// Whether the adventurer is in the quest's crew.
    pub fn is_member(&self, quest_id: i32, adventurer_id: i32) -> (member: bool)
        ensures
            member == self@.is_member(QuestAdventurerJunction { quest_id, adventurer_id }),
    {
        self.find_member(QuestAdventurerJunction { quest_id, adventurer_id }).is_some()
    }

    /// The record that the store keeps of the quest, removed or not.
    pub fn record_of(&self, quest_id: i32) -> (found: Option<QuestRecord>)
        ensures
            match found {
                Some(record) => record.quest.id == quest_id && self@.quests.contains(record),
                None => forall|i: int|
                    0 <= i < self@.quests.len() ==> (#[trigger] self@.quests[i]).quest.id != quest_id,
            },
    {
        let mut i: usize = 0;
        while i < self.quests.len()
            invariant
                i <= self.quests.len(),
                forall|j: int| 0 <= j < i ==> (#[trigger] self@.quests[j]).quest.id != quest_id,
            decreases self.quests.len() - i,
        {
            if self.quests[i].quest.id == quest_id {
                return Some(self.quests[i].clone());
            }
            i += 1;
        }
        None
    }

    /// How many adventurers the quest's crew holds.
    pub fn adventurers_counting_by_quest_id(&self, quest_id: i32) -> (count: i64)
        requires
            self.wf(),
        ensures
            count == self@.crew_count(quest_id),
            0 <= count <= MAX_ADVENTURERS_PER_QUEST,
    {
        let n: usize = self.crew_of(quest_id);
        proof {
            assert(crew_size(self@.roster, quest_id) <= MAX_ADVENTURERS_PER_QUEST);
        }
        n as i64
    }

    /// Takes the adventurer into the quest's crew. The judgement and the
    /// change are one step: between them nothing else touches the store.
    pub fn join(&mut self, quest_id: i32, adventurer_id: i32) -> (answer: Result<(), QuestError>)
        requires
            old(self).wf(),
        ensures
            final(self).wf(),
            answer == old(self)@.join_result(QuestAdventurerJunction { quest_id, adventurer_id }),
            final(self)@ == old(self)@.after_join(QuestAdventurerJunction { quest_id, adventurer_id }),
    {
        let junction = QuestAdventurerJunction { quest_id, adventurer_id };
        let place = self.find_live(quest_id);
        let i: usize = match place {
            Some(i) => i,
            None => {
                return Err(QuestError::QuestNotFound);
            },
        };
        let adventurers_count: i64 = self.adventurers_counting_by_quest_id(quest_id);
        let is_member = self.find_member(junction).is_some();
        match join_guard(self.quests[i].quest.status, adventurers_count, is_member) {
            Err(e) => {
                return Err(e);
            },
            Ok(_) => {},
        }
        self.roster.push(junction);
        proof {
            let before = old(self)@;
            let after = self@;
            assert(after.roster == before.roster.push(junction));
            assert forall|q: i32| #[trigger] crew_size(after.roster, q) <= MAX_ADVENTURERS_PER_QUEST by {
                crew_size_push(before.roster, junction, q);
                assert(crew_size(before.roster, q) <= MAX_ADVENTURERS_PER_QUEST);
            }
            assert(before.quests[i as int].quest.id < before.next_id);
            assert forall|a: int| 0 <= a < after.roster.len() implies after.has_live(
                (#[trigger] after.roster[a]).quest_id,
            ) by {
                let q = after.roster[a].quest_id;
                if a < before.roster.len() {
                    assert(after.roster[a] == before.roster[a]);
                    assert(before.has_live(q));
                }
                let w = before.live_index(q);
                assert(before.live_at(w, q));
                assert(after.live_at(w, q));
            }
        }
        Ok(())
    }

    /// Lets the adventurer go from the quest's crew, in one step.
    pub fn leave(&mut self, quest_id: i32, adventurer_id: i32) -> (answer: Result<(), QuestError>)
        requires
            old(self).wf(),
        ensures
            final(self).wf(),
            answer == old(self)@.leave_result(QuestAdventurerJunction { quest_id, adventurer_id }),
            final(self)@ == old(self)@.after_leave(QuestAdventurerJunction { quest_id, adventurer_id }),
    {
        let junction = QuestAdventurerJunction { quest_id, adventurer_id };
        let place = self.find_live(quest_id);
        let i: usize = match place {
            Some(i) => i,
            None => {
                return Err(QuestError::QuestNotFound);
            },
        };
        match leave_guard(self.quests[i].quest.status) {
            Err(e) => {
                return Err(e);
            },
            Ok(_) => {},
        }
        let k: usize = match self.find_member(junction) {
            Some(k) => k,
            None => {
                return Err(QuestError::NotAMember);
            },
        };
        self.roster.remove(k);
        proof {
            let before = old(self)@;
            let after = self@;
            assert(before.roster.contains(junction));
            assert(before.roster.index_of(junction) == k);
            assert(after.roster == before.roster.remove(k as int));
            assert forall|q: i32| #[trigger] crew_size(after.roster, q) <= MAX_ADVENTURERS_PER_QUEST by {
                crew_size_remove(before.roster, k as int, q);
                assert(crew_size(before.roster, q) <= MAX_ADVENTURERS_PER_QUEST);
            }
            assert forall|a: int| 0 <= a < after.roster.len() implies 0 < (
            #[trigger] after.roster[a]).quest_id < after.next_id && after.has_live(
                after.roster[a].quest_id,
            ) by {
                let a0 = if a < k { a } else { a + 1 };
                assert(after.roster[a] == before.roster[a0]);
                let q = before.roster[a0].quest_id;
                assert(before.has_live(q));
                let w = before.live_index(q);
                assert(before.live_at(w, q));
                assert(after.live_at(w, q));
            }
            assert forall|a: int, b: int|
                0 <= a < after.roster.len() && 0 <= b < after.roster.len() && a != b implies after.roster[a]
                != after.roster[b] by {
                let a0 = if a < k { a } else { a + 1 };
                let b0 = if b < k { b } else { b + 1 };
                assert(after.roster[a] == before.roster[a0]);
                assert(after.roster[b] == before.roster[b0]);
            }
        }
        Ok(())
    }

    /// Moves the quest to `target` if the lifecycle allows it from the status
    /// that the quest has now, in one step.
    fn advance(&mut self, quest_id: i32, guild_commander_id: i32, target: QuestStatuses) -> (answer:
        Result<i32, QuestError>)
        requires
            old(self).wf(),
        ensures
            final(self).wf(),
            answer == old(self)@.transition_result(quest_id, target),
            final(self)@ == old(self)@.after_transition(quest_id, guild_commander_id, target),
    {
        let place = self.find_live(quest_id);
        let i: usize = match place {
            Some(i) => i,
            None => {
                return Err(QuestError::QuestNotFound);
            },
        };
        let adventurers_count: i64 = self.adventurers_counting_by_quest_id(quest_id);
        match transition_guard(self.quests[i].quest.status, adventurers_count, target) {
            Err(e) => {
                return Err(e);
            },
            Ok(_) => {},
        }
        let mut record = self.quests[i].clone();
        record.quest.status = target;
        record.quest.guild_commander_id = guild_commander_id;
        proof {
            wf_after_update(self@, i as int, record);
        }
        self.quests.set(i, record);
        Ok(quest_id)
    }

    /// Sends the quest on its journey: from `Open` or `Failed`, with a crew of
    /// one to four.
    pub fn in_journey(&mut self, quest_id: i32, guild_commander_id: i32) -> (answer: Result<
        i32,
        QuestError,
    >)
        requires
            old(self).wf(),
        ensures
            final(self).wf(),
            answer == old(self)@.transition_result(quest_id, QuestStatuses::InJourney),
            final(self)@ == old(self)@.after_transition(
                quest_id,
                guild_commander_id,
                QuestStatuses::InJourney,
            ),
    {
        self.advance(quest_id, guild_commander_id, QuestStatuses::InJourney)
    }

    /// Ends the journey in success.
    pub fn to_completed(&mut self, quest_id: i32, guild_commander_id: i32) -> (answer: Result<
        i32,
        QuestError,
    >)
        requires
            old(self).wf(),
        ensures
            final(self).wf(),
            answer == old(self)@.transition_result(quest_id, QuestStatuses::Completed),
            final(self)@ == old(self)@.after_transition(
                quest_id,
                guild_commander_id,
                QuestStatuses::Completed,
            ),
    {
        self.advance(quest_id, guild_commander_id, QuestStatuses::Completed)
    }

    /// Ends the journey in failure. The quest can be joined and tried again.
    pub fn to_failed(&mut self, quest_id: i32, guild_commander_id: i32) -> (answer: Result<
        i32,
        QuestError,
    >)
        requires
            old(self).wf(),
        ensures
            final(self).wf(),
            answer == old(self)@.transition_result(quest_id, QuestStatuses::Failed),
            final(self)@ == old(self)@.after_transition(
                quest_id,
                guild_commander_id,
                QuestStatuses::Failed,
            ),
    {
        self.advance(quest_id, guild_commander_id, QuestStatuses::Failed)
    }

    /// Posts the quest under the next id.
    pub fn add_entity(&mut self, entity: AddQuestEntity) -> (answer: Result<i32, QuestError>)
        requires
            old(self).wf(),
        ensures
            final(self).wf(),
            answer == old(self)@.add_result(),
            final(self)@ == old(self)@.after_add(entity),
    {
        if self.next_id >= i32::MAX {
            return Err(QuestError::StoreFailure);
        }
        let id: i32 = self.next_id;
        let record = QuestRecord {
            quest: QuestEntity {
                id,
                name: entity.name,
                description: entity.description,
                status: entity.status,
                guild_commander_id: entity.guild_commander_id,
                created_at: entity.created_at,
                updated_at: entity.updated_at,
            },
            deleted_at: None,
        };
        self.quests.push(record);
        self.next_id = id + 1;
        proof {
            let before = old(self)@;
            let after = self@;
            assert(after.quests == before.quests.push(record));
            assert forall|a: int| 0 <= a < after.quests.len() implies 0 < (
            #[trigger] after.quests[a]).quest.id < after.next_id by {
                if a < before.quests.len() {
                    assert(after.quests[a] == before.quests[a]);
                }
            }
            assert forall|a: int, b: int| 0 <= a < b < after.quests.len() implies (
            #[trigger] after.quests[a]).quest.id != (#[trigger] after.quests[b]).quest.id by {
                assert(after.quests[a] == before.quests[a]);
                if b < before.quests.len() {
                    assert(after.quests[b] == before.quests[b]);
                }
            }
            assert forall|k: int| 0 <= k < after.roster.len() implies after.has_live(
                (#[trigger] after.roster[k]).quest_id,
            ) by {
                let q = before.roster[k].quest_id;
                assert(before.has_live(q));
                let w = before.live_index(q);
                assert(before.live_at(w, q));
                assert(after.quests[w] == before.quests[w]);
                assert(after.live_at(w, q));
            }
        }
        Ok(id)
    }

    /// Posts a quest for the commander: open, with nobody in its crew, and
    /// stamped with the time at which it was posted.
    pub fn add(&mut self, guild_commander_id: i32, add_quest_model: AddQuestModel) -> (answer: Result<
        i32,
        QuestError,
    >)
        requires
            old(self).wf(),
        ensures
            final(self).wf(),
            answer == old(self)@.add_result(),
            exists|created_at: i64, updated_at: i64|
                final(self)@ == old(self)@.after_add(
                    #[trigger] add_quest_model.entity_at(guild_commander_id, created_at, updated_at),
                ),
    {
        let entity = add_quest_model.to_entity(guild_commander_id);
        self.add_entity(entity)
    }

    /// Applies the change to the quest, if nobody has joined it yet. The
    /// change names the commander who asks for it; the quest stays with the
    /// commander who is recorded on it.
    pub fn edit_entity(&mut self, quest_id: i32, change: EditQuestEntity) -> (answer: Result<
        i32,
        QuestError,
    >)
        requires
            old(self).wf(),
        ensures
            final(self).wf(),
            answer == old(self)@.edit_result(quest_id),
            final(self)@ == old(self)@.after_edit(quest_id, change),
    {
        let adventurers_count: i64 = self.adventurers_counting_by_quest_id(quest_id);
        match edit_guard(adventurers_count) {
            Err(e) => {
                return Err(e);
            },
            Ok(_) => {},
        }
        let place = self.find_live(quest_id);
        let i: usize = match place {
            Some(i) => i,
            None => {
                return Err(QuestError::QuestNotFound);
            },
        };
        let mut record = self.quests[i].clone();
        match change.name {
            Some(name) => {
                record.quest.name = name;
            },
            None => {},
        }
        match change.description {
            Some(description) => {
                record.quest.description = Some(description);
            },
            None => {},
        }
        record.quest.updated_at = change.updated_at;
        proof {
            wf_after_update(self@, i as int, record);
        }
        self.quests.set(i, record);
        Ok(quest_id)
    }

    /// Changes the quest's name, description or both for the commander, if
    /// nobody has joined it yet, and stamps the quest with the time.
    pub fn edit(
        &mut self,
        quest_id: i32,
        guild_commander_id: i32,
        edit_quest_model: EditQuestModel,
    ) -> (answer: Result<i32, QuestError>)
        requires
            old(self).wf(),
        ensures
            final(self).wf(),
            answer == old(self)@.edit_result(quest_id),
            exists|updated_at: i64|
                final(self)@ == old(self)@.after_edit(
                    quest_id,
                    #[trigger] edit_quest_model.entity_at(guild_commander_id, updated_at),
                ),
    {
        let change = edit_quest_model.to_entity(guild_commander_id);
        self.edit_entity(quest_id, change)
    }

    /// Marks the quest as removed at the given time, if nobody has joined it.
    /// `guild_commander_id` is the commander who asks; the record keeps its own.
    pub fn remove_at(&mut self, quest_id: i32, guild_commander_id: i32, deleted_at: i64) -> (answer:
        Result<(), QuestError>)
        requires
            old(self).wf(),
        ensures
            final(self).wf(),
            answer == old(self)@.definition_result(quest_id),
            final(self)@ == old(self)@.after_remove(quest_id, deleted_at),
    {
        let adventurers_count: i64 = self.adventurers_counting_by_quest_id(quest_id);
        match remove_guard(adventurers_count) {
            Err(e) => {
                return Err(e);
            },
            Ok(_) => {},
        }
        let place = self.find_live(quest_id);
        let i: usize = match place {
            Some(i) => i,
            None => {
                return Err(QuestError::QuestNotFound);
            },
        };
        let mut record = self.quests[i].clone();
        record.deleted_at = Some(deleted_at);
        proof {
            wf_after_update(self@, i as int, record);
        }
        self.quests.set(i, record);
        Ok(())
    }

    /// Takes the quest off the board for the commander, if nobody has joined
    /// it. The quest is marked with the time of its removal, not erased.
    pub fn remove(&mut self, quest_id: i32, guild_commander_id: i32) -> (answer: Result<(), QuestError>)
        requires
            old(self).wf(),
        ensures
            final(self).wf(),
            answer == old(self)@.definition_result(quest_id),
            exists|deleted_at: i64| final(self)@ == #[trigger] old(self)@.after_remove(quest_id, deleted_at),
    {
        let deleted_at: i64 = current_timestamp();
        self.remove_at(quest_id, guild_commander_id, deleted_at)
    }

    /// The quest with the size of its crew, as both stand at this instant.
    pub fn view_details(&self, quest_id: i32) -> (answer: Result<QuestModel, QuestError>)
        requires
            self.wf(),
        ensures
            answer == self@.view_result(quest_id),
    {
        let place = self.find_live(quest_id);
        let i: usize = match place {
            Some(i) => i,
            None => {
                return Err(QuestError::QuestNotFound);
            },
        };
        let adventurers_count: i64 = self.adventurers_counting_by_quest_id(quest_id);
        Ok(self.quests[i].quest.to_model(adventurers_count))
    }

    /// The board under the filter: the quests that have not been removed and
    /// that the filter lets through, each with the size of its crew, the
    /// newest first.
    pub fn board_checking(&self, filter: &BoardCheckingFilter) -> (board: Vec<QuestModel>)
        requires
            self.wf(),
        ensures
            self@.is_board(*filter, board@),
    {
        let needle: Option<Vec<char>> = match &filter.name {
            Some(name) => Some(fold_text(name.as_str())),
            None => None,
        };
        let mut board: Vec<QuestModel> = Vec::new();
        let ghost mut origin: Seq<int> = Seq::empty();
        let mut k: usize = 0;
        while k < self.quests.len()
            invariant
                self.wf(),
                k <= self.quests.len(),
                match needle {
                    Some(n) => filter.name is Some && n@ == folded(filter.name->0@),
                    None => filter.name is None,
                },
                board@.len() == origin.len(),
                forall|a: int|
                    0 <= a < origin.len() ==> 0 <= #[trigger] origin[a] < k && self@.on_board(
                        origin[a],
                        *filter,
                    ) && board@[a] == self@.board_entry(origin[a]),
                forall|i: int|
                    0 <= i < k && #[trigger] self@.on_board(i, *filter) ==> exists|a: int|
                        0 <= a < origin.len() && #[trigger] origin[a] == i,
                forall|a: int, b: int|
                    0 <= a < b < origin.len() ==> #[trigger] origin[a] != #[trigger] origin[b],
                forall|a: int, b: int|
                    0 <= a < b < board@.len() ==> (#[trigger] board@[a]).created_at >= (
                    #[trigger] board@[b]).created_at,
            decreases self.quests.len() - k,
        {
            let record = &self.quests[k];
            if record.deleted_at.is_none() && accepts(&needle, filter.status, &record.quest) {
                let adventurers_count: i64 = self.adventurers_counting_by_quest_id(record.quest.id);
                let entry = record.quest.to_model(adventurers_count);
                let mut p: usize = 0;
                while p < board.len() && board[p].created_at >= entry.created_at
                    invariant
                        p <= board@.len(),
                        forall|a: int|
                            0 <= a < p ==> (#[trigger] board@[a]).created_at >= entry.created_at,
                    decreases board@.len() - p,
                {
                    p += 1;
                }
                let ghost shown = board@;
                let ghost places = origin;
                board.insert(p, entry);
                proof {
                    origin = places.insert(p as int, k as int);
                    insert_places(shown, p as int, entry);
                    insert_places(places, p as int, k as int);
                    assert(self@.on_board(k as int, *filter));
                    assert forall|i: int|
                        0 <= i < k + 1 && #[trigger] self@.on_board(i, *filter) implies exists|a: int|
                        0 <= a < origin.len() && #[trigger] origin[a] == i by {
                        if i < k {
                            let a0 = choose|a: int| 0 <= a < places.len() && #[trigger] places[a] == i;
                            let a1 = if a0 < p { a0 } else { a0 + 1 };
                            assert(origin[a1] == i);
                        } else {
                            assert(origin[p as int] == i);
                        }
                    }
                    assert forall|a: int, b: int| 0 <= a < b < origin.len() implies #[trigger] origin[a]
                        != #[trigger] origin[b] by {
                        if a != p && b != p {
                            let a0 = if a < p { a } else { a - 1 };
                            let b0 = if b < p { b } else { b - 1 };
                            assert(origin[a] == places[a0] && origin[b] == places[b0]);
                        }
                    }
                    assert forall|a: int, b: int| 0 <= a < b < board@.len() implies (
                    #[trigger] board@[a]).created_at >= (#[trigger] board@[b]).created_at by {
                        let a0 = if a < p { a } else { a - 1 };
                        let b0 = if b < p { b } else { b - 1 };
                        if a != p {
                            assert(board@[a] == shown[a0]);
                        }
                        if b != p {
                            assert(board@[b] == shown[b0]);
                        }
                        if a == p && b > p {
                            if b0 > p {
                                assert(shown[p as int].created_at >= shown[b0].created_at);
                            }
                        }
                    }
                }
            } else {
                proof {
                    assert(!self@.on_board(k as int, *filter));
                }
            }
            k += 1;
        }
        proof {
            let state = self@;
            assert forall|a: int| 0 <= a < board@.len() implies state.shows(
                *filter,
                #[trigger] board@[a],
            ) by {
                assert(state.on_board(origin[a], *filter) && board@[a] == state.board_entry(origin[a]));
            }
            assert forall|i: int| #[trigger] state.on_board(i, *filter) implies exists|a: int|
                0 <= a < board@.len() && #[trigger] board@[a] == state.board_entry(i) by {
                let a0 = choose|a: int| 0 <= a < origin.len() && #[trigger] origin[a] == i;
                assert(board@[a0] == state.board_entry(i));
            }
            assert forall|a: int, b: int| 0 <= a < b < board@.len() implies (#[trigger] board@[a]).id
                != (#[trigger] board@[b]).id by {
                let i = origin[a];
                let j = origin[b];
                assert(board@[a].id == state.quests[i].quest.id);
                assert(board@[b].id == state.quests[j].quest.id);
                if i < j {
                    assert(state.quests[i].quest.id != state.quests[j].quest.id);
                } else {
                    assert(state.quests[j].quest.id != state.quests[i].quest.id);
                }
            }
        }
        board
    }
}

} // verus!
