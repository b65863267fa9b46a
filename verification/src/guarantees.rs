//! What holds of the quest store at every instant and across its operations.

use vstd::prelude::*;
use crate::board_checking_filter::BoardCheckingFilter;
use crate::errors::QuestError;
use crate::quest_adventurer_junction::{QuestAdventurerJunction, MAX_ADVENTURERS_PER_QUEST};
use crate::quest_model::{AddQuestModel, QuestModel};
use crate::quest_statuses::QuestStatuses;
use crate::quests::{AddQuestEntity, EditQuestEntity, QuestRecord};
use crate::store_state::{
    crew_size, crew_size_push, crew_size_remove, live_index_is_unique, wf_after_update, StoreState,
};

verus! {

/// No crew is ever larger than the cap.
pub proof fn crew_within_cap(state: StoreState, quest_id: i32)
    requires
        state.wf(),
    ensures
        state.crew_count(quest_id) <= MAX_ADVENTURERS_PER_QUEST,
{
    assert(crew_size(state.roster, quest_id) <= MAX_ADVENTURERS_PER_QUEST);
}

/// No adventurer is twice in one crew: two places of the roster never hold the
/// same pair of quest and adventurer.
pub proof fn membership_is_unique(state: StoreState, a: int, b: int)
    requires
        state.wf(),
        0 <= a < state.roster.len(),
        0 <= b < state.roster.len(),
        a != b,
    ensures
        state.roster[a].quest_id != state.roster[b].quest_id || state.roster[a].adventurer_id
            != state.roster[b].adventurer_id,
{
}

/// A roster that holds no membership of a quest gives it a crew of none.
pub proof fn crew_of_unknown_quest(roster: Seq<QuestAdventurerJunction>, quest_id: i32)
    requires
        forall|k: int| 0 <= k < roster.len() ==> (#[trigger] roster[k]).quest_id != quest_id,
    ensures
        crew_size(roster, quest_id) == 0,
    decreases roster.len(),
{
    if roster.len() > 0 {
        assert(roster.last() == roster[roster.len() - 1]);
        assert forall|k: int| 0 <= k < roster.drop_last().len() implies (
        #[trigger] roster.drop_last()[k]).quest_id != quest_id by {
            assert(roster.drop_last()[k] == roster[k]);
        }
        crew_of_unknown_quest(roster.drop_last(), quest_id);
    }
}

/// A join succeeds exactly when the quest is on the board, its roster is
/// open, its crew is not full and the adventurer is not in it.
pub proof fn join_succeeds_exactly_when(state: StoreState, junction: QuestAdventurerJunction)
    requires
        state.wf(),
    ensures
        state.join_result(junction) is Ok <==> {
            &&& state.has_live(junction.quest_id)
            &&& state.live_quest(junction.quest_id).status.roster_is_open()
            &&& state.crew_count(junction.quest_id) < MAX_ADVENTURERS_PER_QUEST
            &&& !state.is_member(junction)
        },
        state.join_result(junction) is Ok ==> state.after_join(junction).crew_count(junction.quest_id)
            == state.crew_count(junction.quest_id) + 1 && state.after_join(junction).is_member(junction),
{
    crew_within_cap(state, junction.quest_id);
    crew_size_push(state.roster, junction, junction.quest_id);
    assert(state.roster.push(junction)[state.roster.len() as int] == junction);
}

/// A full crew takes nobody: a newcomer is told that the crew is full.
pub proof fn full_crew_declines(state: StoreState, junction: QuestAdventurerJunction)
    requires
        state.wf(),
        state.has_live(junction.quest_id),
        state.crew_count(junction.quest_id) == MAX_ADVENTURERS_PER_QUEST,
        !state.is_member(junction),
    ensures
        state.join_result(junction) == Err::<(), QuestError>(QuestError::CrewFull),
        state.after_join(junction) == state,
{
}

/// Who is in the crew of a quest whose roster is open is told so, however
/// full the crew is, and the store stays as it is.
pub proof fn member_is_told_so(state: StoreState, junction: QuestAdventurerJunction)
    requires
        state.wf(),
        state.has_live(junction.quest_id),
        state.live_quest(junction.quest_id).status.roster_is_open(),
        state.is_member(junction),
    ensures
        state.join_result(junction) == Err::<(), QuestError>(QuestError::AlreadyMember),
        state.after_join(junction) == state,
{
}

/// Who has just joined cannot join again: the second join is declined
/// because the adventurer is a member, also where the first join took the
/// last place. The second join changes nothing.
pub proof fn join_twice_is_declined(state: StoreState, junction: QuestAdventurerJunction)
    requires
        state.wf(),
        state.join_result(junction) is Ok,
    ensures
        state.after_join(junction).join_result(junction) == Err::<(), QuestError>(
            QuestError::AlreadyMember,
        ),
        state.after_join(junction).after_join(junction) == state.after_join(junction),
{
    let after = state.after_join(junction);
    join_succeeds_exactly_when(state, junction);
    let i = state.live_index(junction.quest_id);
    assert(state.live_at(i, junction.quest_id));
    assert(after.quests == state.quests);
    assert(after.live_at(i, junction.quest_id));
    assert(after.wf()) by {
        assert forall|q: i32| #[trigger] crew_size(after.roster, q) <= MAX_ADVENTURERS_PER_QUEST by {
            crew_size_push(state.roster, junction, q);
            assert(crew_size(state.roster, q) <= MAX_ADVENTURERS_PER_QUEST);
        }
        assert(state.quests[i].quest.id < state.next_id);
        assert forall|a: int| 0 <= a < after.roster.len() implies after.has_live(
            (#[trigger] after.roster[a]).quest_id,
        ) by {
            let q = after.roster[a].quest_id;
            if a < state.roster.len() {
                assert(after.roster[a] == state.roster[a]);
                assert(state.has_live(q));
            }
            let w = state.live_index(q);
            assert(state.live_at(w, q));
            assert(after.live_at(w, q));
        }
    }
    live_index_is_unique(after, i, junction.quest_id);
}

/// Who has just left cannot leave again: the second leave is declined
/// because the adventurer is no member.
pub proof fn leave_twice_is_declined(state: StoreState, junction: QuestAdventurerJunction)
    requires
        state.wf(),
        state.leave_result(junction) is Ok,
    ensures
        state.after_leave(junction).leave_result(junction) == Err::<(), QuestError>(
            QuestError::NotAMember,
        ),
        state.after_leave(junction).crew_count(junction.quest_id) + 1 == state.crew_count(
            junction.quest_id,
        ),
{
    let after = state.after_leave(junction);
    let k = state.roster.index_of(junction);
    assert(state.roster.contains(junction));
    assert(0 <= k < state.roster.len() && state.roster[k] == junction);
    crew_size_remove(state.roster, k, junction.quest_id);
    assert forall|a: int| 0 <= a < after.roster.len() implies after.roster[a] != junction by {
        let a0 = if a < k { a } else { a + 1 };
        assert(after.roster[a] == state.roster[a0]);
    }
    let i = state.live_index(junction.quest_id);
    assert(state.live_at(i, junction.quest_id));
    assert(after.live_at(i, junction.quest_id));
    assert(after.live_quest(junction.quest_id) == state.live_quest(junction.quest_id));
}

/// A quest departs exactly when it is on the board, its status is `Open` or
/// `Failed`, and its crew holds at least one adventurer and at most the cap.
/// Every other attempt is declined as an invalid transition, unless the quest
/// is not on the board. Where the quest departs, it is in journey afterwards,
/// under the commander who sent it.
pub proof fn departure_succeeds_exactly_when(state: StoreState, quest_id: i32, guild_commander_id: i32)
    requires
        state.wf(),
    ensures
        state.transition_result(quest_id, QuestStatuses::InJourney) is Ok <==> {
            &&& state.has_live(quest_id)
            &&& (state.live_quest(quest_id).status == QuestStatuses::Open || state.live_quest(
                quest_id,
            ).status == QuestStatuses::Failed)
            &&& 1 <= state.crew_count(quest_id) <= MAX_ADVENTURERS_PER_QUEST
        },
        state.has_live(quest_id) && !(state.transition_result(quest_id, QuestStatuses::InJourney) is Ok)
            ==> state.transition_result(quest_id, QuestStatuses::InJourney) == Err::<i32, QuestError>(
            QuestError::InvalidTransition,
        ),
        state.transition_result(quest_id, QuestStatuses::InJourney) is Ok ==> {
            let after = state.after_transition(quest_id, guild_commander_id, QuestStatuses::InJourney);
            &&& state.transition_result(quest_id, QuestStatuses::InJourney) == Ok::<i32, QuestError>(
                quest_id,
            )
            &&& after.has_live(quest_id)
            &&& after.live_quest(quest_id).status == QuestStatuses::InJourney
            &&& after.live_quest(quest_id).guild_commander_id == guild_commander_id
            &&& after.roster == state.roster
        },
{
    crew_within_cap(state, quest_id);
    if state.transition_result(quest_id, QuestStatuses::InJourney) is Ok {
        status_after_transition(state, quest_id, guild_commander_id, QuestStatuses::InJourney);
    }
}

/// After a change of status that succeeded, the quest has the new status and
/// the store is well formed.
pub proof fn status_after_transition(
    state: StoreState,
    quest_id: i32,
    guild_commander_id: i32,
    target: QuestStatuses,
)
    requires
        state.wf(),
        state.transition_result(quest_id, target) is Ok,
    ensures
        state.after_transition(quest_id, guild_commander_id, target).wf(),
        state.after_transition(quest_id, guild_commander_id, target).has_live(quest_id),
        state.after_transition(quest_id, guild_commander_id, target).live_quest(quest_id).status
            == target,
        state.after_transition(quest_id, guild_commander_id, target).live_quest(
            quest_id,
        ).guild_commander_id == guild_commander_id,
{
    let after = state.after_transition(quest_id, guild_commander_id, target);
    let i = state.live_index(quest_id);
    assert(state.live_at(i, quest_id));
    wf_after_update(state, i, after.quests[i]);
    assert(after.live_at(i, quest_id));
    live_index_is_unique(after, i, quest_id);
}

/// A journey ends, in success or in failure, exactly when the quest is on the
/// board and in journey. From any other status the attempt is declined as an
/// invalid transition.
pub proof fn journey_ends_exactly_when(state: StoreState, quest_id: i32, target: QuestStatuses)
    requires
        state.wf(),
        target == QuestStatuses::Completed || target == QuestStatuses::Failed,
    ensures
        state.transition_result(quest_id, target) is Ok <==> state.has_live(quest_id)
            && state.live_quest(quest_id).status == QuestStatuses::InJourney,
        state.has_live(quest_id) && state.live_quest(quest_id).status != QuestStatuses::InJourney
            ==> state.transition_result(quest_id, target) == Err::<i32, QuestError>(
            QuestError::InvalidTransition,
        ),
{
}

/// No change of status succeeds twice in a row: after it succeeded, the same
/// request finds the quest in another status and is declined.
pub proof fn transition_is_not_repeatable(
    state: StoreState,
    quest_id: i32,
    guild_commander_id: i32,
    target: QuestStatuses,
)
    requires
        state.wf(),
        state.transition_result(quest_id, target) is Ok,
    ensures
        state.after_transition(quest_id, guild_commander_id, target).transition_result(quest_id, target)
            == Err::<i32, QuestError>(QuestError::InvalidTransition),
{
    status_after_transition(state, quest_id, guild_commander_id, target);
}

/// A journey ends once: of two requests to end it, in success or in failure,
/// the one that is applied second finds the journey over and is declined.
pub proof fn only_one_ending_wins(
    state: StoreState,
    quest_id: i32,
    guild_commander_id: i32,
    first: QuestStatuses,
    second: QuestStatuses,
)
    requires
        state.wf(),
        first == QuestStatuses::Completed || first == QuestStatuses::Failed,
        second == QuestStatuses::Completed || second == QuestStatuses::Failed,
        state.transition_result(quest_id, first) is Ok,
    ensures
        state.after_transition(quest_id, guild_commander_id, first).transition_result(quest_id, second)
            == Err::<i32, QuestError>(QuestError::InvalidTransition),
{
    status_after_transition(state, quest_id, guild_commander_id, first);
}

/// Nothing leaves `Completed`.
pub proof fn completed_is_final(state: StoreState, quest_id: i32, target: QuestStatuses)
    requires
        state.wf(),
        state.has_live(quest_id),
        state.live_quest(quest_id).status == QuestStatuses::Completed,
    ensures
        state.transition_result(quest_id, target) == Err::<i32, QuestError>(
            QuestError::InvalidTransition,
        ),
        state.join_result(QuestAdventurerJunction { quest_id, adventurer_id: 0 }) is Err,
{
}

/// A quest that is not on the board, removed or never posted, has no crew.
pub proof fn only_live_quests_have_crews(state: StoreState, quest_id: i32)
    requires
        state.wf(),
        !state.has_live(quest_id),
    ensures
        state.crew_count(quest_id) == 0,
{
    assert forall|k: int| 0 <= k < state.roster.len() implies (#[trigger] state.roster[k]).quest_id
        != quest_id by {
        assert(state.has_live(state.roster[k].quest_id));
    }
    crew_of_unknown_quest(state.roster, quest_id);
}

/// A quest's definition may be edited or removed exactly when nobody has
/// joined it and it is on the board. With anybody in the crew, both are
/// declined because the crew has assembled.
pub proof fn definition_guarded_by_crew(state: StoreState, quest_id: i32)
    requires
        state.wf(),
    ensures
        state.definition_result(quest_id) is Ok <==> state.crew_count(quest_id) == 0 && state.has_live(
            quest_id,
        ),
        state.edit_result(quest_id) is Ok <==> state.definition_result(quest_id) is Ok,
        state.crew_count(quest_id) > 0 ==> state.definition_result(quest_id) == Err::<(), QuestError>(
            QuestError::CrewAlreadyAssembled,
        ) && state.edit_result(quest_id) == Err::<i32, QuestError>(QuestError::CrewAlreadyAssembled),
        !state.has_live(quest_id) ==> state.definition_result(quest_id) == Err::<(), QuestError>(
            QuestError::QuestNotFound,
        ),
{
    crew_within_cap(state, quest_id);
    if !state.has_live(quest_id) {
        only_live_quests_have_crews(state, quest_id);
    }
}

/// A quest that has been removed is gone for every reader, and its record is
/// still in the store, marked with the time of the removal and otherwise as
/// it was.
pub proof fn removed_quest_is_not_found(state: StoreState, quest_id: i32, deleted_at: i64)
    requires
        state.wf(),
        state.definition_result(quest_id) is Ok,
    ensures
        state.after_remove(quest_id, deleted_at).wf(),
        !state.after_remove(quest_id, deleted_at).has_live(quest_id),
        state.after_remove(quest_id, deleted_at).view_result(quest_id) == Err::<
            QuestModel,
            QuestError,
        >(QuestError::QuestNotFound),
        state.after_remove(quest_id, deleted_at).quests.len() == state.quests.len(),
        state.after_remove(quest_id, deleted_at).quests[state.live_index(quest_id)] == (QuestRecord {
            deleted_at: Some(deleted_at),
            ..state.quests[state.live_index(quest_id)]
        }),
{
    let after = state.after_remove(quest_id, deleted_at);
    let i = state.live_index(quest_id);
    assert(state.live_at(i, quest_id));
    crew_within_cap(state, quest_id);
    wf_after_update(state, i, after.quests[i]);
    assert forall|j: int| !after.live_at(j, quest_id) by {
        if 0 <= j < after.quests.len() && j != i {
            assert(after.quests[j] == state.quests[j]);
            if j < i {
                assert(state.quests[j].quest.id != state.quests[i].quest.id);
            } else {
                assert(state.quests[i].quest.id != state.quests[j].quest.id);
            }
        }
    }
}

/// An operation that is declined changes nothing: the store is as it was.
pub proof fn declined_operation_changes_nothing(
    state: StoreState,
    junction: QuestAdventurerJunction,
    guild_commander_id: i32,
    target: QuestStatuses,
    add: AddQuestEntity,
    change: EditQuestEntity,
    deleted_at: i64,
)
    ensures
        state.join_result(junction) is Err ==> state.after_join(junction) == state,
        state.leave_result(junction) is Err ==> state.after_leave(junction) == state,
        state.transition_result(junction.quest_id, target) is Err ==> state.after_transition(
            junction.quest_id,
            guild_commander_id,
            target,
        ) == state,
        state.add_result() is Err ==> state.after_add(add) == state,
        state.edit_result(junction.quest_id) is Err ==> state.after_edit(junction.quest_id, change)
            == state,
        state.definition_result(junction.quest_id) is Err ==> state.after_remove(
            junction.quest_id,
            deleted_at,
        ) == state,
{
}

/// Joining and leaving touch the roster and nothing else: no quest changes
/// its status, however full its crew gets. Changes of status, edits and
/// removals touch the quests and leave every crew as it was.
pub proof fn operations_keep_to_their_part(
    state: StoreState,
    junction: QuestAdventurerJunction,
    guild_commander_id: i32,
    target: QuestStatuses,
    change: EditQuestEntity,
    deleted_at: i64,
)
    ensures
        state.after_join(junction).quests == state.quests,
        state.after_leave(junction).quests == state.quests,
        state.after_transition(junction.quest_id, guild_commander_id, target).roster == state.roster,
        state.after_edit(junction.quest_id, change).roster == state.roster,
        state.after_remove(junction.quest_id, deleted_at).roster == state.roster,
{
}

/// A change of status is the only operation that changes the commander who
/// is recorded on a quest: an edit keeps the commander, the status and the
/// time of posting.
pub proof fn edit_keeps_the_commander(state: StoreState, quest_id: i32, change: EditQuestEntity)
    requires
        state.wf(),
        state.definition_result(quest_id) is Ok,
    ensures
        state.after_edit(quest_id, change).wf(),
        state.after_edit(quest_id, change).has_live(quest_id),
        state.after_edit(quest_id, change).live_quest(quest_id) == StoreState::edited(
            state.live_quest(quest_id),
            change,
        ),
        state.after_edit(quest_id, change).live_quest(quest_id).guild_commander_id
            == state.live_quest(quest_id).guild_commander_id,
        state.after_edit(quest_id, change).live_quest(quest_id).status == state.live_quest(
            quest_id,
        ).status,
        state.after_edit(quest_id, change).live_quest(quest_id).created_at == state.live_quest(
            quest_id,
        ).created_at,
{
    let after = state.after_edit(quest_id, change);
    let i = state.live_index(quest_id);
    assert(state.live_at(i, quest_id));
    wf_after_update(state, i, after.quests[i]);
    assert(after.live_at(i, quest_id));
    live_index_is_unique(after, i, quest_id);
}

/// The last place in a crew is taken once: after a join that fills the crew,
/// whoever else asks next is told that the crew is full.
pub proof fn last_place_is_taken_once(
    state: StoreState,
    first: QuestAdventurerJunction,
    second: QuestAdventurerJunction,
)
    requires
        state.wf(),
        state.crew_count(first.quest_id) + 1 == MAX_ADVENTURERS_PER_QUEST,
        state.join_result(first) is Ok,
        second.quest_id == first.quest_id,
        second.adventurer_id != first.adventurer_id,
        !state.is_member(second),
    ensures
        state.after_join(first).join_result(second) == Err::<(), QuestError>(QuestError::CrewFull),
        state.after_join(first).after_join(second) == state.after_join(first),
{
    let after = state.after_join(first);
    crew_size_push(state.roster, first, first.quest_id);
    let i = state.live_index(first.quest_id);
    assert(state.live_at(i, first.quest_id));
    assert(after.live_at(i, first.quest_id));
    assert forall|k: int| 0 <= k < after.roster.len() implies after.roster[k] != second by {
        if k < state.roster.len() {
            assert(after.roster[k] == state.roster[k]);
        }
    }
}

/// A quest that a commander posts is open, has nobody in its crew, and is on
/// the board under the id that was handed out.
pub proof fn posted_quest_is_open_and_empty(
    state: StoreState,
    model: AddQuestModel,
    guild_commander_id: i32,
    created_at: i64,
    updated_at: i64,
)
    requires
        state.wf(),
        state.add_result() is Ok,
    ensures
        ({
            let id = state.add_result()->Ok_0;
            let after = state.after_add(model.entity_at(guild_commander_id, created_at, updated_at));
            &&& !state.has_live(id)
            &&& after.has_live(id)
            &&& after.live_quest(id).status == QuestStatuses::Open
            &&& after.live_quest(id).name == model.name
            &&& after.live_quest(id).description == model.description
            &&& after.live_quest(id).guild_commander_id == guild_commander_id
            &&& after.crew_count(id) == 0
        }),
{
    let id = state.add_result()->Ok_0;
    let entity = model.entity_at(guild_commander_id, created_at, updated_at);
    let after = state.after_add(entity);
    let i = state.quests.len() as int;
    assert(after.quests[i] == StoreState::posted(entity, id));
    assert(after.live_at(i, id));
    assert forall|j: int| after.live_at(j, id) implies j == i by {
        if 0 <= j < i {
            assert(after.quests[j] == state.quests[j]);
            assert(state.quests[j].quest.id < state.next_id);
        }
    }
    assert forall|j: int| !state.live_at(j, id) by {
        if 0 <= j < state.quests.len() {
            assert(state.quests[j].quest.id < state.next_id);
        }
    }
    crew_of_unknown_quest(state.roster, id);
}

/// The board under a filter that names a status shows only quests in that
/// status, none of them removed, and the newest first.
pub proof fn board_by_status(
    state: StoreState,
    filter: BoardCheckingFilter,
    board: Seq<QuestModel>,
    a: int,
    b: int,
)
    requires
        state.wf(),
        state.is_board(filter, board),
        filter.status is Some,
        0 <= a <= b < board.len(),
    ensures
        board[a].status == filter.status->0,
        state.has_live(board[a].id),
        board[a] == state.live_quest(board[a].id).model(state.crew_count(board[a].id) as i64),
        board[a].created_at >= board[b].created_at,
{
    assert(state.shows(filter, board[a]));
    let i = choose|i: int| #[trigger] state.on_board(i, filter) && board[a] == state.board_entry(i);
    assert(state.live_at(i, board[a].id));
    live_index_is_unique(state, i, board[a].id);
}

} // verus!
