use chrono::{TimeZone, Utc};
use quests_tracker::crew_switchboard::{
    join_guard, join_outcome, leave_guard, leave_outcome, InsertOutcome,
};
use quests_tracker::errors::{ErrorKind, QuestError};
use quests_tracker::quest_adventurer_junction::MAX_ADVENTURERS_PER_QUEST;
use quests_tracker::quest_statuses::QuestStatuses;
use quests_tracker::quest_store::QuestStore;
use quests_tracker::quests::AddQuestEntity;

fn new_year_2025() -> i64 {
    Utc.with_ymd_and_hms(2025, 1, 1, 0, 0, 0)
        .unwrap()
        .timestamp_micros()
}

/// A store whose quest 1 is "test quest 1", with adventurers 101, 102, ... in its crew.
fn store_with_crew(crew: i32) -> QuestStore {
    let mut store = QuestStore::new();
    let id = store
        .add_entity(AddQuestEntity {
            name: "test quest 1".to_string(),
            description: Some("test quest description".to_string()),
            status: QuestStatuses::Open,
            guild_commander_id: 1,
            created_at: new_year_2025(),
            updated_at: new_year_2025(),
        })
        .unwrap();
    assert_eq!(id, 1);
    for n in 0..crew {
        store.join(1, 101 + n).unwrap();
    }
    store
}

#[test]
fn test_join_success() {
    let mut store = store_with_crew(2);
    let quest = store.view_details(1).unwrap();
    assert_eq!(quest.status, QuestStatuses::Open);
    assert_eq!(quest.adventurers_count, 2);
    assert!(join_guard(quest.status, quest.adventurers_count, false).is_ok());

    let result = store.join(1, 1);

    assert!(result.is_ok())
}

#[test]
fn test_join_fails_when_quest_is_not_open() {
    let mut store = store_with_crew(2);
    store.in_journey(1, 1).unwrap();
    let quest = store.view_details(1).unwrap();
    assert_eq!(quest.status, QuestStatuses::InJourney);
    assert_eq!(quest.adventurers_count, 2);

    let result = store.join(1, 1);

    assert!(result.is_err());
    assert_eq!(result.unwrap_err().to_string(), "The quest not joinable")
}

#[test]
fn test_join_fails_when_quest_has_adventurers_full() {
    let mut store = store_with_crew(4);
    let quest = store.view_details(1).unwrap();
    assert_eq!(quest.status, QuestStatuses::Open);
    assert_eq!(quest.adventurers_count, 4);

    let result = store.join(1, 1);

    assert!(result.is_err());
    assert_eq!(
        result.unwrap_err().to_string(),
        "The quest has adventures full"
    )
}

#[test]
fn test_leave_success() {
    let mut store = store_with_crew(1);
    store.join(1, 1).unwrap();
    assert_eq!(store.adventurers_counting_by_quest_id(1), 2);

    let result = store.leave(1, 1);

    assert!(result.is_ok())
}

#[test]
fn test_leave_fails_when_quest_is_not_open() {
    let mut store = store_with_crew(1);
    store.join(1, 1).unwrap();
    store.in_journey(1, 1).unwrap();
    assert_eq!(store.adventurers_counting_by_quest_id(1), 2);

    let result = store.leave(1, 1);

    assert!(result.is_err());
    assert_eq!(result.unwrap_err().to_string(), "The quest not leavable")
}

#[test]
fn join_guard_judges_size_before_status() {
    assert_eq!(join_guard(QuestStatuses::Open, 0, false), Ok(()));
    assert_eq!(join_guard(QuestStatuses::Open, 3, false), Ok(()));
    assert_eq!(join_guard(QuestStatuses::Failed, 3, false), Ok(()));
    assert_eq!(
        join_guard(QuestStatuses::Open, 4, false),
        Err(QuestError::CrewFull)
    );
    assert_eq!(
        join_guard(QuestStatuses::Open, 5, false),
        Err(QuestError::CrewFull)
    );
    assert_eq!(
        join_guard(QuestStatuses::InJourney, 2, false),
        Err(QuestError::QuestNotJoinable)
    );
    assert_eq!(
        join_guard(QuestStatuses::Completed, 0, false),
        Err(QuestError::QuestNotJoinable)
    );
    assert_eq!(
        join_guard(QuestStatuses::InJourney, 4, false),
        Err(QuestError::CrewFull)
    );
}

#[test]
fn join_guard_names_a_member() {
    assert_eq!(
        join_guard(QuestStatuses::Open, 1, true),
        Err(QuestError::AlreadyMember)
    );
    assert_eq!(
        join_guard(QuestStatuses::Open, 4, true),
        Err(QuestError::AlreadyMember)
    );
    assert_eq!(
        join_guard(QuestStatuses::Failed, 4, true),
        Err(QuestError::AlreadyMember)
    );
    assert_eq!(
        join_guard(QuestStatuses::InJourney, 2, true),
        Err(QuestError::QuestNotJoinable)
    );
    assert_eq!(
        join_guard(QuestStatuses::Completed, 4, true),
        Err(QuestError::QuestNotJoinable)
    );
}

#[test]
fn leave_guard_follows_status() {
    assert_eq!(leave_guard(QuestStatuses::Open), Ok(()));
    assert_eq!(leave_guard(QuestStatuses::Failed), Ok(()));
    assert_eq!(
        leave_guard(QuestStatuses::InJourney),
        Err(QuestError::QuestNotLeavable)
    );
    assert_eq!(
        leave_guard(QuestStatuses::Completed),
        Err(QuestError::QuestNotLeavable)
    );
}

#[test]
fn store_refusals_are_named() {
    assert_eq!(join_outcome(InsertOutcome::Inserted), Ok(()));
    assert_eq!(
        join_outcome(InsertOutcome::DuplicateMembership),
        Err(QuestError::AlreadyMember)
    );
    assert_eq!(
        join_outcome(InsertOutcome::CapacityExceeded),
        Err(QuestError::CrewFull)
    );
    assert_eq!(
        join_outcome(InsertOutcome::Failed),
        Err(QuestError::StoreFailure)
    );
    assert_eq!(leave_outcome(0), Err(QuestError::NotAMember));
    assert_eq!(leave_outcome(1), Ok(()));
}

#[test]
fn join_missing_quest_is_not_found() {
    let mut store = store_with_crew(0);
    assert_eq!(store.join(2, 1), Err(QuestError::QuestNotFound));
    assert_eq!(store.leave(2, 1), Err(QuestError::QuestNotFound));
    assert_eq!(store.adventurers_counting_by_quest_id(2), 0);
}

#[test]
fn join_twice_is_already_member() {
    let mut store = store_with_crew(0);
    assert_eq!(store.join(1, 7), Ok(()));
    assert_eq!(store.join(1, 7), Err(QuestError::AlreadyMember));
    assert_eq!(store.adventurers_counting_by_quest_id(1), 1);
    assert!(store.is_member(1, 7));
}

#[test]
fn join_twice_into_the_last_place_is_already_member() {
    let mut store = store_with_crew(3);
    assert_eq!(store.join(1, 7), Ok(()));
    assert_eq!(store.join(1, 7), Err(QuestError::AlreadyMember));
    assert_eq!(store.adventurers_counting_by_quest_id(1), 4);
    assert!(store.is_member(1, 7));
    assert_eq!(store.join(1, 8), Err(QuestError::CrewFull));
    assert_eq!(store.adventurers_counting_by_quest_id(1), 4);
}

#[test]
fn member_of_a_full_crew_is_already_member() {
    let mut store = store_with_crew(4);
    assert_eq!(store.join(1, 101), Err(QuestError::AlreadyMember));
    assert_eq!(store.join(1, 104), Err(QuestError::AlreadyMember));
    assert_eq!(store.join(1, 105), Err(QuestError::CrewFull));
    assert_eq!(store.adventurers_counting_by_quest_id(1), 4);
    store.in_journey(1, 1).unwrap();
    assert_eq!(store.join(1, 101), Err(QuestError::QuestNotJoinable));
    assert_eq!(store.join(1, 105), Err(QuestError::CrewFull));
}

#[test]
fn leave_twice_is_not_a_member() {
    let mut store = store_with_crew(2);
    assert_eq!(store.leave(1, 101), Ok(()));
    assert_eq!(store.leave(1, 101), Err(QuestError::NotAMember));
    assert_eq!(store.adventurers_counting_by_quest_id(1), 1);
    assert!(!store.is_member(1, 101));
    assert!(store.is_member(1, 102));
}

#[test]
fn leave_without_joining_is_not_a_member() {
    let mut store = store_with_crew(2);
    assert_eq!(store.leave(1, 9), Err(QuestError::NotAMember));
    assert_eq!(store.adventurers_counting_by_quest_id(1), 2);
}

#[test]
fn ten_joins_for_one_place() {
    let mut store = store_with_crew(3);
    let mut successes = 0;
    let mut full = 0;
    for adventurer in 1..=10 {
        match store.join(1, adventurer) {
            Ok(()) => successes += 1,
            Err(QuestError::CrewFull) => full += 1,
            Err(other) => panic!("unexpected answer: {:?}", other),
        }
    }
    assert_eq!(successes, 1);
    assert_eq!(full, 9);
    assert_eq!(store.adventurers_counting_by_quest_id(1), 4);
}

#[test]
fn crew_never_exceeds_the_cap() {
    let mut store = store_with_crew(0);
    for round in 0..3 {
        for adventurer in 1..=8 {
            let _ = store.join(1, adventurer + round);
            assert!(store.adventurers_counting_by_quest_id(1) <= MAX_ADVENTURERS_PER_QUEST);
        }
        let _ = store.leave(1, 1 + round);
        assert!(store.adventurers_counting_by_quest_id(1) <= MAX_ADVENTURERS_PER_QUEST);
    }
    assert_eq!(MAX_ADVENTURERS_PER_QUEST, 4);
}

#[test]
fn crews_of_two_quests_are_counted_apart() {
    let mut store = store_with_crew(2);
    let second = store
        .add_entity(AddQuestEntity {
            name: "test quest 2".to_string(),
            description: None,
            status: QuestStatuses::Open,
            guild_commander_id: 1,
            created_at: new_year_2025(),
            updated_at: new_year_2025(),
        })
        .unwrap();
    assert_eq!(second, 2);
    assert_eq!(store.join(2, 101), Ok(()));
    assert_eq!(store.adventurers_counting_by_quest_id(1), 2);
    assert_eq!(store.adventurers_counting_by_quest_id(2), 1);
    assert_eq!(store.leave(1, 101), Ok(()));
    assert!(store.is_member(2, 101));
    assert!(!store.is_member(1, 101));
}

#[test]
fn failed_quest_takes_and_lets_go() {
    let mut store = store_with_crew(1);
    store.in_journey(1, 1).unwrap();
    store.to_failed(1, 1).unwrap();
    assert_eq!(store.join(1, 5), Ok(()));
    assert_eq!(store.leave(1, 101), Ok(()));
    assert_eq!(store.adventurers_counting_by_quest_id(1), 1);
}

#[test]
fn errors_say_what_happened() {
    assert_eq!(QuestError::QuestNotFound.to_string(), "Quest not found");
    assert_eq!(QuestError::AlreadyMember.to_string(), "You already joined quest");
    assert_eq!(QuestError::NotAMember.to_string(), "Failed to leave quest");
    assert_eq!(
        QuestError::InvalidTransition.to_string(),
        "Cannot changed status of this quest"
    );
    assert_eq!(
        QuestError::CrewAlreadyAssembled.to_string(),
        "Quest has been taken by adventurers now !!"
    );
    assert_eq!(QuestError::StoreFailure.to_string(), "The quest store failed");
    assert_eq!(QuestError::QuestNotFound.kind(), ErrorKind::NotFound);
    assert_eq!(QuestError::StoreFailure.kind(), ErrorKind::StoreFailure);
    assert_eq!(QuestError::CrewFull.kind(), ErrorKind::PreconditionFailed);
    assert_eq!(QuestError::NotAMember.kind(), ErrorKind::PreconditionFailed);
}
