use quests_tracker::errors::QuestError;
use quests_tracker::quest_model::{AddQuestModel, EditQuestModel};
use quests_tracker::quest_ops::{definition_outcome, edit_guard, remove_guard};
use quests_tracker::quest_statuses::QuestStatuses;
use quests_tracker::quest_store::QuestStore;
use quests_tracker::quests::EditQuestEntity;

fn posted() -> QuestStore {
    let mut store = QuestStore::new();
    let id = store
        .add(
            3,
            AddQuestModel {
                name: "escort the caravan".to_string(),
                description: Some("to the northern pass".to_string()),
            },
        )
        .unwrap();
    assert_eq!(id, 1);
    store
}

#[test]
fn posted_quest_is_open_with_no_crew() {
    let store = posted();
    let quest = store.view_details(1).unwrap();
    assert_eq!(quest.id, 1);
    assert_eq!(quest.name, "escort the caravan");
    assert_eq!(quest.description, Some("to the northern pass".to_string()));
    assert_eq!(quest.status, QuestStatuses::Open);
    assert_eq!(quest.guild_commander_id, 3);
    assert_eq!(quest.adventurers_count, 0);
    // posted after 2020-01-01, by the clock
    assert!(quest.created_at > 1_577_836_800_000_000);
    assert!(quest.updated_at >= quest.created_at);
}

#[test]
fn ids_are_handed_out_in_turn() {
    let mut store = posted();
    let second = store.add(
        4,
        AddQuestModel {
            name: "second".to_string(),
            description: None,
        },
    );
    assert_eq!(second, Ok(2));
    assert_eq!(store.view_details(2).unwrap().description, None);
    assert_eq!(store.view_details(2).unwrap().guild_commander_id, 4);
}

#[test]
fn crew_of_one_rejects_edit_and_remove() {
    let mut store = posted();
    store.join(1, 8).unwrap();
    let edit = store.edit(
        1,
        3,
        EditQuestModel {
            name: Some("renamed".to_string()),
            description: None,
        },
    );
    assert_eq!(edit, Err(QuestError::CrewAlreadyAssembled));
    assert_eq!(store.remove(1, 3), Err(QuestError::CrewAlreadyAssembled));
    assert_eq!(
        edit.unwrap_err().to_string(),
        "Quest has been taken by adventurers now !!"
    );
    let quest = store.view_details(1).unwrap();
    assert_eq!(quest.name, "escort the caravan");
}

#[test]
fn edit_and_remove_after_the_crew_left() {
    let mut store = posted();
    store.join(1, 8).unwrap();
    store.leave(1, 8).unwrap();
    assert_eq!(
        store.edit(
            1,
            3,
            EditQuestModel {
                name: None,
                description: None
            }
        ),
        Ok(1)
    );
    assert_eq!(store.remove(1, 3), Ok(()));
}

#[test]
fn edit_changes_only_what_is_set() {
    let mut store = posted();
    let answer = store.edit_entity(
        1,
        EditQuestEntity {
            name: Some("escort the king".to_string()),
            description: None,
            guild_commander_id: 5,
            updated_at: 77,
        },
    );
    assert_eq!(answer, Ok(1));
    let quest = store.view_details(1).unwrap();
    assert_eq!(quest.name, "escort the king");
    assert_eq!(quest.description, Some("to the northern pass".to_string()));
    assert_eq!(quest.guild_commander_id, 3);
    assert_eq!(quest.updated_at, 77);
    assert_eq!(quest.status, QuestStatuses::Open);

    let answer = store.edit_entity(
        1,
        EditQuestEntity {
            name: None,
            description: Some("at dawn".to_string()),
            guild_commander_id: 6,
            updated_at: 78,
        },
    );
    assert_eq!(answer, Ok(1));
    let quest = store.view_details(1).unwrap();
    assert_eq!(quest.name, "escort the king");
    assert_eq!(quest.description, Some("at dawn".to_string()));
    assert_eq!(quest.guild_commander_id, 3);
    assert_eq!(quest.updated_at, 78);
}

#[test]
fn edit_model_becomes_a_change() {
    let model = EditQuestModel {
        name: Some("n".to_string()),
        description: None,
    };
    let change = model.to_entity_at(4, 99);
    assert_eq!(change.name, Some("n".to_string()));
    assert_eq!(change.description, None);
    assert_eq!(change.guild_commander_id, 4);
    assert_eq!(change.updated_at, 99);
    let now = model.to_entity(4);
    assert_eq!(now.name, Some("n".to_string()));
    assert_eq!(now.guild_commander_id, 4);
    assert!(now.updated_at > 1_577_836_800_000_000);
}

#[test]
fn add_model_becomes_an_open_quest() {
    let model = AddQuestModel {
        name: "n".to_string(),
        description: Some("d".to_string()),
    };
    let quest = model.to_entity_at(4, 10, 11);
    assert_eq!(quest.name, "n");
    assert_eq!(quest.description, Some("d".to_string()));
    assert_eq!(quest.status, QuestStatuses::Open);
    assert_eq!(quest.guild_commander_id, 4);
    assert_eq!(quest.created_at, 10);
    assert_eq!(quest.updated_at, 11);
    let now = model.to_entity(4);
    assert_eq!(now.status, QuestStatuses::Open);
    assert!(now.created_at > 1_577_836_800_000_000);
}

#[test]
fn removed_quest_is_not_found() {
    let mut store = posted();
    assert_eq!(store.remove_at(1, 9, 1234), Ok(()));
    assert_eq!(store.view_details(1).unwrap_err(), QuestError::QuestNotFound);
    let record = store.record_of(1).unwrap();
    assert_eq!(record.deleted_at, Some(1234));
    assert_eq!(record.quest.guild_commander_id, 3);
    assert_eq!(record.quest.name, "escort the caravan");
}

#[test]
fn removed_quest_takes_no_further_operation() {
    let mut store = posted();
    assert_eq!(store.remove(1, 3), Ok(()));
    assert!(store.record_of(1).unwrap().deleted_at.is_some());
    assert_eq!(store.join(1, 8), Err(QuestError::QuestNotFound));
    assert_eq!(store.leave(1, 8), Err(QuestError::QuestNotFound));
    assert_eq!(store.in_journey(1, 3), Err(QuestError::QuestNotFound));
    assert_eq!(store.remove(1, 3), Err(QuestError::QuestNotFound));
    assert_eq!(
        store.edit(
            1,
            3,
            EditQuestModel {
                name: None,
                description: None
            }
        ),
        Err(QuestError::QuestNotFound)
    );
    assert!(store.record_of(2).is_none());
}

#[test]
fn guards_judge_the_count() {
    assert_eq!(edit_guard(0), Ok(()));
    assert_eq!(edit_guard(1), Err(QuestError::CrewAlreadyAssembled));
    assert_eq!(remove_guard(0), Ok(()));
    assert_eq!(remove_guard(4), Err(QuestError::CrewAlreadyAssembled));
    assert_eq!(definition_outcome(0), Err(QuestError::QuestNotFound));
    assert_eq!(definition_outcome(1), Ok(()));
}
