use quests_tracker::board_checking_filter::BoardCheckingFilter;
use quests_tracker::errors::QuestError;
use quests_tracker::quest_statuses::QuestStatuses;
use quests_tracker::quest_store::QuestStore;
use quests_tracker::quest_viewing::{found_in, holds, matching};
use quests_tracker::text::{chars_of, fold, fold_text};
use quests_tracker::quests::{AddQuestEntity, QuestEntity};

fn post(store: &mut QuestStore, name: &str, created_at: i64) -> i32 {
    store
        .add_entity(AddQuestEntity {
            name: name.to_string(),
            description: None,
            status: QuestStatuses::Open,
            guild_commander_id: 1,
            created_at,
            updated_at: created_at,
        })
        .unwrap()
}

/// Five quests: 1 open, 2 in journey, 3 open with one adventurer, 4 removed, 5 open.
fn board() -> QuestStore {
    let mut store = QuestStore::new();
    assert_eq!(post(&mut store, "Dragon Hunt", 300), 1);
    assert_eq!(post(&mut store, "Herb gathering", 100), 2);
    assert_eq!(post(&mut store, "The DRAGON's egg", 500), 3);
    assert_eq!(post(&mut store, "Lost dragon", 400), 4);
    assert_eq!(post(&mut store, "Bandit camp", 200), 5);
    store.join(2, 7).unwrap();
    store.in_journey(2, 1).unwrap();
    store.join(3, 7).unwrap();
    store.remove_at(4, 1, 600).unwrap();
    store
}

fn ids(found: &Vec<quests_tracker::quest_model::QuestModel>) -> Vec<i32> {
    found.iter().map(|quest| quest.id).collect()
}

#[test]
fn view_details_counts_the_crew() {
    let store = board();
    let quest = store.view_details(3).unwrap();
    assert_eq!(quest.id, 3);
    assert_eq!(quest.name, "The DRAGON's egg");
    assert_eq!(quest.adventurers_count, 1);
    assert_eq!(quest.created_at, 500);
    assert_eq!(store.view_details(1).unwrap().adventurers_count, 0);
}

#[test]
fn view_details_of_missing_quest() {
    let store = board();
    assert_eq!(store.view_details(6).unwrap_err(), QuestError::QuestNotFound);
    assert_eq!(store.view_details(4).unwrap_err(), QuestError::QuestNotFound);
    assert_eq!(
        store.view_details(4).unwrap_err().to_string(),
        "Quest not found"
    );
}

#[test]
fn board_without_filter_shows_all_but_removed() {
    let store = board();
    let found = store.board_checking(&BoardCheckingFilter {
        name: None,
        status: None,
    });
    assert_eq!(ids(&found), vec![3, 1, 5, 2]);
    assert_eq!(found[0].adventurers_count, 1);
    assert_eq!(found[3].adventurers_count, 1);
    assert_eq!(found[1].adventurers_count, 0);
}

#[test]
fn board_by_status_open() {
    let store = board();
    let found = store.board_checking(&BoardCheckingFilter {
        name: None,
        status: Some(QuestStatuses::Open),
    });
    assert_eq!(ids(&found), vec![3, 1, 5]);
    for quest in &found {
        assert_eq!(quest.status, QuestStatuses::Open);
        assert_eq!(quest.status.to_string(), "Open");
    }
}

#[test]
fn board_by_other_status() {
    let store = board();
    let found = store.board_checking(&BoardCheckingFilter {
        name: None,
        status: Some(QuestStatuses::InJourney),
    });
    assert_eq!(ids(&found), vec![2]);
    let found = store.board_checking(&BoardCheckingFilter {
        name: None,
        status: Some(QuestStatuses::Completed),
    });
    assert!(found.is_empty());
}

#[test]
fn board_by_name_ignores_case() {
    let store = board();
    let found = store.board_checking(&BoardCheckingFilter {
        name: Some("dragon".to_string()),
        status: None,
    });
    assert_eq!(ids(&found), vec![3, 1]);
    let found = store.board_checking(&BoardCheckingFilter {
        name: Some("DRAGON H".to_string()),
        status: None,
    });
    assert_eq!(ids(&found), vec![1]);
    let found = store.board_checking(&BoardCheckingFilter {
        name: Some("".to_string()),
        status: None,
    });
    assert_eq!(ids(&found), vec![3, 1, 5, 2]);
    let found = store.board_checking(&BoardCheckingFilter {
        name: Some("wyvern".to_string()),
        status: None,
    });
    assert!(found.is_empty());
}

#[test]
fn board_by_name_and_status() {
    let store = board();
    let found = store.board_checking(&BoardCheckingFilter {
        name: Some("ER".to_string()),
        status: Some(QuestStatuses::InJourney),
    });
    assert_eq!(ids(&found), vec![2]);
    let found = store.board_checking(&BoardCheckingFilter {
        name: Some("camp".to_string()),
        status: Some(QuestStatuses::InJourney),
    });
    assert!(found.is_empty());
}

#[test]
fn board_reflects_the_latest_state() {
    let mut store = board();
    store.join(1, 9).unwrap();
    store.to_completed(2, 1).unwrap();
    let found = store.board_checking(&BoardCheckingFilter {
        name: None,
        status: None,
    });
    assert_eq!(ids(&found), vec![3, 1, 5, 2]);
    assert_eq!(found[1].adventurers_count, 1);
    assert_eq!(found[3].status, QuestStatuses::Completed);
    let again = store.board_checking(&BoardCheckingFilter {
        name: None,
        status: None,
    });
    assert_eq!(ids(&again), vec![3, 1, 5, 2]);
}

#[test]
fn board_of_empty_store() {
    let store = QuestStore::new();
    let found = store.board_checking(&BoardCheckingFilter {
        name: None,
        status: Some(QuestStatuses::Open),
    });
    assert!(found.is_empty());
}

#[test]
fn entity_becomes_model() {
    let quest = QuestEntity {
        id: 7,
        name: "n".to_string(),
        description: Some("d".to_string()),
        status: QuestStatuses::Failed,
        guild_commander_id: 2,
        created_at: 5,
        updated_at: 6,
    };
    let model = quest.to_model(3);
    assert_eq!(model.id, 7);
    assert_eq!(model.name, "n");
    assert_eq!(model.description, Some("d".to_string()));
    assert_eq!(model.status, QuestStatuses::Failed);
    assert_eq!(model.guild_commander_id, 2);
    assert_eq!(model.adventurers_count, 3);
    assert_eq!(model.created_at, 5);
    assert_eq!(model.updated_at, 6);
}

#[test]
fn letters_fold_to_their_lower_case() {
    assert_eq!(fold('A'), vec!['a']);
    assert_eq!(fold('Z'), vec!['z']);
    assert_eq!(fold('m'), vec!['m']);
    assert_eq!(fold('['), vec!['[']);
    assert_eq!(fold('@'), vec!['@']);
    assert_eq!(fold('\u{c9}'), vec!['\u{e9}']);
    assert_eq!(fold('\u{e9}'), vec!['\u{e9}']);
    assert_eq!(fold('\u{3a9}'), vec!['\u{3c9}']);
    assert_eq!(fold('\u{130}'), vec!['i', '\u{307}']);
    assert_eq!(chars_of("h\u{e9}llo"), vec!['h', '\u{e9}', 'l', 'l', 'o']);
    assert_eq!(fold_text("H\u{c9}llo"), vec!['h', '\u{e9}', 'l', 'l', 'o']);
    assert_eq!(fold_text(""), Vec::<char>::new());
}

#[test]
fn needles_are_found_whatever_the_case() {
    assert!(holds("Hello World", "o w"));
    assert!(holds("Hello World", "WORLD"));
    assert!(holds("Hello", ""));
    assert!(holds("", ""));
    assert!(!holds("Hello", "Hello!"));
    assert!(!holds("Hello", "lol"));
    assert!(!holds("", "a"));
    assert!(holds("\u{c9}", "\u{e9}"));
    assert!(holds("caf\u{e9} noir", "CAF\u{c9}"));
    assert!(!holds("cafe", "caf\u{e9}"));
    assert!(holds("100% sure_thing", "% S"));
    assert!(!holds("100 sure", "%"));
    assert!(!holds("abc", "a_c"));
    assert!(found_in(&chars_of("abc"), &chars_of("bc")));
    assert!(!found_in(&chars_of("abc"), &chars_of("BC")));
}

#[test]
fn board_by_name_beyond_ascii() {
    let mut store = QuestStore::new();
    assert_eq!(post(&mut store, "\u{c9}", 10), 1);
    assert_eq!(post(&mut store, "\u{e9}cole", 20), 2);
    assert_eq!(post(&mut store, "Ecole", 30), 3);
    let found = store.board_checking(&BoardCheckingFilter {
        name: Some("\u{e9}".to_string()),
        status: None,
    });
    assert_eq!(ids(&found), vec![2, 1]);
    let found = store.board_checking(&BoardCheckingFilter {
        name: Some("\u{c9}COLE".to_string()),
        status: None,
    });
    assert_eq!(ids(&found), vec![2]);
}

#[test]
fn matching_narrows_and_keeps_the_order() {
    let quest = |id: i32, name: &str, status: QuestStatuses| QuestEntity {
        id,
        name: name.to_string(),
        description: None,
        status,
        guild_commander_id: 1,
        created_at: 0,
        updated_at: 0,
    };
    let quests = vec![
        quest(4, "100% Dragon", QuestStatuses::Open),
        quest(2, "dragonfly", QuestStatuses::InJourney),
        quest(9, "Herbs", QuestStatuses::Open),
        quest(1, "DRAGON", QuestStatuses::Open),
    ];
    let by = |name: Option<&str>, status: Option<QuestStatuses>| {
        let found = matching(
            &BoardCheckingFilter {
                name: name.map(|n| n.to_string()),
                status,
            },
            &quests,
        );
        found.iter().map(|q| q.id).collect::<Vec<i32>>()
    };
    assert_eq!(by(None, None), vec![4, 2, 9, 1]);
    assert_eq!(by(Some("dragon"), None), vec![4, 2, 1]);
    assert_eq!(by(Some("dragon"), Some(QuestStatuses::Open)), vec![4, 1]);
    assert_eq!(by(None, Some(QuestStatuses::InJourney)), vec![2]);
    assert_eq!(by(Some("%"), None), vec![4]);
    assert_eq!(by(Some("_"), None), Vec::<i32>::new());
    assert_eq!(by(Some("wyvern"), None), Vec::<i32>::new());
}
