//! Quests as the store holds them.

use vstd::prelude::*;
use crate::quest_model::QuestModel;
use crate::quest_statuses::QuestStatuses;

verus! {

/// Copies an optional text.
pub fn clone_optional_text(text: &Option<String>) -> (copy: Option<String>)
    ensures
        copy == *text,
{
    match text {
        Some(t) => Some(t.clone()),
        None => None,
    }
}

/// A quest that is on the board. Times are microseconds since the Unix epoch.
#[derive(Debug)]
pub struct QuestEntity {
    pub id: i32,
    pub name: String,
    pub description: Option<String>,
    pub status: QuestStatuses,
    pub guild_commander_id: i32,
    pub created_at: i64,
    pub updated_at: i64,
}

impl Clone for QuestEntity {
    fn clone(&self) -> (copy: QuestEntity)
        ensures
            copy == *self,
    {
        QuestEntity {
            id: self.id,
            name: self.name.clone(),
            description: clone_optional_text(&self.description),
            status: self.status,
            guild_commander_id: self.guild_commander_id,
            created_at: self.created_at,
            updated_at: self.updated_at,
        }
    }
}

impl QuestEntity {
    /// The quest together with the size of its crew.
    pub open spec fn model(self, adventurers_count: i64) -> QuestModel {
        QuestModel {
            id: self.id,
            name: self.name,
            description: self.description,
            status: self.status,
            guild_commander_id: self.guild_commander_id,
            adventurers_count,
            created_at: self.created_at,
            updated_at: self.updated_at,
        }
    }

    /// What a reader sees of the quest, given the size of its crew.
    pub fn to_model(&self, adventurers_count: i64) -> (view: QuestModel)
        ensures
            view == self.model(adventurers_count),
    {
        QuestModel {
            id: self.id,
            name: self.name.clone(),
            description: clone_optional_text(&self.description),
            status: self.status,
            guild_commander_id: self.guild_commander_id,
            adventurers_count,
            created_at: self.created_at,
            updated_at: self.updated_at,
        }
    }
}

/// A quest about to be posted: everything but the id, which the store gives.
#[derive(Debug)]
pub struct AddQuestEntity {
    pub name: String,
    pub description: Option<String>,
    pub status: QuestStatuses,
    pub guild_commander_id: i32,
    pub created_at: i64,
    pub updated_at: i64,
}

impl Clone for AddQuestEntity {
    fn clone(&self) -> (copy: AddQuestEntity)
        ensures
            copy == *self,
    {
        AddQuestEntity {
            name: self.name.clone(),
            description: clone_optional_text(&self.description),
            status: self.status,
            guild_commander_id: self.guild_commander_id,
            created_at: self.created_at,
            updated_at: self.updated_at,
        }
    }
}

/// A change to a quest's definition. A field that is `None` is left as it was.
#[derive(Debug)]
pub struct EditQuestEntity {
    pub name: Option<String>,
    pub description: Option<String>,
    pub guild_commander_id: i32,
    pub updated_at: i64,
}

impl Clone for EditQuestEntity {
    fn clone(&self) -> (copy: EditQuestEntity)
        ensures
            copy == *self,
    {
        EditQuestEntity {
            name: clone_optional_text(&self.name),
            description: clone_optional_text(&self.description),
            guild_commander_id: self.guild_commander_id,
            updated_at: self.updated_at,
        }
    }
}

/// A quest as the store keeps it: removal marks it, and erases nothing.
#[derive(Debug)]
pub struct QuestRecord {
    pub quest: QuestEntity,
    pub deleted_at: Option<i64>,
}

impl Clone for QuestRecord {
    fn clone(&self) -> (copy: QuestRecord)
        ensures
            copy == *self,
    {
        QuestRecord { quest: self.quest.clone(), deleted_at: self.deleted_at }
    }
}

} // verus!
