//! What callers hand in and get back.

use vstd::prelude::*;
use crate::clock::current_timestamp;
use crate::quest_statuses::QuestStatuses;
use crate::quests::{clone_optional_text, AddQuestEntity, EditQuestEntity};

verus! {

/// A quest with the size of its crew at the time of reading.
#[derive(Debug)]
pub struct QuestModel {
    pub id: i32,
    pub name: String,
    pub description: Option<String>,
    pub status: QuestStatuses,
    pub guild_commander_id: i32,
    pub adventurers_count: i64,
    pub created_at: i64,
    pub updated_at: i64,
}

impl Clone for QuestModel {
    fn clone(&self) -> (copy: QuestModel)
        ensures
            copy == *self,
    {
        QuestModel {
            id: self.id,
            name: self.name.clone(),
            description: clone_optional_text(&self.description),
            status: self.status,
            guild_commander_id: self.guild_commander_id,
            adventurers_count: self.adventurers_count,
            created_at: self.created_at,
            updated_at: self.updated_at,
        }
    }
}

/// A commander's request to post a quest.
#[derive(Debug)]
pub struct AddQuestModel {
    pub name: String,
    pub description: Option<String>,
}

impl Clone for AddQuestModel {
    fn clone(&self) -> (copy: AddQuestModel)
        ensures
            copy == *self,
    {
        AddQuestModel { name: self.name.clone(), description: clone_optional_text(&self.description) }
    }
}

impl AddQuestModel {
    /// The quest that this request posts at the given times: open, and in the
    /// commander's name.
    pub open spec fn entity_at(
        self,
        guild_commander_id: i32,
        created_at: i64,
        updated_at: i64,
    ) -> AddQuestEntity {
        AddQuestEntity {
            name: self.name,
            description: self.description,
            status: QuestStatuses::Open,
            guild_commander_id,
            created_at,
            updated_at,
        }
    }

    /// The quest that this request posts, stamped with the given times.
    pub fn to_entity_at(&self, guild_commander_id: i32, created_at: i64, updated_at: i64) -> (entity:
        AddQuestEntity)
        ensures
            entity == self.entity_at(guild_commander_id, created_at, updated_at),
    {
        AddQuestEntity {
            name: self.name.clone(),
            description: clone_optional_text(&self.description),
            status: QuestStatuses::Open,
            guild_commander_id,
            created_at,
            updated_at,
        }
    }

    /// The quest that this request posts now. The two times are read from the
    /// clock; everything else is fixed by the request.
    pub fn to_entity(&self, guild_commander_id: i32) -> (entity: AddQuestEntity)
        ensures
            entity == self.entity_at(guild_commander_id, entity.created_at, entity.updated_at),
    {
        let created_at: i64 = current_timestamp();
        let updated_at: i64 = current_timestamp();
        self.to_entity_at(guild_commander_id, created_at, updated_at)
    }
}

/// A commander's request to change a quest's name, description or both.
#[derive(Debug)]
pub struct EditQuestModel {
    pub name: Option<String>,
    pub description: Option<String>,
}

impl Clone for EditQuestModel {
    fn clone(&self) -> (copy: EditQuestModel)
        ensures
            copy == *self,
    {
        EditQuestModel {
            name: clone_optional_text(&self.name),
            description: clone_optional_text(&self.description),
        }
    }
}

impl EditQuestModel {
    /// The change that this request makes at the given time.
    pub open spec fn entity_at(self, guild_commander_id: i32, updated_at: i64) -> EditQuestEntity {
        EditQuestEntity {
            name: self.name,
            description: self.description,
            guild_commander_id,
            updated_at,
        }
    }

    /// The change that this request makes, stamped with the given time.
    pub fn to_entity_at(&self, guild_commander_id: i32, updated_at: i64) -> (entity: EditQuestEntity)
        ensures
            entity == self.entity_at(guild_commander_id, updated_at),
    {
        EditQuestEntity {
            name: clone_optional_text(&self.name),
            description: clone_optional_text(&self.description),
            guild_commander_id,
            updated_at,
        }
    }

    /// The change that this request makes now. The time is read from the
    /// clock; everything else is fixed by the request.
    pub fn to_entity(&self, guild_commander_id: i32) -> (entity: EditQuestEntity)
        ensures
            entity == self.entity_at(guild_commander_id, entity.updated_at),
    {
        let updated_at: i64 = current_timestamp();
        self.to_entity_at(guild_commander_id, updated_at)
    }
}

} // verus!
