//! Guild commanders: who posts quests and moves them on.

use vstd::prelude::*;
use crate::clock::current_timestamp;

verus! {

/// A guild commander as the store holds one. Times are microseconds since the
/// Unix epoch.
#[derive(Debug, Clone)]
pub struct GuildCommanderEntity {
    pub id: i32,
    pub username: String,
    pub password: String,
    pub created_at: i64,
    pub updated_at: i64,
}

/// A guild commander about to be registered.
#[derive(Debug, Clone)]
pub struct RegisterGuildCommanderEntity {
    pub username: String,
    pub password: String,
    pub created_at: i64,
    pub updated_at: i64,
}

/// A request to register a guild commander.
#[derive(Debug, Clone)]
pub struct RegisterGuildCommanderModel {
    pub username: String,
    pub password: String,
}

impl RegisterGuildCommanderModel {
    /// The commander that this request registers at the given times.
    pub open spec fn entity_at(self, created_at: i64, updated_at: i64) -> RegisterGuildCommanderEntity {
        RegisterGuildCommanderEntity {
            username: self.username,
            password: self.password,
            created_at,
            updated_at,
        }
    }

    /// The commander that this request registers, stamped with the given times.
    pub fn to_entity_at(&self, created_at: i64, updated_at: i64) -> (entity:
        RegisterGuildCommanderEntity)
        ensures
            entity == self.entity_at(created_at, updated_at),
    {
        RegisterGuildCommanderEntity {
            username: self.username.clone(),
            password: self.password.clone(),
            created_at,
            updated_at,
        }
    }

    /// The commander that this request registers now. The two times are read
    /// from the clock; everything else is fixed by the request.
    pub fn to_entity(&self) -> (entity: RegisterGuildCommanderEntity)
        ensures
            entity == self.entity_at(entity.created_at, entity.updated_at),
    {
        let created_at: i64 = current_timestamp();
        let updated_at: i64 = current_timestamp();
        self.to_entity_at(created_at, updated_at)
    }
}

} // verus!
