//! Adventurers: who joins crews.

use vstd::prelude::*;
use crate::clock::current_timestamp;

verus! {

/// An adventurer as the store holds one. Times are microseconds since the
/// Unix epoch.
#[derive(Debug, Clone)]
pub struct AdventurerEntity {
    pub id: i32,
    pub username: String,
    pub password: String,
    pub created_at: i64,
    pub updated_at: i64,
}

/// An adventurer about to be registered.
#[derive(Debug, Clone)]
pub struct RegisterAdventurerEntity {
    pub username: String,
    pub password: String,
    pub created_at: i64,
    pub updated_at: i64,
}

/// A request to register an adventurer.
#[derive(Debug, Clone)]
pub struct RegisterAdventurerModel {
    pub username: String,
    pub password: String,
}

impl RegisterAdventurerModel {
    /// The adventurer that this request registers at the given times.
    pub open spec fn entity_at(self, created_at: i64, updated_at: i64) -> RegisterAdventurerEntity {
        RegisterAdventurerEntity {
            username: self.username,
            password: self.password,
            created_at,
            updated_at,
        }
    }

    /// The adventurer that this request registers, stamped with the given times.
    pub fn to_entity_at(&self, created_at: i64, updated_at: i64) -> (entity: RegisterAdventurerEntity)
        ensures
            entity == self.entity_at(created_at, updated_at),
    {
        RegisterAdventurerEntity {
            username: self.username.clone(),
            password: self.password.clone(),
            created_at,
            updated_at,
        }
    }

    /// The adventurer that this request registers now. The two times are read
    /// from the clock; everything else is fixed by the request.
    pub fn to_entity(&self) -> (entity: RegisterAdventurerEntity)
        ensures
            entity == self.entity_at(entity.created_at, entity.updated_at),
    {
        let created_at: i64 = current_timestamp();
        let updated_at: i64 = current_timestamp();
        self.to_entity_at(created_at, updated_at)
    }
}

} // verus!
