//! Quest tracking: admission control for a quest's crew, the quest lifecycle,
//! the guard on editing and removing quests, and the read path over them.

pub mod adventurers;
pub mod argon2_hashing;
pub mod authentication;
pub mod board_checking_filter;
pub mod clock;
pub mod config_model;
pub mod cookies;
pub mod crew_switchboard;
pub mod errors;
pub mod guarantees;
pub mod guild_commanders;
pub mod journey_ledger;
pub mod jwt_model;
pub mod quest_adventurer_junction;
pub mod quest_model;
pub mod quest_ops;
pub mod quest_statuses;
pub mod quest_store;
pub mod quest_viewing;
pub mod quests;
pub mod stage;
pub mod store_state;
pub mod text;
