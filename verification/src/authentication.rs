//! What a login decides: whether the password is right, and what the tokens say.

use vstd::prelude::*;
use crate::adventurers::{RegisterAdventurerEntity, RegisterAdventurerModel};
use crate::argon2_hashing::{argon2_accepts, hash, verify, HashingError};
use crate::guild_commanders::{RegisterGuildCommanderEntity, RegisterGuildCommanderModel};
use crate::jwt_model::{Claims, Roles};

verus! {

/// Why a login was declined.
#[derive(Debug, Clone)]
pub enum LoginError {
    /// The password is not the one that was registered.
    InvalidPassword,
    /// The stored hash could not be read.
    Hashing(HashingError),
}

impl LoginError {
    /// The sentence shown to the caller.
    pub fn to_string(&self) -> (text: String)
        ensures
            match *self {
                LoginError::InvalidPassword => text@ == "Invalid password"@,
                LoginError::Hashing(e) => text == e.message,
            },
    {
        match self {
            LoginError::InvalidPassword => "Invalid password".to_owned(),
            LoginError::Hashing(e) => e.to_string(),
        }
    }
}

/// The answer to a login, given what the check of the password said.
pub open spec fn password_verdict_of(checked: Result<bool, HashingError>) -> Result<(), LoginError> {
    match checked {
        Ok(true) => Ok(()),
        Ok(false) => Err(LoginError::InvalidPassword),
        Err(e) => Err(LoginError::Hashing(e)),
    }
}

/// Turns what the check of the password said into the answer to the login.
pub fn password_verdict(checked: Result<bool, HashingError>) -> (answer: Result<(), LoginError>)
    ensures
        answer == password_verdict_of(checked),
{
    match checked {
        Ok(accepted) => {
            if accepted {
                Ok(())
            } else {
                Err(LoginError::InvalidPassword)
            }
        },
        Err(e) => Err(LoginError::Hashing(e)),
    }
}

/// Checks the password of a login against the registered hash.
pub fn check_password(login_password: String, stored_password: String) -> (answer: Result<
    (),
    LoginError,
>)
    ensures
        answer is Ok <==> argon2_accepts(login_password@, stored_password@) == Some(true),
        answer == Err::<(), LoginError>(LoginError::InvalidPassword) <==> argon2_accepts(
            login_password@,
            stored_password@,
        ) == Some(false),
{
    password_verdict(verify(login_password, stored_password))
}

/// The claims of the two tokens that a login at `now` hands out: the access
/// token first, then the refresh token.
pub fn login_claims(sub: String, role: Roles, now: usize) -> (claims: (Claims, Claims))
    requires
        now + crate::jwt_model::REFRESH_TOKEN_DAYS * crate::jwt_model::SECONDS_PER_DAY <= usize::MAX,
    ensures
        claims.0 == Claims::issued(sub, role, now, crate::jwt_model::ACCESS_TOKEN_DAYS),
        claims.1 == Claims::issued(sub, role, now, crate::jwt_model::REFRESH_TOKEN_DAYS),
{
    let access = Claims::access(&sub, role, now);
    let refresh = Claims::refresh(&sub, role, now);
    (access, refresh)
}

/// The claims of the two tokens that take the place of a refresh token at
/// `now`: a new access token, and a refresh token that ends when the old one
/// does.
pub fn refresh_claims(claims: Claims, role: Roles, now: usize) -> (renewed: (Claims, Claims))
    requires
        now + crate::jwt_model::ACCESS_TOKEN_DAYS * crate::jwt_model::SECONDS_PER_DAY <= usize::MAX,
    ensures
        renewed.0 == Claims::issued(claims.sub, role, now, crate::jwt_model::ACCESS_TOKEN_DAYS),
        renewed.1 == (Claims { sub: claims.sub, role, exp: claims.exp, iat: now }),
{
    let access = Claims::access(&claims.sub, role, now);
    let refresh = claims.renewed(role, now);
    (access, refresh)
}

/// The adventurer to register, given what hashing the password said: the
/// request with the password replaced by the hash, stamped with the time; or
/// the hasher's error, passed on as it is.
pub fn adventurer_registration(
    register_adventurer_model: RegisterAdventurerModel,
    hashed: Result<String, HashingError>,
) -> (entity: Result<RegisterAdventurerEntity, HashingError>)
    ensures
        match hashed {
            Ok(hashed_password) => entity is Ok && entity->Ok_0 == (RegisterAdventurerModel {
                username: register_adventurer_model.username,
                password: hashed_password,
            }).entity_at(entity->Ok_0.created_at, entity->Ok_0.updated_at),
            Err(e) => entity == Err::<RegisterAdventurerEntity, HashingError>(e),
        },
{
    let mut model = register_adventurer_model;
    let hashed_password = match hashed {
        Ok(h) => h,
        Err(e) => {
            return Err(e);
        },
    };
    model.password = hashed_password;
    Ok(model.to_entity())
}

/// The adventurer to register: the request with the password replaced by a
/// hash that the password verifies against, stamped with the time.
pub fn register_adventurer(register_adventurer_model: RegisterAdventurerModel) -> (entity: Result<
    RegisterAdventurerEntity,
    HashingError,
>)
    ensures
        match entity {
            Ok(e) => e.username == register_adventurer_model.username && argon2_accepts(
                register_adventurer_model.password@,
                e.password@,
            ) == Some(true),
            Err(_) => true,
        },
{
    let hashed = hash(register_adventurer_model.password.clone());
    adventurer_registration(register_adventurer_model, hashed)
}

/// The commander to register, given what hashing the password said: the
/// request with the password replaced by the hash, stamped with the time; or
/// the hasher's error, passed on as it is.
pub fn guild_commander_registration(
    register_guild_commander_model: RegisterGuildCommanderModel,
    hashed: Result<String, HashingError>,
) -> (entity: Result<RegisterGuildCommanderEntity, HashingError>)
    ensures
        match hashed {
            Ok(hashed_password) => entity is Ok && entity->Ok_0 == (RegisterGuildCommanderModel {
                username: register_guild_commander_model.username,
                password: hashed_password,
            }).entity_at(entity->Ok_0.created_at, entity->Ok_0.updated_at),
            Err(e) => entity == Err::<RegisterGuildCommanderEntity, HashingError>(e),
        },
{
    let mut model = register_guild_commander_model;
    let hashed_password = match hashed {
        Ok(h) => h,
        Err(e) => {
            return Err(e);
        },
    };
    model.password = hashed_password;
    Ok(model.to_entity())
}

/// The commander to register: the request with the password replaced by a
/// hash that the password verifies against, stamped with the time.
pub fn register_guild_commander(register_guild_commander_model: RegisterGuildCommanderModel) -> (entity:
    Result<RegisterGuildCommanderEntity, HashingError>)
    ensures
        match entity {
            Ok(e) => e.username == register_guild_commander_model.username && argon2_accepts(
                register_guild_commander_model.password@,
                e.password@,
            ) == Some(true),
            Err(_) => true,
        },
{
    let hashed = hash(register_guild_commander_model.password.clone());
    guild_commander_registration(register_guild_commander_model, hashed)
}

} // verus!
