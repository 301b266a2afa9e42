//! Login: resolve the user row by normalized email, verify the password
//! against the stored hash, issue a token, and refresh the cached profile
//! projection. The store round trips are the collaborator's; every decision
//! between them is made here.

use vstd::prelude::*;
use crate::cache::IdentityCache;
use crate::errors::{AppError, StoreError};
use crate::password::{hash_parseable, verifies, verify_password};
use crate::pid::{uuid_str_of, Pid};
use crate::pid::uuid_parsed_of;
use crate::profile::{cacheable_profile, projectable_profile, CacheProfile, CacheProfileV, Profile};
use crate::token::{claims_of, expiry_at, issue_token, token_of, MAX_TTL_MINUTES};
use crate::user::User;

verus! {

/// Whether a user row carries what a login needs: the stored hash, a 16-byte
/// public identifier, and the internal id.
pub open spec fn login_usable_user(u: &User) -> bool {
    &&& u.password is Some
    &&& u.pid matches Some(p) && p@.len() == 16
    &&& u.id is Some
}

/// What a successful credential check hands to the second login step: whose
/// profile to load, what to answer.
pub struct LoginTicket {
    pub user_id: i64,
    pub email: Option<String>,
    pub token: String,
}

/// Checks the password against the user row the store found for the
/// normalized email, and issues the token. A missing row is
/// `UserDoesNotExist`; a row without hash, identifier or id violates the
/// store invariant; a mismatching password is `WrongCredential`; on a usable
/// row whose hash parses and whose password verifies, success is owed.
pub fn login_check(
    password: &String,
    user_lookup: &Result<User, StoreError>,
    secret: &str,
    ttl_minutes: u64,
    now: i64,
) -> (r: Result<LoginTicket, AppError>)
    requires
        0 <= now,
        ttl_minutes <= MAX_TTL_MINUTES,
    ensures
        match r {
            Ok(t) => {
                &&& user_lookup matches Ok(u)
                &&& login_usable_user(u)
                &&& hash_parseable(u.password.unwrap()@)
                &&& verifies(password@, u.password.unwrap()@)
                &&& t.user_id == u.id.unwrap()
                &&& t.email == u.email
                &&& t.token@ == token_of(
                    uuid_str_of(u.pid.unwrap()@),
                    expiry_at(now, ttl_minutes),
                    secret@,
                )
                &&& claims_of(t.token@, secret@) == Some(
                    Some((uuid_str_of(u.pid.unwrap()@), expiry_at(now, ttl_minutes))),
                )
                &&& uuid_parsed_of(uuid_str_of(u.pid.unwrap()@)) == Some(u.pid.unwrap()@)
                &&& t.token@.len() > 0
            },
            Err(e) => match user_lookup {
                Err(StoreError::NotFound) => e == AppError::UserDoesNotExist,
                Err(_) => e == AppError::InternalServerError,
                Ok(u) => {
                    if !login_usable_user(u) {
                        e == AppError::InternalServerError
                    } else if !hash_parseable(u.password.unwrap()@) {
                        e == AppError::InternalServerError
                    } else {
                        !verifies(password@, u.password.unwrap()@) && e
                            == AppError::WrongCredential
                    }
                },
            },
        },
{
    let user = match user_lookup {
        Ok(u) => u,
        Err(StoreError::NotFound) => {
            return Err(AppError::UserDoesNotExist);
        },
        Err(_) => {
            return Err(AppError::InternalServerError);
        },
    };
    let hashed_password = match &user.password {
        Some(h) => h,
        None => {
            return Err(AppError::InternalServerError);
        },
    };
    let user_pid = match Pid::from_row_bytes(&user.pid) {
        Ok(p) => p,
        Err(e) => {
            return Err(e);
        },
    };
    let user_id = match user.id {
        Some(id) => id,
        None => {
            return Err(AppError::InternalServerError);
        },
    };
    let password_ok = match verify_password(password.as_str(), hashed_password.as_str()) {
        Ok(b) => b,
        Err(e) => {
            return Err(e);
        },
    };
    if !password_ok {
        return Err(AppError::WrongCredential);
    }
    let token = match issue_token(secret, &user_pid, ttl_minutes, now) {
        Ok(t) => t,
        Err(e) => {
            return Err(e);
        },
    };
    Ok(LoginTicket { user_id, email: user.email.clone(), token })
}

/// Finishes a login once the store has loaded the user's profile row:
/// refreshes the cached profile projection, keyed by the profile's public
/// identifier, and answers with the email and the token. On failure the
/// cache is left unchanged.
pub fn login_finish(
    profile_cache: &mut IdentityCache<CacheProfile>,
    ticket: LoginTicket,
    profile_lookup: &Result<Profile, StoreError>,
) -> (r: Result<crate::views::LoginResponse, AppError>)
    requires
        old(profile_cache).wf(),
    ensures
        final(profile_cache).wf(),
        final(profile_cache).capacity() == old(profile_cache).capacity(),
        match r {
            Ok(resp) => {
                &&& profile_lookup matches Ok(p)
                &&& projectable_profile(p)
                &&& p.pid matches Some(pb) && pb@.len() == 16
                    && final(profile_cache).contains_key(pb@)
                    && final(profile_cache).value_of(pb@)@ == (CacheProfileV {
                    id: p.id.unwrap() as i32,
                    user_id: p.user_id.unwrap() as i32,
                    birth_date: p.birth_date.unwrap(),
                    first_name: p.first_name.unwrap()@,
                    last_name: p.last_name.unwrap()@,
                })
                &&& resp.email == ticket.email
                &&& resp.auth_token matches Some(t) && t@ == ticket.token@
            },
            Err(e) => {
                &&& *final(profile_cache) == *old(profile_cache)
                &&& match profile_lookup {
                    Err(StoreError::NotFound) => e == AppError::NotFound,
                    Err(_) => e == AppError::InternalServerError,
                    Ok(p) => e == AppError::InternalServerError && !cacheable_profile(p),
                }
            },
        },
{
    let profile = match profile_lookup {
        Ok(p) => p,
        Err(StoreError::NotFound) => {
            return Err(AppError::NotFound);
        },
        Err(_) => {
            return Err(AppError::InternalServerError);
        },
    };
    let profile_pid = match Pid::from_row_bytes(&profile.pid) {
        Ok(p) => p,
        Err(e) => {
            return Err(e);
        },
    };
    let cache_profile = match CacheProfile::from(profile) {
        Ok(c) => c,
        Err(e) => {
            return Err(e);
        },
    };
    profile_cache.insert(profile_pid, cache_profile);
    Ok(crate::views::LoginResponse { email: ticket.email, auth_token: Some(ticket.token) })
}

} // verus!
