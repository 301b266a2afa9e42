//! The registration workflow: a state machine over (user row present?,
//! profile row present?) keyed by normalized email. A user without a profile
//! is a resumable, incomplete registration and is completed rather than
//! refused; a complete pair is refused as `UserAlreadyExist`. The store
//! round trips themselves are the collaborator's; every decision between
//! them is made here.

use vstd::prelude::*;
use crate::cache::IdentityCache;
use crate::errors::{AppError, StoreError};
use crate::gate::self_keyed;
use crate::password::{hash_parseable, hash_password, verifies};
use crate::pid::{uuid_parsed_of, uuid_str_of, Pid};
use crate::profile::{cacheable_profile, projectable_profile, CacheProfile, CacheProfileV, Profile};
use crate::token::{claims_of, expiry_at, issue_token, token_of, MAX_TTL_MINUTES};
use crate::user::{CacheUser, CacheUserV};
use crate::validate::ValidRegistration;
use crate::views::{ProfileParams, RegisterResponse};

verus! {

/// What the workflow decides to do next, after the store has been asked
/// whether the email's user and that user's profile exist.
pub enum RegisterPlan {
    /// No user row: create the user, then its profile.
    CreateBoth,
    /// A user row without a profile row: complete the profile for it.
    CompleteProfile { user_id: i64, user_pid: Pid },
    /// Refuse with this failure.
    Reject(AppError),
}

/// Ghost image of a registration plan.
pub enum PlanV {
    CreateBoth,
    CompleteProfile(i64, Seq<u8>),
    Reject(AppError),
}

/// The ghost image of a user-ids lookup outcome.
pub open spec fn lookup_view(l: &Result<(i64, Vec<u8>), StoreError>) -> Result<
    (i64, Seq<u8>),
    StoreError,
> {
    match l {
        Ok((id, pid)) => Ok((*id, pid@)),
        Err(e) => Err(*e),
    }
}

/// The decision table of the registration workflow. A missing user row means
/// create both rows; a user row with a malformed identifier violates the
/// store invariant; a present profile row refuses the registration; a
/// missing profile row resumes it; any other store failure is internal.
pub open spec fn spec_register_plan(
    user_lookup: Result<(i64, Seq<u8>), StoreError>,
    profile_check: Option<Result<i64, StoreError>>,
) -> PlanV {
    match user_lookup {
        Err(StoreError::NotFound) => PlanV::CreateBoth,
        Err(_) => PlanV::Reject(AppError::InternalServerError),
        Ok((user_id, user_pid)) => {
            if user_pid.len() != 16 {
                PlanV::Reject(AppError::InternalServerError)
            } else {
                match profile_check {
                    Some(Ok(_)) => PlanV::Reject(AppError::UserAlreadyExist),
                    Some(Err(StoreError::NotFound)) => PlanV::CompleteProfile(user_id, user_pid),
                    Some(Err(_)) => PlanV::Reject(AppError::InternalServerError),
                    None => PlanV::Reject(AppError::InternalServerError),
                }
            }
        },
    }
}

/// Decides the registration plan from the two lookups. The profile check is
/// made exactly when the user lookup found a row.
pub fn register_plan(
    user_lookup: &Result<(i64, Vec<u8>), StoreError>,
    profile_check: &Option<Result<i64, StoreError>>,
) -> (r: RegisterPlan)
    requires
        (profile_check is Some) <==> (user_lookup is Ok),
    ensures
        match r {
            RegisterPlan::CreateBoth => spec_register_plan(lookup_view(user_lookup), *profile_check)
                == PlanV::CreateBoth,
            RegisterPlan::CompleteProfile { user_id, user_pid } => user_pid.wf()
                && spec_register_plan(lookup_view(user_lookup), *profile_check)
                == PlanV::CompleteProfile(user_id, user_pid@),
            RegisterPlan::Reject(e) => spec_register_plan(lookup_view(user_lookup), *profile_check)
                == PlanV::Reject(e),
        },
{
    match user_lookup {
        Err(StoreError::NotFound) => RegisterPlan::CreateBoth,
        Err(_) => RegisterPlan::Reject(AppError::InternalServerError),
        Ok((user_id, pid_bytes)) => {
            let user_pid = match Pid::from_bytes(pid_bytes.clone()) {
                Some(p) => p,
                None => {
                    return RegisterPlan::Reject(AppError::InternalServerError);
                },
            };
            match profile_check {
                Some(Ok(_)) => RegisterPlan::Reject(AppError::UserAlreadyExist),
                Some(Err(StoreError::NotFound)) => RegisterPlan::CompleteProfile {
                    user_id: *user_id,
                    user_pid,
                },
                Some(Err(_)) => RegisterPlan::Reject(AppError::InternalServerError),
                None => RegisterPlan::Reject(AppError::InternalServerError),
            }
        },
    }
}

/// A ghost store: user rows keyed by normalized email, and the profile ids
/// of the users that have a profile row.
pub struct StoreModel {
    pub users: Map<Seq<char>, (i64, Seq<u8>)>,
    pub profiles_of: Map<i64, i64>,
}

/// What the user-ids lookup returns against this store.
pub open spec fn user_lookup_in(s: StoreModel, email: Seq<char>) -> Result<
    (i64, Seq<u8>),
    StoreError,
> {
    if s.users.contains_key(email) {
        Ok(s.users[email])
    } else {
        Err(StoreError::NotFound)
    }
}

/// What the profile-id lookup returns against this store.
pub open spec fn profile_check_in(s: StoreModel, user_id: i64) -> Result<i64, StoreError> {
    if s.profiles_of.contains_key(user_id) {
        Ok(s.profiles_of[user_id])
    } else {
        Err(StoreError::NotFound)
    }
}

/// The plan the workflow reaches against this store for this email.
pub open spec fn register_outcome(s: StoreModel, email: Seq<char>) -> PlanV {
    let user_lookup = user_lookup_in(s, email);
    let profile_check = if user_lookup is Ok {
        Some(profile_check_in(s, user_lookup.unwrap().0))
    } else {
        None
    };
    spec_register_plan(user_lookup, profile_check)
}

/// The store after a registration persisted both rows.
pub open spec fn store_after_registration(
    s: StoreModel,
    email: Seq<char>,
    user_id: i64,
    user_pid: Seq<u8>,
    profile_id: i64,
) -> StoreModel {
    StoreModel {
        users: s.users.insert(email, (user_id, user_pid)),
        profiles_of: s.profiles_of.insert(user_id, profile_id),
    }
}

/// Registering the same email twice: against a store without the email the
/// workflow plans to create both rows, and once both are persisted, the
/// second attempt is refused as `UserAlreadyExist`.
pub proof fn lemma_register_twice(
    s: StoreModel,
    email: Seq<char>,
    user_id: i64,
    user_pid: Seq<u8>,
    profile_id: i64,
)
    requires
        !s.users.contains_key(email),
        user_pid.len() == 16,
    ensures
        register_outcome(s, email) == PlanV::CreateBoth,
        register_outcome(store_after_registration(s, email, user_id, user_pid, profile_id), email)
            == PlanV::Reject(AppError::UserAlreadyExist),
{
}

/// A user row without a profile row is a resumable, incomplete registration:
/// the workflow plans to complete the profile rather than refuse.
pub proof fn lemma_register_completes_partial(s: StoreModel, email: Seq<char>)
    requires
        s.users.contains_key(email),
        s.users[email].1.len() == 16,
        !s.profiles_of.contains_key(s.users[email].0),
    ensures
        register_outcome(s, email) == PlanV::CompleteProfile(s.users[email].0, s.users[email].1),
{
}

/// How the workflow reports a failed user-row creation. Two concurrent
/// registrations of one email race at the store; the loser sees the store's
/// uniqueness-constraint violation, which is a duplicate registration
/// (`UserAlreadyExist`), never an internal failure. Anything else is
/// internal.
pub fn user_insert_error(e: StoreError) -> (r: AppError)
    ensures
        r == (if e == StoreError::Conflict {
            AppError::UserAlreadyExist
        } else {
            AppError::InternalServerError
        }),
{
    match e {
        StoreError::Conflict => AppError::UserAlreadyExist,
        StoreError::NotFound => AppError::InternalServerError,
        StoreError::Internal => AppError::InternalServerError,
    }
}

/// What the store is handed to create a user row: the normalized email, the
/// salted password hash, and a fresh public identifier.
pub struct NewUser {
    pub email: String,
    pub password_hash: String,
    pub pid: Pid,
}

/// Prepares the user row to be created for a validated registration: hashes
/// the password and draws a fresh identifier.
pub fn new_user_record(v: &ValidRegistration) -> (r: Result<NewUser, AppError>)
    ensures
        match r {
            Ok(nu) => {
                &&& nu.email@ == v.email@
                &&& verifies(v.password@, nu.password_hash@)
                &&& hash_parseable(nu.password_hash@)
                &&& nu.pid.wf()
            },
            Err(e) => e == AppError::InternalServerError,
        },
{
    let password_hash = match hash_password(v.password.as_str()) {
        Ok(h) => h,
        Err(e) => {
            return Err(e);
        },
    };
    Ok(NewUser { email: v.email.clone(), password_hash, pid: Pid::fresh() })
}

/// The profile row the workflow creates: the validated name and birth-date
/// fields, the location placeholder, and visibility off.
pub fn new_profile_params(user_id: i64, v: &ValidRegistration) -> (r: ProfileParams)
    ensures
        r.user_id == user_id,
        r.birth_date == v.birth_date,
        r.first_name@ == v.first_name@,
        r.last_name@ == v.last_name@,
        r.location@ == "JPN"@,
        !r.is_visible,
{
    ProfileParams {
        user_id,
        birth_date: v.birth_date,
        first_name: v.first_name.clone(),
        last_name: v.last_name.clone(),
        location: String::from_str("JPN"),
        is_visible: false,
    }
}

/// Finishes a registration once the store has created (or completed) the
/// profile row: issues the token, writes both cache projections through, and
/// builds the response. It fails exactly when the returned row cannot be
/// projected under a 16-byte identifier, and the caches are then left
/// unchanged.
pub fn complete_registration(
    user_cache: &mut IdentityCache<CacheUser>,
    profile_cache: &mut IdentityCache<CacheProfile>,
    user_id: i64,
    user_pid: &Pid,
    v: &ValidRegistration,
    profile_row: &Profile,
    secret: &str,
    ttl_minutes: u64,
    now: i64,
) -> (r: Result<RegisterResponse, AppError>)
    requires
        old(user_cache).wf(),
        old(profile_cache).wf(),
        user_pid.wf(),
        0 <= now,
        ttl_minutes <= MAX_TTL_MINUTES,
    ensures
        final(user_cache).wf(),
        final(profile_cache).wf(),
        final(user_cache).capacity() == old(user_cache).capacity(),
        final(profile_cache).capacity() == old(profile_cache).capacity(),
        self_keyed(old(user_cache)) ==> self_keyed(final(user_cache)),
        match r {
            Ok(resp) => {
                &&& resp.first_name == profile_row.first_name
                &&& resp.last_name == profile_row.last_name
                &&& resp.birth_date == profile_row.birth_date
                &&& resp.location == profile_row.location
                &&& resp.is_visible == profile_row.is_visible
                &&& resp.email matches Some(e) && e@ == v.email@
                &&& resp.auth_token matches Some(t) && t@ == token_of(
                    uuid_str_of(user_pid@),
                    expiry_at(now, ttl_minutes),
                    secret@,
                ) && t@.len() > 0 && claims_of(t@, secret@) == Some(
                    Some((uuid_str_of(user_pid@), expiry_at(now, ttl_minutes))),
                ) && uuid_parsed_of(uuid_str_of(user_pid@)) == Some(user_pid@)
                &&& final(user_cache).contains_key(user_pid@)
                &&& final(user_cache).value_of(user_pid@)@ == (CacheUserV {
                    id: user_id as i32,
                    pid: user_pid@,
                    email: v.email@,
                })
                &&& projectable_profile(profile_row)
                &&& profile_row.pid matches Some(pb) && pb@.len() == 16
                    && final(profile_cache).contains_key(pb@)
                    && final(profile_cache).value_of(pb@)@ == (CacheProfileV {
                    id: profile_row.id.unwrap() as i32,
                    user_id: profile_row.user_id.unwrap() as i32,
                    birth_date: profile_row.birth_date.unwrap(),
                    first_name: profile_row.first_name.unwrap()@,
                    last_name: profile_row.last_name.unwrap()@,
                })
            },
            Err(e) => {
                &&& e == AppError::InternalServerError
                &&& !cacheable_profile(profile_row)
                &&& *final(user_cache) == *old(user_cache)
                &&& *final(profile_cache) == *old(profile_cache)
            },
        },
{
    let auth_token = match issue_token(secret, user_pid, ttl_minutes, now) {
        Ok(t) => t,
        Err(_) => {
            return Err(AppError::InternalServerError);
        },
    };
    let profile_pid = match Pid::from_row_bytes(&profile_row.pid) {
        Ok(p) => p,
        Err(e) => {
            return Err(e);
        },
    };
    let cache_profile = match CacheProfile::from(profile_row) {
        Ok(c) => c,
        Err(e) => {
            return Err(e);
        },
    };
    let cache_user = CacheUser {
        id: #[verifier::truncate] (user_id as i32),
        pid: user_pid.clone(),
        email: v.email.clone(),
    };
    let ghost stored = cache_user;
    user_cache.insert(user_pid.clone(), cache_user);
    proof {
        assert forall|k: Seq<u8>|
            self_keyed(old(user_cache)) && #[trigger] user_cache.contains_key(
                k,
            ) implies user_cache.value_of(k).pid@ == k by {
            if k == user_pid@ {
                assert(user_cache.value_of(k) == stored);
            } else {
                assert(old(user_cache).contains_key(k) && user_cache.value_of(k) == old(
                    user_cache,
                ).value_of(k));
            }
        }
    }
    profile_cache.insert(profile_pid, cache_profile);
    Ok(
        RegisterResponse {
            first_name: profile_row.first_name.clone(),
            last_name: profile_row.last_name.clone(),
            birth_date: profile_row.birth_date,
            location: profile_row.location.clone(),
            is_visible: profile_row.is_visible,
            email: Some(v.email.clone()),
            auth_token: Some(auth_token),
        },
    )
}

} // verus!
