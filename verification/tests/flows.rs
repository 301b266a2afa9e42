use std::collections::HashMap;

use account_core::cache::IdentityCache;
use account_core::errors::{AppError, StoreError};
use account_core::gate::{authenticate_resolve, bearer_token, resolve_identity};
use account_core::login::{login_check, login_finish};
use account_core::password::hash_password;
use account_core::pid::Pid;
use account_core::profile::{CacheProfile, Profile};
use account_core::register::{
    complete_registration, new_profile_params, new_user_record, register_plan, user_insert_error,
    RegisterPlan,
};
use account_core::token::validate_token;
use account_core::user::{CacheUser, User};
use account_core::validate::validate_registration;
use account_core::views::RegisterParams;

const NOW: i64 = 1_700_000_000;
const SECRET: &str = "a-test-signing-secret";
const TTL: u64 = 60;

fn register_params() -> RegisterParams {
    RegisterParams {
        email: String::from("a@b.com"),
        password: String::from("secret123"),
        first_name: String::from("Ann"),
        last_name: String::from("Lee"),
        birth_date: NOW - 20 * 365 * 86_400,
    }
}

/// A store double: user rows keyed by normalized email, profile rows keyed by
/// user id.
struct FakeStore {
    users: HashMap<String, (i64, Vec<u8>, String)>,
    profiles: HashMap<i64, Profile>,
    next_id: i64,
}

impl FakeStore {
    fn new() -> Self {
        FakeStore { users: HashMap::new(), profiles: HashMap::new(), next_id: 1 }
    }

    fn lookup_user_ids(&self, email: &str) -> Result<(i64, Vec<u8>), StoreError> {
        match self.users.get(email) {
            Some((id, pid, _)) => Ok((*id, pid.clone())),
            None => Err(StoreError::NotFound),
        }
    }

    fn check_profile(&self, user_id: i64) -> Result<i64, StoreError> {
        match self.profiles.get(&user_id) {
            Some(p) => Ok(p.id.unwrap()),
            None => Err(StoreError::NotFound),
        }
    }

    fn insert_user(&mut self, email: &str, hash: &str, pid: &Pid) -> Result<i64, StoreError> {
        if self.users.contains_key(email) {
            return Err(StoreError::Conflict);
        }
        let id = self.next_id;
        self.next_id += 1;
        self.users.insert(
            email.to_string(),
            (id, pid.as_bytes().clone(), hash.to_string()),
        );
        Ok(id)
    }

    fn insert_profile(&mut self, user_id: i64, first: &str, last: &str, birth_date: i64) -> Profile {
        let profile = Profile {
            id: Some(self.next_id),
            pid: Some(Pid::fresh().as_bytes().clone()),
            user_id: Some(user_id),
            birth_date: Some(birth_date),
            first_name: Some(first.to_string()),
            last_name: Some(last.to_string()),
            profile_video_id: None,
            location: Some(String::from("JPN")),
            is_visible: Some(false),
            created_at: Some(NOW),
            updated_at: Some(NOW),
        };
        self.next_id += 1;
        self.profiles.insert(user_id, profile.clone());
        profile
    }
}

/// Drives the whole registration workflow against the store double, as the
/// glue would.
fn register_once(
    store: &mut FakeStore,
    user_cache: &mut IdentityCache<CacheUser>,
    profile_cache: &mut IdentityCache<CacheProfile>,
    params: &RegisterParams,
) -> Result<account_core::views::RegisterResponse, AppError> {
    let valid = validate_registration(params, NOW)?;
    let lookup = store.lookup_user_ids(&valid.email);
    let check = match &lookup {
        Ok((uid, _)) => Some(store.check_profile(*uid)),
        Err(_) => None,
    };
    match register_plan(&lookup, &check) {
        RegisterPlan::Reject(e) => Err(e),
        RegisterPlan::CompleteProfile { user_id, user_pid } => {
            let row = store.insert_profile(user_id, &valid.first_name, &valid.last_name, valid.birth_date);
            complete_registration(
                user_cache,
                profile_cache,
                user_id,
                &user_pid,
                &valid,
                &row,
                SECRET,
                TTL,
                NOW,
            )
        }
        RegisterPlan::CreateBoth => {
            let new_user = new_user_record(&valid)?;
            let user_id = match store.insert_user(&new_user.email, &new_user.password_hash, &new_user.pid) {
                Ok(id) => id,
                Err(e) => return Err(user_insert_error(e)),
            };
            let profile_params = new_profile_params(user_id, &valid);
            let row = store.insert_profile(
                user_id,
                &profile_params.first_name,
                &profile_params.last_name,
                profile_params.birth_date,
            );
            complete_registration(
                user_cache,
                profile_cache,
                user_id,
                &new_user.pid,
                &valid,
                &row,
                SECRET,
                TTL,
                NOW,
            )
        }
    }
}

#[test]
fn register_succeeds_then_conflicts() {
    let mut store = FakeStore::new();
    let mut user_cache = IdentityCache::new(16);
    let mut profile_cache = IdentityCache::new(16);
    let first = register_once(&mut store, &mut user_cache, &mut profile_cache, &register_params())
        .expect("first registration succeeds");
    assert_eq!(first.is_visible, Some(false));
    assert_eq!(first.location, Some(String::from("JPN")));
    assert_eq!(first.email, Some(String::from("a@b.com")));
    assert!(!first.auth_token.clone().expect("a token is issued").is_empty());
    let second = register_once(&mut store, &mut user_cache, &mut profile_cache, &register_params());
    assert!(matches!(second, Err(AppError::UserAlreadyExist)));
}

#[test]
fn register_completes_a_partial_registration() {
    let mut store = FakeStore::new();
    let mut user_cache = IdentityCache::new(16);
    let mut profile_cache = IdentityCache::new(16);
    // Simulate the partial state: a user row exists, no profile row.
    let pid = Pid::fresh();
    let hash = hash_password("secret123").expect("hashing should succeed");
    store.insert_user("a@b.com", &hash, &pid).expect("the email is free");
    let resumed = register_once(&mut store, &mut user_cache, &mut profile_cache, &register_params())
        .expect("a partial registration is completed, not refused");
    assert_eq!(resumed.first_name, Some(String::from("Ann")));
    assert_eq!(resumed.is_visible, Some(false));
    // A further attempt now conflicts.
    let third = register_once(&mut store, &mut user_cache, &mut profile_cache, &register_params());
    assert!(matches!(third, Err(AppError::UserAlreadyExist)));
}

#[test]
fn register_token_resolves_to_the_new_user() {
    let mut store = FakeStore::new();
    let mut user_cache = IdentityCache::new(16);
    let mut profile_cache = IdentityCache::new(16);
    let resp = register_once(&mut store, &mut user_cache, &mut profile_cache, &register_params())
        .expect("registration succeeds");
    let token = resp.auth_token.expect("a token is issued");
    let pid = validate_token(SECRET, &token, NOW + 60).expect("the fresh token validates");
    // The cache was written through on creation: the middleware resolves
    // without any store access.
    let identity = resolve_identity(&user_cache, &pid).expect("the projection was cached");
    assert_eq!(identity.email, "a@b.com");
}

#[test]
fn register_plan_decision_table() {
    let absent: Result<(i64, Vec<u8>), StoreError> = Err(StoreError::NotFound);
    assert!(matches!(register_plan(&absent, &None), RegisterPlan::CreateBoth));

    let failed: Result<(i64, Vec<u8>), StoreError> = Err(StoreError::Internal);
    assert!(matches!(
        register_plan(&failed, &None),
        RegisterPlan::Reject(AppError::InternalServerError)
    ));

    let found: Result<(i64, Vec<u8>), StoreError> = Ok((7, vec![1u8; 16]));
    assert!(matches!(
        register_plan(&found, &Some(Ok(9))),
        RegisterPlan::Reject(AppError::UserAlreadyExist)
    ));
    assert!(matches!(
        register_plan(&found, &Some(Err(StoreError::NotFound))),
        RegisterPlan::CompleteProfile { user_id: 7, .. }
    ));
    assert!(matches!(
        register_plan(&found, &Some(Err(StoreError::Internal))),
        RegisterPlan::Reject(AppError::InternalServerError)
    ));

    let malformed: Result<(i64, Vec<u8>), StoreError> = Ok((7, vec![1u8; 5]));
    assert!(matches!(
        register_plan(&malformed, &Some(Err(StoreError::NotFound))),
        RegisterPlan::Reject(AppError::InternalServerError)
    ));
}

#[test]
fn losing_registration_race_surfaces_as_conflict() {
    assert_eq!(user_insert_error(StoreError::Conflict), AppError::UserAlreadyExist);
    assert_eq!(user_insert_error(StoreError::Internal), AppError::InternalServerError);
}

fn stored_user(pid: &Pid, hash: &str) -> User {
    User {
        id: Some(5),
        pid: Some(pid.as_bytes().clone()),
        email: Some(String::from("a@b.com")),
        password: Some(hash.to_string()),
        created_at: Some(NOW),
        updated_at: Some(NOW),
    }
}

#[test]
fn login_rejects_wrong_password() {
    let pid = Pid::fresh();
    let hash = hash_password("secret123").expect("hashing should succeed");
    let lookup: Result<User, StoreError> = Ok(stored_user(&pid, &hash));
    let r = login_check(&String::from("wrong-password"), &lookup, SECRET, TTL, NOW);
    assert!(matches!(r, Err(AppError::WrongCredential)));
}

#[test]
fn login_rejects_unknown_email() {
    let lookup: Result<User, StoreError> = Err(StoreError::NotFound);
    let r = login_check(&String::from("secret123"), &lookup, SECRET, TTL, NOW);
    assert!(matches!(r, Err(AppError::UserDoesNotExist)));
}

#[test]
fn login_issues_token_and_refreshes_profile_cache() {
    let pid = Pid::fresh();
    let hash = hash_password("secret123").expect("hashing should succeed");
    let lookup: Result<User, StoreError> = Ok(stored_user(&pid, &hash));
    let ticket = login_check(&String::from("secret123"), &lookup, SECRET, TTL, NOW)
        .expect("the right password logs in");
    assert_eq!(ticket.user_id, 5);

    let profile_pid = Pid::fresh();
    let profile = Profile {
        id: Some(11),
        pid: Some(profile_pid.as_bytes().clone()),
        user_id: Some(5),
        birth_date: Some(1_000_000),
        first_name: Some(String::from("Ann")),
        last_name: Some(String::from("Lee")),
        profile_video_id: None,
        location: Some(String::from("JPN")),
        is_visible: Some(false),
        created_at: Some(NOW),
        updated_at: Some(NOW),
    };
    let mut profile_cache: IdentityCache<CacheProfile> = IdentityCache::new(16);
    let token = ticket.token.clone();
    let resp = login_finish(&mut profile_cache, ticket, &Ok(profile))
        .expect("a present profile finishes the login");
    assert_eq!(resp.email, Some(String::from("a@b.com")));
    assert_eq!(resp.auth_token, Some(token));
    assert_eq!(profile_cache.len(), 1);
    let cached = profile_cache.get(&profile_pid).expect("the projection was cached");
    assert_eq!(cached.first_name, "Ann");
}

#[test]
fn bearer_extraction() {
    assert!(matches!(bearer_token(None), Err(AppError::Unauthorized)));
    let not_bearer = String::from("Token abc");
    assert!(matches!(bearer_token(Some(&not_bearer)), Err(AppError::Unauthorized)));
    let bearer = String::from("Bearer  abc.def.ghi  ");
    assert_eq!(bearer_token(Some(&bearer)).expect("a bearer header"), "abc.def.ghi");
    let short = String::from("Bear");
    assert!(matches!(bearer_token(Some(&short)), Err(AppError::Unauthorized)));
}

#[test]
fn cache_aside_round_trip_uses_no_second_store_access() {
    let pid = Pid::fresh();
    let hash = hash_password("secret123").expect("hashing should succeed");
    let row = stored_user(&pid, &hash);
    let mut cache: IdentityCache<CacheUser> = IdentityCache::new(16);
    // First resolution: miss, so the store row is handed in and admitted.
    let store_result: Result<User, StoreError> = Ok(row);
    let first = authenticate_resolve(&mut cache, &pid, Some(&store_result))
        .expect("the store row resolves");
    // Second resolution: hit; no store outcome is supplied at all.
    let second = authenticate_resolve(&mut cache, &pid, None)
        .expect("the cached projection resolves");
    assert_eq!(first.id, second.id);
    assert!(first.pid.matches(&second.pid));
    assert_eq!(first.email, second.email);
}

#[test]
fn gate_maps_store_failures() {
    let pid = Pid::fresh();
    let mut cache: IdentityCache<CacheUser> = IdentityCache::new(16);
    let missing: Result<User, StoreError> = Err(StoreError::NotFound);
    assert!(matches!(
        authenticate_resolve(&mut cache, &pid, Some(&missing)),
        Err(AppError::Unauthorized)
    ));
    let broken: Result<User, StoreError> = Err(StoreError::Internal);
    assert!(matches!(
        authenticate_resolve(&mut cache, &pid, Some(&broken)),
        Err(AppError::InternalServerError)
    ));
}

#[test]
fn cache_evicts_oldest_when_full() {
    let a = Pid::fresh();
    let b = Pid::fresh();
    let c = Pid::fresh();
    let mut cache: IdentityCache<i64> = IdentityCache::new(2);
    cache.insert(a.clone(), 1);
    cache.insert(b.clone(), 2);
    assert_eq!(cache.len(), 2);
    cache.insert(c.clone(), 3);
    assert_eq!(cache.len(), 2);
    assert!(cache.get(&a).is_none());
    assert_eq!(cache.get(&b), Some(&2));
    assert_eq!(cache.get(&c), Some(&3));
    cache.insert(b.clone(), 20);
    assert_eq!(cache.get(&b), Some(&20));
    assert_eq!(cache.len(), 2);
}
