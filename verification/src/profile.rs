//! The profile record as the store returns it, and the reduced projection of
//! it that the identity cache holds. Exactly one profile belongs to each
//! user; a user without one is a valid state only while a registration is
//! being completed.

use vstd::prelude::*;
use crate::errors::AppError;

verus! {

/// A `profiles` row, every column optional at this boundary.
pub struct Profile {
    pub id: Option<i64>,
    pub pid: Option<Vec<u8>>,
    pub user_id: Option<i64>,
    pub birth_date: Option<i64>,
    pub first_name: Option<String>,
    pub last_name: Option<String>,
    pub profile_video_id: Option<i64>,
    pub location: Option<String>,
    pub is_visible: Option<bool>,
    pub created_at: Option<i64>,
    pub updated_at: Option<i64>,
}

impl Clone for Profile {
    fn clone(&self) -> (r: Self)
        ensures
            r.id == self.id,
            r.pid matches Some(p) ==> (self.pid matches Some(q) && p@ == q@),
            r.pid is None <==> self.pid is None,
            r.user_id == self.user_id,
            r.birth_date == self.birth_date,
            r.first_name == self.first_name,
            r.last_name == self.last_name,
            r.profile_video_id == self.profile_video_id,
            r.location == self.location,
            r.is_visible == self.is_visible,
            r.created_at == self.created_at,
            r.updated_at == self.updated_at,
    {
        Profile {
            id: self.id,
            pid: self.pid.clone(),
            user_id: self.user_id,
            birth_date: self.birth_date,
            first_name: self.first_name.clone(),
            last_name: self.last_name.clone(),
            profile_video_id: self.profile_video_id,
            location: self.location.clone(),
            is_visible: self.is_visible,
            created_at: self.created_at,
            updated_at: self.updated_at,
        }
    }
}

/// The few profile fields needed for fast display: the reduced projection
/// held by the identity cache, never the source of truth.
pub struct CacheProfile {
    pub id: i32,
    pub user_id: i32,
    pub birth_date: i64,
    pub first_name: String,
    pub last_name: String,
}

/// Ghost image of a cached profile projection.
pub struct CacheProfileV {
    pub id: i32,
    pub user_id: i32,
    pub birth_date: i64,
    pub first_name: Seq<char>,
    pub last_name: Seq<char>,
}

impl View for CacheProfile {
    type V = CacheProfileV;

    open spec fn view(&self) -> CacheProfileV {
        CacheProfileV {
            id: self.id,
            user_id: self.user_id,
            birth_date: self.birth_date,
            first_name: self.first_name@,
            last_name: self.last_name@,
        }
    }
}

impl Clone for CacheProfile {
    fn clone(&self) -> (r: Self)
        ensures
            r@ == self@,
    {
        CacheProfile {
            id: self.id,
            user_id: self.user_id,
            birth_date: self.birth_date,
            first_name: self.first_name.clone(),
            last_name: self.last_name.clone(),
        }
    }
}

/// Whether a profile row carries everything a cached projection needs.
pub open spec fn projectable_profile(p: &Profile) -> bool {
    &&& p.id is Some
    &&& p.user_id is Some
    &&& p.birth_date is Some
    &&& p.first_name is Some
    &&& p.last_name is Some
}

/// Whether a profile row can be projected into the cache under its own
/// 16-byte public identifier.
pub open spec fn cacheable_profile(p: &Profile) -> bool {
    &&& projectable_profile(p)
    &&& p.pid matches Some(pb) && pb@.len() == 16
}

impl CacheProfile {
    /// Builds the cached projection of a profile row. A row missing any of
    /// the projected fields violates the store invariant
    /// (`InternalServerError`).
    pub fn from(db_profile: &Profile) -> (r: Result<Self, AppError>)
        ensures
            match r {
                Ok(c) => {
                    &&& projectable_profile(db_profile)
                    &&& c.id == db_profile.id.unwrap() as i32
                    &&& c.user_id == db_profile.user_id.unwrap() as i32
                    &&& c.birth_date == db_profile.birth_date.unwrap()
                    &&& c.first_name@ == db_profile.first_name.unwrap()@
                    &&& c.last_name@ == db_profile.last_name.unwrap()@
                },
                Err(e) => !projectable_profile(db_profile)
                    && e == AppError::InternalServerError,
            },
    {
        let id: i64 = match db_profile.id {
            Some(v) => v,
            None => {
                return Err(AppError::InternalServerError);
            },
        };
        let user_id: i64 = match db_profile.user_id {
            Some(v) => v,
            None => {
                return Err(AppError::InternalServerError);
            },
        };
        let birth_date: i64 = match db_profile.birth_date {
            Some(v) => v,
            None => {
                return Err(AppError::InternalServerError);
            },
        };
        let first_name: String = match &db_profile.first_name {
            Some(v) => v.clone(),
            None => {
                return Err(AppError::InternalServerError);
            },
        };
        let last_name: String = match &db_profile.last_name {
            Some(v) => v.clone(),
            None => {
                return Err(AppError::InternalServerError);
            },
        };
        Ok(
            CacheProfile {
                id: #[verifier::truncate] (id as i32),
                user_id: #[verifier::truncate] (user_id as i32),
                birth_date,
                first_name,
                last_name,
            },
        )
    }
}

} // verus!
