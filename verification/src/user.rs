//! The persistent user record as the store returns it, and the reduced
//! projection of it that the identity cache holds.

use vstd::prelude::*;
use crate::errors::AppError;
use crate::pid::Pid;

verus! {

/// A `users` row. Every column is optional at this boundary: the store may
/// return rows with unexpected shapes, and the core checks for the fields it
/// needs.
pub struct User {
    pub id: Option<i64>,
    pub pid: Option<Vec<u8>>,
    pub email: Option<String>,
    pub password: Option<String>,
    pub created_at: Option<i64>,
    pub updated_at: Option<i64>,
}

impl Clone for User {
    fn clone(&self) -> (r: Self)
        ensures
            r.id == self.id,
            r.pid matches Some(p) ==> (self.pid matches Some(q) && p@ == q@),
            r.pid is None <==> self.pid is None,
            r.email == self.email,
            r.password == self.password,
            r.created_at == self.created_at,
            r.updated_at == self.updated_at,
    {
        User {
            id: self.id,
            pid: self.pid.clone(),
            email: self.email.clone(),
            password: self.password.clone(),
            created_at: self.created_at,
            updated_at: self.updated_at,
        }
    }
}

/// The few user fields needed for fast authorization: the reduced projection
/// held by the identity cache, never the source of truth.
pub struct CacheUser {
    pub id: i32,
    pub pid: Pid,
    pub email: String,
}

/// Ghost image of a cached user projection.
pub struct CacheUserV {
    pub id: i32,
    pub pid: Seq<u8>,
    pub email: Seq<char>,
}

impl View for CacheUser {
    type V = CacheUserV;

    open spec fn view(&self) -> CacheUserV {
        CacheUserV { id: self.id, pid: self.pid@, email: self.email@ }
    }
}

impl Clone for CacheUser {
    fn clone(&self) -> (r: Self)
        ensures
            r@ == self@,
    {
        CacheUser { id: self.id, pid: self.pid.clone(), email: self.email.clone() }
    }
}

/// Whether a user row carries everything a cached projection needs: the
/// internal id, a 16-byte public identifier, and the email.
pub open spec fn projectable_user(u: &User) -> bool {
    &&& u.id is Some
    &&& u.pid matches Some(p) && p@.len() == 16
    &&& u.email is Some
}

impl CacheUser {
    /// Builds the cached projection of a user row. A row missing id, public
    /// identifier or email violates the store invariant
    /// (`InternalServerError`); an identifier of the wrong width cannot be
    /// resolved (`Unauthorized`).
    pub fn from(db_user: &User) -> (r: Result<Self, AppError>)
        ensures
            match r {
                Ok(c) => {
                    &&& projectable_user(db_user)
                    &&& c.id == db_user.id.unwrap() as i32
                    &&& c.pid@ == db_user.pid.unwrap()@
                    &&& c.pid.wf()
                    &&& c.email@ == db_user.email.unwrap()@
                },
                Err(e) => {
                    &&& !projectable_user(db_user)
                    &&& (db_user.id is None || db_user.pid is None || db_user.email is None)
                        ==> e == AppError::InternalServerError
                    &&& (db_user.id is Some && db_user.pid is Some && db_user.email is Some)
                        ==> e == AppError::Unauthorized
                },
            },
    {
        let id: i64 = match db_user.id {
            Some(v) => v,
            None => {
                return Err(AppError::InternalServerError);
            },
        };
        let pid_vec: &Vec<u8> = match &db_user.pid {
            Some(v) => v,
            None => {
                return Err(AppError::InternalServerError);
            },
        };
        let email: String = match &db_user.email {
            Some(v) => v.clone(),
            None => {
                return Err(AppError::InternalServerError);
            },
        };
        let pid = match Pid::from_bytes(pid_vec.clone()) {
            Some(p) => p,
            None => {
                return Err(AppError::Unauthorized);
            },
        };
        Ok(CacheUser { id: #[verifier::truncate] (id as i32), pid, email })
    }
}

} // verus!
