//! The authentication gate: resolves a bearer token from the authorization
//! header to a verified identity, consulting the identity cache before the
//! store, and admitting store rows into the cache on a miss. The store is
//! never mutated here.

use vstd::prelude::*;
use crate::cache::IdentityCache;
use crate::errors::{AppError, StoreError};
use crate::pid::Pid;
use crate::text::trimmed_of;
use crate::user::{projectable_user, CacheUser, CacheUserV, User};

verus! {

/// The token carried by an authorization header value: everything after the
/// `Bearer` prefix, trimmed; or nothing, when the prefix is missing.
pub open spec fn spec_bearer(h: Seq<char>) -> Option<Seq<char>> {
    if h.len() >= 6 && h.subrange(0, 6) == "Bearer"@ {
        Some(trimmed_of(h.subrange(6, h.len() as int)))
    } else {
        None
    }
}

/// Extracts the bearer token from the authorization header value; a missing
/// header or a missing `Bearer` prefix is refused as `Unauthorized`.
pub fn bearer_token(header: Option<&String>) -> (r: Result<String, AppError>)
    ensures
        match r {
            Ok(t) => header matches Some(h) && spec_bearer(h@) == Some(t@),
            Err(e) => e == AppError::Unauthorized && (header matches Some(h) ==> spec_bearer(h@)
                is None),
        },
{
    let h = match header {
        Some(h) => h,
        None => {
            return Err(AppError::Unauthorized);
        },
    };
    let s = h.as_str();
    let n = s.unicode_len();
    proof {
        reveal_strlit("Bearer");
    }
    if n < 6 {
        return Err(AppError::Unauthorized);
    }
    if !(s.get_char(0) == 'B' && s.get_char(1) == 'e' && s.get_char(2) == 'a' && s.get_char(3)
        == 'r' && s.get_char(4) == 'e' && s.get_char(5) == 'r') {
        proof {
            let sub = h@.subrange(0, 6);
            assert(sub[0] == h@[0] && sub[1] == h@[1] && sub[2] == h@[2] && sub[3] == h@[3]
                && sub[4] == h@[4] && sub[5] == h@[5]);
            if sub == "Bearer"@ {
                assert(sub[0] == 'B' && sub[1] == 'e' && sub[2] == 'a' && sub[3] == 'r' && sub[4]
                    == 'e' && sub[5] == 'r');
                assert(false);
            }
        }
        return Err(AppError::Unauthorized);
    }
    assert(h@.subrange(0, 6) =~= "Bearer"@);
    let rest = s.substring_char(6, n);
    let token = crate::text::trim(rest);
    Ok(token)
}

/// What resolving an identifier against a cache yields.
pub open spec fn spec_resolution(cache: &IdentityCache<CacheUser>, pid: Seq<u8>) -> Option<
    CacheUserV,
> {
    if cache.contains_key(pid) {
        Some(cache.value_of(pid)@)
    } else {
        None
    }
}

/// Every cached identity sits under its own identifier: the key of each
/// entry is the `pid` its value carries. Every write this crate makes keys
/// an entry that way, so the property is preserved by each of them.
pub open spec fn self_keyed(cache: &IdentityCache<CacheUser>) -> bool {
    forall|k: Seq<u8>| #[trigger] cache.contains_key(k) ==> cache.value_of(k).pid@ == k
}

/// Looks an identifier up in the identity cache. In a self-keyed cache the
/// identity found carries the queried identifier.
pub fn resolve_identity(cache: &IdentityCache<CacheUser>, pid: &Pid) -> (r: Option<CacheUser>)
    requires
        cache.wf(),
    ensures
        match r {
            Some(u) => spec_resolution(cache, pid@) == Some(u@) && (self_keyed(cache) ==> u.pid@
                == pid@),
            None => spec_resolution(cache, pid@) is None,
        },
{
    match cache.get(pid) {
        Some(u) => Some(u.clone()),
        None => None,
    }
}

/// Admits a store row into the identity cache after a miss: builds the
/// cached projection and writes it through, keyed by the row's own public
/// identifier. On failure the cache is left unchanged.
pub fn admit_identity(cache: &mut IdentityCache<CacheUser>, db_user: &User) -> (r: Result<
    CacheUser,
    AppError,
>)
    requires
        old(cache).wf(),
    ensures
        final(cache).wf(),
        final(cache).capacity() == old(cache).capacity(),
        self_keyed(old(cache)) ==> self_keyed(final(cache)),
        match r {
            Ok(u) => {
                &&& projectable_user(db_user)
                &&& u.pid.wf()
                &&& u.id == db_user.id.unwrap() as i32
                &&& u.pid@ == db_user.pid.unwrap()@
                &&& u.email@ == db_user.email.unwrap()@
                &&& spec_resolution(final(cache), u.pid@) == Some(u@)
                &&& forall|k: Seq<u8>|
                    k != u.pid@ && #[trigger] final(cache).contains_key(k) ==> old(
                        cache,
                    ).contains_key(k) && final(cache).value_of(k) == old(cache).value_of(k)
            },
            Err(e) => {
                &&& *final(cache) == *old(cache)
                &&& !projectable_user(db_user)
                &&& (db_user.id is None || db_user.pid is None || db_user.email is None) ==> e
                    == AppError::InternalServerError
                &&& (db_user.id is Some && db_user.pid is Some && db_user.email is Some) ==> e
                    == AppError::Unauthorized
            },
        },
{
    let cache_user = match CacheUser::from(db_user) {
        Ok(u) => u,
        Err(e) => {
            return Err(e);
        },
    };
    let handed_out = cache_user.clone();
    let key = cache_user.pid.clone();
    let ghost stored = cache_user;
    cache.insert(key, cache_user);
    proof {
        assert forall|k: Seq<u8>|
            self_keyed(old(cache)) && #[trigger] cache.contains_key(
                k,
            ) implies cache.value_of(k).pid@ == k by {
            if k == stored.pid@ {
                assert(cache.value_of(k) == stored);
            } else {
                assert(old(cache).contains_key(k) && cache.value_of(k) == old(cache).value_of(k));
            }
        }
    }
    Ok(handed_out)
}

/// How a store failure is reported to the caller: a row that is not there
/// is an unresolvable credential, anything else is internal.
pub fn gate_store_error(e: StoreError) -> (r: AppError)
    ensures
        r == (if e == StoreError::NotFound {
            AppError::Unauthorized
        } else {
            AppError::InternalServerError
        }),
{
    match e {
        StoreError::NotFound => AppError::Unauthorized,
        StoreError::Conflict => AppError::InternalServerError,
        StoreError::Internal => AppError::InternalServerError,
    }
}

/// Resolves a validated identifier to an identity: from the cache when it is
/// there — the store is then not consulted at all — and otherwise from the
/// store row handed in, which is admitted into the cache.
pub fn authenticate_resolve(
    cache: &mut IdentityCache<CacheUser>,
    pid: &Pid,
    store_user: Option<&Result<User, StoreError>>,
) -> (r: Result<CacheUser, AppError>)
    requires
        old(cache).wf(),
        (store_user is Some) <==> !old(cache).contains_key(pid@),
    ensures
        final(cache).wf(),
        final(cache).capacity() == old(cache).capacity(),
        self_keyed(old(cache)) ==> self_keyed(final(cache)),
        old(cache).contains_key(pid@) ==> *final(cache) == *old(cache) && (r matches Ok(u) && u@
            == old(cache).value_of(pid@)@ && (self_keyed(old(cache)) ==> u.pid@ == pid@)),
        !old(cache).contains_key(pid@) ==> match r {
            Ok(u) => {
                &&& store_user matches Some(l)
                &&& l matches Ok(db)
                &&& projectable_user(db)
                &&& u.id == db.id.unwrap() as i32
                &&& u.pid@ == db.pid.unwrap()@
                &&& u.email@ == db.email.unwrap()@
                &&& spec_resolution(final(cache), u.pid@) == Some(u@)
            },
            Err(e) => match store_user {
                Some(l) => match l {
                    Ok(db) => !projectable_user(db),
                    Err(se) => e == (if *se == StoreError::NotFound {
                        AppError::Unauthorized
                    } else {
                        AppError::InternalServerError
                    }),
                },
                None => false,
            },
        },
{
    match resolve_identity(cache, pid) {
        Some(u) => Ok(u),
        None => {
            let lookup = match store_user {
                Some(l) => l,
                None => {
                    return Err(AppError::InternalServerError);
                },
            };
            match lookup {
                Ok(db_user) => admit_identity(cache, db_user),
                Err(se) => Err(gate_store_error(*se)),
            }
        },
    }
}

/// Cache-aside round trip: once a store miss has admitted an identity into
/// the cache, resolving the same identifier again yields the identical
/// identity from the cache alone, with no further store access.
pub proof fn lemma_cache_aside_round_trip(cache: IdentityCache<CacheUser>, u: CacheUser)
    requires
        cache.wf(),
        spec_resolution(&cache, u.pid@) == Some(u@),
    ensures
        cache.contains_key(u.pid@),
        cache.value_of(u.pid@)@ == u@,
{
}

} // verus!
