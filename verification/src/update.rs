//! Sparse profile updates: a typed patch of optional fields, each validated
//! independently, applied as a true partial update — absent fields stay
//! untouched, and a patch with no fields at all is refused rather than
//! silently accepted.

use vstd::prelude::*;
use crate::errors::AppError;
use crate::profile::Profile;
use crate::text::{byte_len, to_uppercase, trim, trimmed_of, upper_of};

verus! {

/// Largest accepted name width for an update, in bytes.
pub const UPDATE_NAME_MAX_BYTES: usize = 24;

/// Latest accepted birth date for an update (a fixed absolute threshold).
pub const UPDATE_YOUNGEST_BIRTH_DATE: i64 = 1136098230;

/// Earliest accepted birth date for an update, as the store can hold it.
pub const UPDATE_OLDEST_BIRTH_DATE: i64 = -2147483648;

/// A sparse set of profile fields to change; a field that is absent is left
/// untouched.
pub struct ProfilePatch {
    pub location: Option<String>,
    pub first_name: Option<String>,
    pub last_name: Option<String>,
    pub is_visible: Option<bool>,
    pub birth_date: Option<i64>,
}

/// A location is within bounds when it holds 1 to 255 bytes once trimmed.
pub open spec fn update_location_valid(s: Seq<char>) -> bool {
    1 <= byte_len(trimmed_of(s)) <= 255
}

/// A name is within bounds when it holds 1 to 24 bytes once trimmed.
pub open spec fn update_name_valid(s: Seq<char>) -> bool {
    1 <= byte_len(trimmed_of(s)) <= 24
}

/// A birth date is accepted between the fixed oldest and youngest
/// thresholds.
pub open spec fn update_birth_date_valid(birth_date: i64) -> bool {
    UPDATE_OLDEST_BIRTH_DATE <= birth_date <= UPDATE_YOUNGEST_BIRTH_DATE
}

/// Whether every field present in the patch passes its bound.
pub open spec fn patch_acceptable(p: &ProfilePatch) -> bool {
    &&& p.location matches Some(l) ==> update_location_valid(l@)
    &&& p.first_name matches Some(f) ==> update_name_valid(f@)
    &&& p.last_name matches Some(l) ==> update_name_valid(l@)
    &&& p.birth_date matches Some(b) ==> update_birth_date_valid(b)
}

/// Whether the patch holds at least one field.
pub open spec fn patch_nonempty(p: &ProfilePatch) -> bool {
    ||| p.location is Some
    ||| p.first_name is Some
    ||| p.last_name is Some
    ||| p.is_visible is Some
    ||| p.birth_date is Some
}

/// A patch that passed validation: present fields normalized and within
/// bounds, at least one field present.
pub struct ValidPatch {
    pub location: Option<String>,
    pub first_name: Option<String>,
    pub last_name: Option<String>,
    pub is_visible: Option<bool>,
    pub birth_date: Option<i64>,
}

/// Checks and normalizes a sparse patch: the location is trimmed and
/// upper-cased, names are trimmed, the birth date is bounded; the byte
/// bounds hold of the trimmed values. Refused as `WrongCredential` if and
/// only if a present field is out of bounds or no field is present at all.
pub fn validate_patch(p: &ProfilePatch) -> (r: Result<ValidPatch, AppError>)
    ensures
        match r {
            Ok(v) => {
                &&& patch_acceptable(p)
                &&& patch_nonempty(p)
                &&& match v.location {
                    Some(l) => p.location matches Some(pl) && l@ == upper_of(trimmed_of(pl@)),
                    None => p.location is None,
                }
                &&& match v.first_name {
                    Some(f) => p.first_name matches Some(pf) && f@ == trimmed_of(pf@),
                    None => p.first_name is None,
                }
                &&& match v.last_name {
                    Some(l) => p.last_name matches Some(pl) && l@ == trimmed_of(pl@),
                    None => p.last_name is None,
                }
                &&& v.is_visible == p.is_visible
                &&& v.birth_date == p.birth_date
            },
            Err(e) => e == AppError::WrongCredential && (!patch_acceptable(p) || !patch_nonempty(
                p,
            )),
        },
{
    let location: Option<String> = match &p.location {
        Some(l) => {
            let t = trim(l.as_str());
            let n = t.as_str().len();
            if n < 1 || n > 255 {
                return Err(AppError::WrongCredential);
            }
            Some(to_uppercase(t.as_str()))
        },
        None => None,
    };
    let first_name: Option<String> = match &p.first_name {
        Some(f) => {
            let t = trim(f.as_str());
            let n = t.as_str().len();
            if n < 1 || n > UPDATE_NAME_MAX_BYTES {
                return Err(AppError::WrongCredential);
            }
            Some(t)
        },
        None => None,
    };
    let last_name: Option<String> = match &p.last_name {
        Some(l) => {
            let t = trim(l.as_str());
            let n = t.as_str().len();
            if n < 1 || n > UPDATE_NAME_MAX_BYTES {
                return Err(AppError::WrongCredential);
            }
            Some(t)
        },
        None => None,
    };
    let birth_date: Option<i64> = match p.birth_date {
        Some(b) => {
            if UPDATE_YOUNGEST_BIRTH_DATE < b || UPDATE_OLDEST_BIRTH_DATE > b {
                return Err(AppError::WrongCredential);
            }
            Some(b)
        },
        None => None,
    };
    if location.is_none() && first_name.is_none() && last_name.is_none() && p.is_visible.is_none()
        && birth_date.is_none() {
        return Err(AppError::WrongCredential);
    }
    Ok(ValidPatch { location, first_name, last_name, is_visible: p.is_visible, birth_date })
}

/// What the store's conditional update does to the row: each field present
/// in the patch takes its new value, every other field keeps its prior
/// stored value.
pub fn apply_patch(profile: &Profile, v: &ValidPatch) -> (r: Profile)
    ensures
        r.id == profile.id,
        r.pid matches Some(p) ==> (profile.pid matches Some(q) && p@ == q@),
        r.pid is None <==> profile.pid is None,
        r.user_id == profile.user_id,
        r.profile_video_id == profile.profile_video_id,
        r.created_at == profile.created_at,
        r.updated_at == profile.updated_at,
        r.location == (if v.location is Some {
            v.location
        } else {
            profile.location
        }),
        r.first_name == (if v.first_name is Some {
            v.first_name
        } else {
            profile.first_name
        }),
        r.last_name == (if v.last_name is Some {
            v.last_name
        } else {
            profile.last_name
        }),
        r.is_visible == (if v.is_visible is Some {
            v.is_visible
        } else {
            profile.is_visible
        }),
        r.birth_date == (if v.birth_date is Some {
            v.birth_date
        } else {
            profile.birth_date
        }),
{
    let mut r = profile.clone();
    match &v.location {
        Some(l) => {
            r.location = Some(l.clone());
        },
        None => {},
    }
    match &v.first_name {
        Some(f) => {
            r.first_name = Some(f.clone());
        },
        None => {},
    }
    match &v.last_name {
        Some(l) => {
            r.last_name = Some(l.clone());
        },
        None => {},
    }
    match v.is_visible {
        Some(b) => {
            r.is_visible = Some(b);
        },
        None => {},
    }
    match v.birth_date {
        Some(b) => {
            r.birth_date = Some(b);
        },
        None => {},
    }
    r
}

} // verus!
