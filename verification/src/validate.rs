//! Input validation. It precedes all store access: a request that fails any
//! bound never touches the store.

use vstd::prelude::*;
use crate::errors::AppError;
use crate::text::{byte_len, normalize_email, normalized_email, trim, trim_spaces, trim_spaces_of, trimmed_of};
use crate::views::{LoginParams, RegisterParams};

verus! {

/// Largest accepted field width, in bytes.
pub const MAX_FIELD_BYTES: usize = 255;

/// Seconds in the 365-day years a registrant must at least have lived.
pub const YOUNGEST_OFFSET_SECONDS: i64 = 409968000;

/// Seconds in the 365-day years beyond which a birth date is refused.
pub const OLDEST_OFFSET_SECONDS: i64 = 3815856000;

/// A field is within bounds when it holds 1 to 255 bytes.
pub open spec fn ok_len_255(s: Seq<char>) -> bool {
    1 <= byte_len(s) <= 255
}

/// A birth date is accepted when it lies between roughly 121 and 13
/// 365-day years before `now`.
pub open spec fn birth_date_in_window(birth_date: i64, now: i64) -> bool {
    now - OLDEST_OFFSET_SECONDS <= birth_date <= now - YOUNGEST_OFFSET_SECONDS
}

/// Whether a registration request passes every bound, after normalization:
/// email trimmed and lower-cased, password trimmed, names stripped of
/// surrounding spaces, each 1 to 255 bytes, and the birth date within the
/// age window at `now`.
pub open spec fn registration_acceptable(p: &RegisterParams, now: i64) -> bool {
    &&& ok_len_255(normalized_email(p.email@))
    &&& ok_len_255(trimmed_of(p.password@))
    &&& ok_len_255(trim_spaces_of(p.first_name@))
    &&& ok_len_255(trim_spaces_of(p.last_name@))
    &&& birth_date_in_window(p.birth_date, now)
}

/// A registration request that passed validation: every field normalized and
/// within bounds.
pub struct ValidRegistration {
    pub email: String,
    pub password: String,
    pub first_name: String,
    pub last_name: String,
    pub birth_date: i64,
}

/// Checks and normalizes a registration request against the clock value
/// `now`; accepted if and only if every bound of `registration_acceptable`
/// holds, and refused as `WrongCredential` otherwise.
pub fn validate_registration(params: &RegisterParams, now: i64) -> (r: Result<
    ValidRegistration,
    AppError,
>)
    requires
        i64::MIN + OLDEST_OFFSET_SECONDS <= now,
    ensures
        match r {
            Ok(v) => {
                &&& registration_acceptable(params, now)
                &&& v.email@ == normalized_email(params.email@)
                &&& v.password@ == trimmed_of(params.password@)
                &&& v.first_name@ == trim_spaces_of(params.first_name@)
                &&& v.last_name@ == trim_spaces_of(params.last_name@)
                &&& v.birth_date == params.birth_date
            },
            Err(e) => !registration_acceptable(params, now) && e == AppError::WrongCredential,
        },
{
    let email = normalize_email(params.email.as_str());
    let password = trim(params.password.as_str());
    let first_name = trim_spaces(params.first_name.as_str());
    let last_name = trim_spaces(params.last_name.as_str());

    let email_len = email.as_str().len();
    if email_len < 1 || email_len > MAX_FIELD_BYTES {
        return Err(AppError::WrongCredential);
    }
    let password_len = password.as_str().len();
    if password_len < 1 || password_len > MAX_FIELD_BYTES {
        return Err(AppError::WrongCredential);
    }
    let first_name_len = first_name.as_str().len();
    if first_name_len < 1 || first_name_len > MAX_FIELD_BYTES {
        return Err(AppError::WrongCredential);
    }
    let last_name_len = last_name.as_str().len();
    if last_name_len < 1 || last_name_len > MAX_FIELD_BYTES {
        return Err(AppError::WrongCredential);
    }

    let youngest_birth_date: i64 = now - YOUNGEST_OFFSET_SECONDS;
    let oldest_birth_date: i64 = now - OLDEST_OFFSET_SECONDS;
    if youngest_birth_date < params.birth_date || oldest_birth_date > params.birth_date {
        return Err(AppError::WrongCredential);
    }

    Ok(
        ValidRegistration {
            email,
            password,
            first_name,
            last_name,
            birth_date: params.birth_date,
        },
    )
}

/// Whether a login request carries both credentials, after normalization.
pub open spec fn login_acceptable(p: &LoginParams) -> bool {
    normalized_email(p.email@).len() != 0 && trimmed_of(p.password@).len() != 0
}

/// Normalizes a login request; refused as `MissingCredential` if and only if
/// either normalized credential is empty. Returns the normalized email and
/// password.
pub fn validate_login(params: &LoginParams) -> (r: Result<(String, String), AppError>)
    ensures
        match r {
            Ok((email, password)) => {
                &&& login_acceptable(params)
                &&& email@ == normalized_email(params.email@)
                &&& password@ == trimmed_of(params.password@)
            },
            Err(e) => !login_acceptable(params) && e == AppError::MissingCredential,
        },
{
    let email = normalize_email(params.email.as_str());
    let password = trim(params.password.as_str());
    if email.as_str().is_empty() || password.as_str().is_empty() {
        return Err(AppError::MissingCredential);
    }
    Ok((email, password))
}

} // verus!
