//! Request parameters and response shapes exchanged with the callers of the
//! core, and the construction of responses from store rows.

use vstd::prelude::*;
use crate::pid::Pid;
use crate::profile::Profile;

verus! {

/// Registration input as the caller supplies it, before normalization.
pub struct RegisterParams {
    pub email: String,
    pub password: String,
    pub first_name: String,
    pub last_name: String,
    pub birth_date: i64,
}

/// What a successful registration returns.
pub struct RegisterResponse {
    pub first_name: Option<String>,
    pub last_name: Option<String>,
    pub birth_date: Option<i64>,
    pub location: Option<String>,
    pub is_visible: Option<bool>,
    pub email: Option<String>,
    pub auth_token: Option<String>,
}

/// Login input as the caller supplies it, before normalization.
pub struct LoginParams {
    pub email: String,
    pub password: String,
}

/// What a successful login returns.
pub struct LoginResponse {
    pub email: Option<String>,
    pub auth_token: Option<String>,
}

/// Fields of a profile row to be created.
pub struct ProfileParams {
    pub user_id: i64,
    pub birth_date: i64,
    pub first_name: String,
    pub last_name: String,
    pub location: String,
    pub is_visible: bool,
}

/// Profile fields as shown to the caller.
pub struct ProfileResponse {
    pub pid: Option<Pid>,
    pub first_name: Option<String>,
    pub last_name: Option<String>,
    pub location: Option<String>,
    pub birth_date: Option<i64>,
    pub is_visible: Option<bool>,
}

/// How a response relates to the profile row it was built from: same fields,
/// with the identifier carried over exactly when the row holds 16 bytes.
pub open spec fn response_matches_profile(r: &ProfileResponse, p: &Profile) -> bool {
    &&& match r.pid {
        Some(q) => p.pid matches Some(b) && b@.len() == 16 && q@ == b@,
        None => p.pid matches Some(b) ==> b@.len() != 16,
    }
    &&& r.first_name == p.first_name
    &&& r.last_name == p.last_name
    &&& r.location == p.location
    &&& r.birth_date == p.birth_date
    &&& r.is_visible == p.is_visible
}

/// Builds the caller-facing view of a profile row.
pub fn profile_response_of(p: &Profile) -> (r: ProfileResponse)
    ensures
        response_matches_profile(&r, p),
{
    let pid: Option<Pid> = match &p.pid {
        Some(v) => Pid::from_bytes(v.clone()),
        None => None,
    };
    ProfileResponse {
        pid,
        first_name: p.first_name.clone(),
        last_name: p.last_name.clone(),
        location: p.location.clone(),
        birth_date: p.birth_date,
        is_visible: p.is_visible,
    }
}

/// The internal id of a row, with a missing id counting as 0, as the store
/// never assigns that id.
pub open spec fn row_id_or_zero(p: &Profile) -> i64 {
    match p.id {
        Some(v) => v,
        None => 0,
    }
}

/// The rows shown to an asking profile, in order: exactly those whose
/// internal id differs from the excluded one.
pub open spec fn visible_rows(rows: Seq<Profile>, exclude_profile_id: i64) -> Seq<Profile>
    decreases rows.len(),
{
    if rows.len() == 0 {
        Seq::empty()
    } else {
        let rest = visible_rows(rows.drop_last(), exclude_profile_id);
        if row_id_or_zero(&rows.last()) != exclude_profile_id {
            rest.push(rows.last())
        } else {
            rest
        }
    }
}

/// Caller-facing views of a batch of profile rows: in order, the projection
/// of exactly those rows that do not belong to the asking profile.
pub fn profiles_as_views(rows: &Vec<Profile>, exclude_profile_id: i64) -> (r: Vec<ProfileResponse>)
    ensures
        r@.len() == visible_rows(rows@, exclude_profile_id).len(),
        forall|j: int|
            0 <= j < r@.len() ==> #[trigger] response_matches_profile(
                &r@[j],
                &visible_rows(rows@, exclude_profile_id)[j],
            ),
{
    let mut out: Vec<ProfileResponse> = Vec::new();
    let n = rows.len();
    let mut i: usize = 0;
    while i < n
        invariant
            n == rows@.len(),
            i <= n,
            out@.len() == visible_rows(rows@.take(i as int), exclude_profile_id).len(),
            forall|j: int|
                0 <= j < out@.len() ==> #[trigger] response_matches_profile(
                    &out@[j],
                    &visible_rows(rows@.take(i as int), exclude_profile_id)[j],
                ),
        decreases n - i,
    {
        let ghost pre = visible_rows(rows@.take(i as int), exclude_profile_id);
        proof {
            assert(rows@.take(i as int + 1).drop_last() =~= rows@.take(i as int));
            assert(rows@.take(i as int + 1).last() == rows@[i as int]);
        }
        let row = &rows[i];
        let id: i64 = match row.id {
            Some(v) => v,
            None => 0,
        };
        if id != exclude_profile_id {
            let ghost pre_out = out@;
            let resp = profile_response_of(row);
            out.push(resp);
            proof {
                let post = visible_rows(rows@.take(i as int + 1), exclude_profile_id);
                assert(post == pre.push(rows@[i as int]));
                assert forall|j: int| 0 <= j < out@.len() implies #[trigger] response_matches_profile(
                    &out@[j],
                    &post[j],
                ) by {
                    if j < out@.len() - 1 {
                        assert(out@[j] == pre_out[j]);
                        assert(post[j] == pre[j]);
                        assert(response_matches_profile(&pre_out[j], &pre[j]));
                    } else {
                        assert(out@[j] == resp);
                        assert(post[j] == rows@[i as int]);
                    }
                }
            }
        } else {
            proof {
                assert(visible_rows(rows@.take(i as int + 1), exclude_profile_id) == pre);
            }
        }
        i += 1;
    }
    proof {
        assert(rows@.take(n as int) =~= rows@);
    }
    out
}

} // verus!
