//! Runtime configuration of the core: secret material and token lifetime.
//! Loading these values from the environment is the surrounding glue's job.

use vstd::prelude::*;

verus! {

/// Configuration as the process is started with it. `jwt_secret` is the
/// symmetric signing key; `jwt_expiry_minute` the token lifetime in minutes.
pub struct Config {
    pub sqids_alphabet: String,
    pub turso_db_url: String,
    pub turso_auth_token: String,
    pub jwt_secret: String,
    pub jwt_expiry_minute: u64,
    pub jwt_maxage: u64,
}

impl Clone for Config {
    fn clone(&self) -> (r: Self)
        ensures
            r.sqids_alphabet@ == self.sqids_alphabet@,
            r.turso_db_url@ == self.turso_db_url@,
            r.turso_auth_token@ == self.turso_auth_token@,
            r.jwt_secret@ == self.jwt_secret@,
            r.jwt_expiry_minute == self.jwt_expiry_minute,
            r.jwt_maxage == self.jwt_maxage,
    {
        Config {
            sqids_alphabet: self.sqids_alphabet.clone(),
            turso_db_url: self.turso_db_url.clone(),
            turso_auth_token: self.turso_auth_token.clone(),
            jwt_secret: self.jwt_secret.clone(),
            jwt_expiry_minute: self.jwt_expiry_minute,
            jwt_maxage: self.jwt_maxage,
        }
    }
}

} // verus!
