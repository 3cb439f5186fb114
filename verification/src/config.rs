//! The settings that the server starts with. Reading the environment is the
//! caller's part; which value stands in for one that is not set is decided
//! here.

use vstd::prelude::*;
use crate::text::owned;

verus! {

/// The secret that credentials are checked against where none is set.
pub open spec fn default_jwt_secret() -> Seq<char> {
    "my_secret_key"@
}

/// The address of the user database where none is set.
pub open spec fn default_db_url() -> Seq<char> {
    "127.0.0.1:9042"@
}

/// The address of the position store where none is set.
pub open spec fn default_redis_url() -> Seq<char> {
    "redis://127.0.0.1/"@
}

/// `setting` where it is set, else `fallback`.
pub open spec fn setting_or(setting: Option<String>, fallback: Seq<char>) -> Seq<char> {
    match setting {
        Some(value) => value@,
        None => fallback,
    }
}

/// The settings of one server process.
#[derive(Clone)]
pub struct Config {
    pub jwt_secret: String,
    pub db_url: String,
    pub redis_url: String,
}

impl Config {
    /// The settings made of the three values as the environment gave them,
    /// each replaced by its default where it is not set.
    pub fn new(jwt_secret: Option<String>, db_url: Option<String>, redis_url: Option<String>) -> (r:
        Config)
        ensures
            r.jwt_secret@ == setting_or(jwt_secret, default_jwt_secret()),
            r.db_url@ == setting_or(db_url, default_db_url()),
            r.redis_url@ == setting_or(redis_url, default_redis_url()),
    {
        Config {
            jwt_secret: match jwt_secret {
                Some(value) => value,
                None => owned("my_secret_key"),
            },
            db_url: match db_url {
                Some(value) => value,
                None => owned("127.0.0.1:9042"),
            },
            redis_url: match redis_url {
                Some(value) => value,
                None => owned("redis://127.0.0.1/"),
            },
        }
    }
}

} // verus!
