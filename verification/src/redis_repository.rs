//! The repository that is backed by a Redis server: where it keeps the
//! position of a player, on which channel it publishes, and the client that
//! its connections are made from. Talking to the server is the caller's
//! part; what is decided without the server is decided here.

use vstd::prelude::*;
use vstd::string::StringExecFns;
use crate::config::Config;
use crate::errors::{AppError, AppErrorView};
use crate::grid::START_COORDINATE;
use crate::text::owned;

verus! {

/// A client of a Redis server: an address that was checked, no connection.
#[verifier::external_type_specification]
#[verifier::external_body]
pub struct ExRedisClient(redis::Client);

/// Whether `url` is an address that `redis::Client::open` accepts.
pub uninterp spec fn redis_url_accepted(url: Seq<char>) -> bool;

/// Calls `redis::Client::open` with `url`, which checks the address and
/// connects to nothing. The contract claims that whether the call succeeds
/// depends on `url` alone; of the text of the error it claims nothing.
#[verifier::external_body]
fn open_client(url: &str) -> (r: Result<redis::Client, String>)
    ensures
        r is Ok <==> redis_url_accepted(url@),
{
    match redis::Client::open(url) {
        Ok(client) => Ok(client),
        Err(e) => Err(e.to_string()),
    }
}

/// The error of a client that could not be made, with the reason `detail`.
pub open spec fn client_error(detail: Seq<char>) -> AppErrorView {
    AppErrorView::DbError("Failed to create Redis client: "@ + detail)
}

/// The key under which the position of `username` is kept.
pub open spec fn position_key_spec(username: Seq<char>) -> Seq<char> {
    "player:"@ + username
}

/// The key under which the position of `username` is kept.
pub fn position_key(username: &str) -> (r: String)
    ensures
        r@ == position_key_spec(username@),
{
    owned("player:").concat(username)
}

/// The channel on which every position update is published.
pub fn game_channel() -> (r: &'static str)
    ensures
        r@ == "game_channel"@,
{
    "game_channel"
}

/// The position of a player as the server holds it: the stored one where
/// the key of the player exists, else the start of the grid.
pub fn stored_or_start(stored: Option<(i32, i32)>) -> (r: (i32, i32))
    ensures
        r == match stored {
            Some(position) => position,
            None => (START_COORDINATE, START_COORDINATE),
        },
{
    match stored {
        Some(position) => position,
        None => (START_COORDINATE, START_COORDINATE),
    }
}

/// The client for the address `url`, or the reason why there is none as a
/// database error.
pub fn client_for(url: &str) -> (r: Result<redis::Client, AppError>)
    ensures
        r is Ok <==> redis_url_accepted(url@),
        r matches Err(e) ==> exists|detail: Seq<char>| e@ == client_error(detail),
{
    match open_client(url) {
        Ok(client) => Ok(client),
        Err(detail) => {
            let e = AppError::DbError(owned("Failed to create Redis client: ").concat(detail.as_str()));
            assert(e@ == client_error(detail@));
            Err(e)
        },
    }
}

/// The client for a server on this machine, at `redis://127.0.0.1/`.
pub fn get_redis_client() -> (r: Result<redis::Client, AppError>)
    ensures
        r is Ok <==> redis_url_accepted("redis://127.0.0.1/"@),
        r matches Err(e) ==> exists|detail: Seq<char>| e@ == client_error(detail),
{
    client_for("redis://127.0.0.1/")
}

/// The repository that is backed by a Redis server.
pub struct RedisGameRepository {
    client: redis::Client,
}

impl RedisGameRepository {
    /// The repository for the server that `config` names. It fails where the
    /// address is not one of a Redis server; no connection is made.
    pub fn new(config: &Config) -> (r: Result<RedisGameRepository, AppError>)
        ensures
            r is Ok <==> redis_url_accepted(config.redis_url@),
            r matches Err(e) ==> exists|detail: Seq<char>| e@ == client_error(detail),
    {
        match client_for(config.redis_url.as_str()) {
            Ok(client) => Ok(RedisGameRepository { client }),
            Err(e) => Err(e),
        }
    }

    /// The client of the repository.
    pub closed spec fn client_spec(&self) -> redis::Client {
        self.client
    }

    /// The client that connections to the server are made from.
    pub fn client(&self) -> (r: &redis::Client)
        ensures
            *r == self.client_spec(),
    {
        &self.client
    }
}

} // verus!
