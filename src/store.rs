//! The settings a connection pool to the store is built from: a client for a
//! URL it accepts, and a positive bound on the pool's size.
use vstd::prelude::*;
use redis::{Client, RedisError};
use crate::config::PoolConfig;

verus! {

#[verifier::external_type_specification]
#[verifier::external_body]
pub struct ExClient(Client);

#[verifier::external_type_specification]
#[verifier::external_body]
pub struct ExRedisError(RedisError);

/// Whether the store client accepts `url` as a connection URL.
pub uninterp spec fn accepts_url(url: Seq<char>) -> bool;

/// Relies on redis::Client::open: it parses the URL and opens no connection,
/// so whether it succeeds depends on the URL alone.
#[verifier::external_body]
fn open_client(url: &str) -> (r: Result<Client, RedisError>)
    ensures
        r is Ok == accepts_url(url@),
{
    Client::open(url)
}

/// Why the store could not be used.
#[derive(Clone, Copy, Debug, PartialEq, Eq, Structural)]
pub enum StoreError {
    /// The connection URL was refused.
    InvalidUrl,
    /// The pool would hold no connection.
    EmptyPool,
    /// The store could not be reached, or no pooled connection could be had.
    Unreachable,
}

/// What the pool is built from: the client, and the most connections it may
/// hold.
pub struct StoreSettings {
    pub client: Client,
    pub max_size: u32,
}

/// Checks the settings before any connection is made. The URL is checked
/// first, then the pool size, which must be positive; the pool's bound is
/// then exactly the configured size.
pub fn store_settings(config: &PoolConfig) -> (r: Result<StoreSettings, StoreError>)
    ensures
        !accepts_url(config.url@) ==> r matches Err(StoreError::InvalidUrl),
        accepts_url(config.url@) && config.max_size == 0 ==> r matches Err(StoreError::EmptyPool),
        accepts_url(config.url@) && config.max_size > 0 ==> r is Ok && r->Ok_0.max_size
            == config.max_size,
{
    let client = match open_client(config.url.as_str()) {
        Ok(c) => c,
        Err(_) => return Err(StoreError::InvalidUrl),
    };
    if config.max_size == 0 {
        return Err(StoreError::EmptyPool);
    }
    Ok(StoreSettings { client, max_size: config.max_size })
}

} // verus!
