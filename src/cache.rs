//! The cache-aside decisions: what a read of the store means, whether the
//! value has to be computed, and what is written back.
use vstd::prelude::*;
use crate::command::{
    StoreContents, apply_write, read_entry, write_command, write_for, WriteCommand,
};

verus! {

/// What a read of the store found.
#[derive(Clone, Debug, PartialEq, Eq)]
pub enum Lookup {
    /// The key holds this value.
    Hit(String),
    /// The key holds nothing.
    Miss,
    /// The store could not be asked: no connection, or the read failed.
    Unavailable,
}

impl Lookup {
    /// Classifies the outcome of a read: a value, none, or an error.
    pub fn from_read<E>(r: Result<Option<String>, E>) -> (l: Lookup)
        ensures
            match r {
                Ok(Some(v)) => l == Lookup::Hit(v),
                Ok(None) => l == Lookup::Miss,
                Err(_) => l == Lookup::Unavailable,
            },
    {
        match r {
            Ok(Some(v)) => Lookup::Hit(v),
            Ok(None) => Lookup::Miss,
            Err(_) => Lookup::Unavailable,
        }
    }

    /// The cached value, if any: a miss and an unavailable store both give
    /// `None`, so that the caller falls back to computing the value.
    pub fn cached(self) -> (r: Option<String>)
        ensures
            match self {
                Lookup::Hit(v) => r == Some(v),
                _ => r is None,
            },
    {
        match self {
            Lookup::Hit(v) => Some(v),
            _ => None,
        }
    }
}

/// Where the value handed to the caller came from.
#[derive(Clone, Debug, PartialEq, Eq)]
pub enum Served {
    /// Read from the store; nothing was computed.
    Hit(String),
    /// Computed on a miss; it is to be written back.
    Computed(String),
}

impl Served {
    pub open spec fn spec_value(&self) -> String {
        match self {
            Served::Hit(v) => *v,
            Served::Computed(v) => *v,
        }
    }

    /// The value handed to the caller.
    pub fn into_value(self) -> (r: String)
        ensures
            r == self.spec_value(),
    {
        match self {
            Served::Hit(v) => v,
            Served::Computed(v) => v,
        }
    }

    /// The write that follows: none on a hit; on a miss, the computed value
    /// under `key` for `ttl_seconds` seconds.
    pub fn write_back(&self, key: &str, ttl_seconds: usize) -> (r: Option<WriteCommand>)
        ensures
            match self {
                Served::Hit(_) => r is None,
                Served::Computed(v) => r is Some && r->Some_0@ == write_for(
                    key@,
                    v@,
                    ttl_seconds as nat,
                ),
            },
    {
        match self {
            Served::Hit(_) => None,
            Served::Computed(v) => Some(write_command(key, v.as_str(), ttl_seconds)),
        }
    }
}

/// Serves a request from what the store held: a cached value is returned as
/// it is and `compute` is not called; otherwise `compute` is called once and
/// its result is returned.
pub fn resolve<F: Fn() -> String>(cached: Option<String>, compute: F) -> (r: Served)
    requires
        cached is None ==> compute.requires(()),
    ensures
        match cached {
            Some(v) => r == Served::Hit(v),
            None => r is Computed && compute.ensures((), r->Computed_0),
        },
{
    match cached {
        Some(v) => Served::Hit(v),
        None => Served::Computed(compute()),
    }
}

/// One cache-aside request on a store holding `m`, where `computed` is what
/// the computation would give: the value returned and the entries after.
pub open spec fn cache_step(m: StoreContents, key: Seq<char>, ttl: nat, computed: Seq<char>) -> (
    Seq<char>,
    StoreContents,
) {
    match read_entry(m, key) {
        Some(v) => (v, m),
        None => (computed, apply_write(m, write_for(key, computed, ttl))),
    }
}

/// What a request hands back and sends, as `resolve` and `write_back` state
/// them, is one `cache_step` on a store holding `m`, whose read of `key`
/// gave `cached`.
pub proof fn lemma_request_is_cache_step(
    m: StoreContents,
    key: Seq<char>,
    ttl: nat,
    cached: Option<String>,
    served: Served,
    sent: Option<WriteCommand>,
)
    requires
        read_entry(m, key) == (match cached {
            Some(v) => Some(v@),
            None => None::<Seq<char>>,
        }),
        match cached {
            Some(v) => served == Served::Hit(v),
            None => served is Computed,
        },
        match served {
            Served::Hit(_) => sent is None,
            Served::Computed(v) => sent is Some && sent->Some_0@ == write_for(key, v@, ttl),
        },
    ensures
        cache_step(m, key, ttl, served.spec_value()@) == (served.spec_value()@, match sent {
            Some(c) => apply_write(m, c@),
            None => m,
        }),
{
}

/// Two requests in a row for one key with a positive time-to-live return the
/// same value; the second is served from the store, whatever its computation
/// would give, and writes nothing.
pub proof fn lemma_repeat_request_hits(
    m: StoreContents,
    key: Seq<char>,
    ttl: nat,
    first: Seq<char>,
    second: Seq<char>,
)
    requires
        ttl > 0,
    ensures
        read_entry(cache_step(m, key, ttl, first).1, key) == Some(cache_step(m, key, ttl, first).0),
        cache_step(cache_step(m, key, ttl, first).1, key, ttl, second) == cache_step(
            m,
            key,
            ttl,
            first,
        ),
{
}

/// On a key that holds nothing, the first request returns what its
/// computation gives, and the next one returns that same value from the store.
pub proof fn lemma_cold_key_computes_once(
    m: StoreContents,
    key: Seq<char>,
    ttl: nat,
    first: Seq<char>,
    second: Seq<char>,
)
    requires
        ttl > 0,
        read_entry(m, key) is None,
    ensures
        cache_step(m, key, ttl, first).0 == first,
        read_entry(cache_step(m, key, ttl, first).1, key) == Some(first),
        cache_step(cache_step(m, key, ttl, first).1, key, ttl, second).0 == first,
{
}

} // verus!
