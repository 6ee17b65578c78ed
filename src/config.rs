//! Validation of the store handle's settings: the connection URL and the
//! maximum size of the connection pool.
use vstd::prelude::*;

verus! {

/// Pool size used when none is configured.
pub const DEFAULT_MAX_POOL_SIZE: u32 = 50;

pub open spec fn is_digit(c: char) -> bool {
    '0' <= c && c <= '9'
}

pub open spec fn digit_value(c: char) -> nat {
    (c as u32 - '0' as u32) as nat
}

/// The number written by a sequence of decimal digits.
pub open spec fn decimal_value(d: Seq<char>) -> nat
    decreases d.len(),
{
    if d.len() == 0 {
        0
    } else {
        decimal_value(d.drop_last()) * 10 + digit_value(d.last())
    }
}

pub open spec fn is_decimal(d: Seq<char>) -> bool {
    d.len() > 0 && forall|i: int| 0 <= i < d.len() ==> #[trigger] is_digit(d[i])
}

/// The text without one leading `+`, if it has one.
pub open spec fn unsigned_part(s: Seq<char>) -> Seq<char> {
    if s.len() > 0 && s[0] == '+' {
        s.drop_first()
    } else {
        s
    }
}

/// The value of `s` read as a non-negative 32-bit integer: an optional `+`
/// and then at least one decimal digit, with a value that fits.
pub open spec fn parsed_u32(s: Seq<char>) -> Option<u32> {
    let d = unsigned_part(s);
    if is_decimal(d) && decimal_value(d) <= u32::MAX {
        Some(decimal_value(d) as u32)
    } else {
        None
    }
}

proof fn lemma_prefix_value_le(d: Seq<char>, k: int)
    requires
        0 <= k <= d.len(),
        forall|i: int| 0 <= i < d.len() ==> #[trigger] is_digit(d[i]),
    ensures
        decimal_value(d.subrange(0, k)) <= decimal_value(d),
    decreases d.len(),
{
    if k == d.len() {
        assert(d.subrange(0, k) =~= d);
    } else {
        let p = d.drop_last();
        assert forall|i: int| 0 <= i < p.len() implies #[trigger] is_digit(p[i]) by {
            assert(is_digit(d[i]));
        }
        lemma_prefix_value_le(p, k);
        assert(p.subrange(0, k) =~= d.subrange(0, k));
    }
}

/// Reads a pool size: an optional `+` and decimal digits whose value fits in
/// a `u32`; anything else (empty, a sign `-`, spaces, overflow) is refused.
pub fn parse_pool_size(s: &str) -> (r: Option<u32>)
    ensures
        r == parsed_u32(s@),
{
    let n = s.unicode_len();
    let mut start: usize = 0;
    if n > 0 && s.get_char(0) == '+' {
        start = 1;
    }
    let ghost d = unsigned_part(s@);
    assert(d =~= s@.subrange(start as int, n as int));
    if start >= n {
        return None;
    }
    let mut acc: u64 = 0;
    let mut i: usize = start;
    while i < n
        invariant
            start <= i <= n,
            n == s@.len(),
            d == unsigned_part(s@),
            d == s@.subrange(start as int, n as int),
            forall|j: int| 0 <= j < i - start ==> #[trigger] is_digit(d[j]),
            acc == decimal_value(d.subrange(0, i - start)),
            acc <= u32::MAX,
        decreases n - i,
    {
        let c = s.get_char(i);
        assert(d[i - start] == c);
        if !('0' <= c && c <= '9') {
            assert(!is_digit(d[i - start]));
            return None;
        }
        let next: u64 = acc * 10 + (c as u64 - '0' as u64);
        proof {
            let p = d.subrange(0, i - start + 1);
            assert(p.drop_last() =~= d.subrange(0, i - start));
            assert(decimal_value(p) == next);
        }
        if next > u32::MAX as u64 {
            proof {
                if is_decimal(d) {
                    lemma_prefix_value_le(d, i - start + 1);
                }
            }
            return None;
        }
        acc = next;
        i = i + 1;
    }
    assert(d.subrange(0, i - start) =~= d);
    Some(acc as u32)
}

/// Why the store's settings were refused.
#[derive(Clone, Copy, Debug, PartialEq, Eq, Structural)]
pub enum ConfigError {
    /// No connection URL was given.
    MissingUrl,
    /// A pool size was given that is not a non-negative 32-bit integer.
    InvalidPoolSize,
}

/// The settings a store handle is built from.
#[derive(Clone, Debug)]
pub struct PoolConfig {
    pub url: String,
    pub max_size: u32,
}

/// Checks the two settings: the URL must be present; the pool size, when
/// present, must be a non-negative integer, and is otherwise the default.
/// The URL is checked first.
pub fn pool_config(url: Option<String>, max_pool_size: Option<String>) -> (r: Result<
    PoolConfig,
    ConfigError,
>)
    ensures
        url is None ==> r == Err::<PoolConfig, ConfigError>(ConfigError::MissingUrl),
        url is Some ==> match max_pool_size {
            None => r is Ok && r->Ok_0.url@ == url->Some_0@ && r->Ok_0.max_size
                == DEFAULT_MAX_POOL_SIZE,
            Some(s) => match parsed_u32(s@) {
                None => r == Err::<PoolConfig, ConfigError>(ConfigError::InvalidPoolSize),
                Some(n) => r is Ok && r->Ok_0.url@ == url->Some_0@ && r->Ok_0.max_size == n,
            },
        },
{
    let url = match url {
        None => return Err(ConfigError::MissingUrl),
        Some(u) => u,
    };
    let max_size = match max_pool_size {
        None => DEFAULT_MAX_POOL_SIZE,
        Some(s) => match parse_pool_size(s.as_str()) {
            None => return Err(ConfigError::InvalidPoolSize),
            Some(n) => n,
        },
    };
    Ok(PoolConfig { url, max_size })
}

} // verus!
