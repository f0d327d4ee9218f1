//! The cache layer's decision logic: parsing the configured endpoint,
//! classifying what the key/value store handed back (a hit, the explicit
//! miss signal, or an unreachable store), and the expiry policy.
//!
//! The connection itself and the wire protocol belong to the surrounding
//! program; the library only sees plain values.

use vstd::prelude::*;
use crate::error::{Error, ErrorType};
use crate::text::{all_digits, digits_value, parse_u16};

verus! {

/// Cache expiry, in seconds, used when the caller does not pick one.
pub const DEFAULT_CACHE_TTL_SECS: u64 = 3600;

/// The characters of `s` before the first occurrence of `c` (all of `s` if
/// `c` does not occur).
pub open spec fn before_char(s: Seq<char>, c: char) -> Seq<char>
    decreases s.len(),
{
    if s.len() == 0 {
        s
    } else if s[0] == c {
        Seq::empty()
    } else {
        seq![s[0]] + before_char(s.drop_first(), c)
    }
}

/// The characters of `s` after the first occurrence of `c` (empty if `c`
/// does not occur).
pub open spec fn after_char(s: Seq<char>, c: char) -> Seq<char>
    decreases s.len(),
{
    if s.len() == 0 {
        Seq::empty()
    } else if s[0] == c {
        s.drop_first()
    } else {
        after_char(s.drop_first(), c)
    }
}

/// If the first occurrence of `c` in `s` is at `i` (or `c` does not occur
/// and `i` is the length), the split around `c` is the pair of subranges.
proof fn lemma_split_at_first(s: Seq<char>, c: char, i: int)
    requires
        0 <= i <= s.len(),
        forall|j: int| 0 <= j < i ==> s[j] != c,
        i < s.len() ==> s[i] == c,
    ensures
        before_char(s, c) == s.subrange(0, i),
        i < s.len() ==> after_char(s, c) == s.subrange(i + 1, s.len() as int),
        i == s.len() ==> after_char(s, c) == Seq::<char>::empty(),
    decreases i,
{
    if s.len() == 0 {
        assert(before_char(s, c) =~= s.subrange(0, i));
    } else if i == 0 {
        if s[0] == c {
            assert(before_char(s, c) =~= s.subrange(0, 0));
            assert(s.drop_first() =~= s.subrange(1, s.len() as int));
        } else {
            assert(before_char(s, c) =~= s.subrange(0, 0));
        }
    } else {
        let t = s.drop_first();
        assert(forall|j: int| 0 <= j < i - 1 ==> t[j] != c);
        lemma_split_at_first(t, c, i - 1);
        assert(seq![s[0]] + t.subrange(0, i - 1) =~= s.subrange(0, i));
        if i < s.len() {
            assert(t.subrange(i, t.len() as int) =~= s.subrange(i + 1, s.len() as int));
        }
    }
}

/// The host and port a cache endpoint string designates.
#[derive(Debug)]
pub struct CacheEndpoint {
    pub host: String,
    pub port: u16,
}

/// Whether an endpoint string `host:port[:rest]` is well formed: it has a
/// colon, and the segment between the first and second colons is a decimal
/// port number.
pub open spec fn valid_cache_endpoint(uri: Seq<char>) -> bool {
    let port_str = before_char(after_char(uri, ':'), ':');
    &&& uri.contains(':')
    &&& port_str.len() > 0
    &&& all_digits(port_str)
    &&& digits_value(port_str) <= u16::MAX
}

/// Parses a configured cache endpoint of the shape `host:port`. The host is
/// everything before the first colon and the port is the decimal number
/// between the first and second colons (or the end). An endpoint without a
/// colon is rejected as invalid configuration; a malformed port is a cache
/// subsystem error, as it is in the cache client.
pub fn parse_cache_endpoint(uri: &str) -> (r: Result<CacheEndpoint, Error>)
    ensures
        r is Ok <==> valid_cache_endpoint(uri@),
        r matches Ok(e) ==> {
            &&& e.host@ == before_char(uri@, ':')
            &&& e.port as nat == digits_value(before_char(after_char(uri@, ':'), ':'))
        },
        r matches Err(e) ==> !uri@.contains(':') && e.error_type == ErrorType::InvalidConfig || uri@.contains(
            ':',
        ) && e.error_type == ErrorType::CacheError,
{
    let n = uri.unicode_len();
    let mut i: usize = 0;
    while i < n && uri.get_char(i) != ':'
        invariant
            0 <= i <= n == uri@.len(),
            forall|j: int| 0 <= j < i ==> uri@[j] != ':',
        decreases n - i,
    {
        i = i + 1;
    }
    proof {
        lemma_split_at_first(uri@, ':', i as int);
    }
    if i == n {
        assert(!uri@.contains(':')) by {
            assert(forall|j: int| 0 <= j < uri@.len() ==> uri@[j] != ':');
        }
        return Err(
            Error::new(
                ErrorType::InvalidConfig,
                String::from_str("cache endpoint has no port separator"),
            ),
        );
    }
    assert(uri@.contains(':')) by {
        assert(uri@[i as int] == ':');
    }
    let host = String::from_str(uri.substring_char(0, i));
    proof {
        assert(host@ =~= uri@.subrange(0, i as int));
    }
    let rest_start = i + 1;
    let mut k: usize = rest_start;
    while k < n && uri.get_char(k) != ':'
        invariant
            rest_start <= k <= n == uri@.len(),
            forall|j: int| rest_start <= j < k ==> uri@[j] != ':',
        decreases n - k,
    {
        k = k + 1;
    }
    let ghost rest = uri@.subrange(rest_start as int, n as int);
    proof {
        assert(forall|j: int| 0 <= j < k - rest_start ==> rest[j] != ':');
        assert(k < n ==> rest[k - rest_start as int] == ':');
        lemma_split_at_first(rest, ':', k - rest_start as int);
    }
    let port_str = uri.substring_char(rest_start, k);
    proof {
        assert(port_str@ =~= rest.subrange(0, k - rest_start as int));
        assert(rest.subrange(0, k - rest_start as int) =~= before_char(rest, ':'));
    }
    match parse_u16(port_str) {
        Some(port) => Ok(CacheEndpoint { host, port }),
        None => Err(Error::new(ErrorType::CacheError, String::from_str("invalid cache port"))),
    }
}

/// What the key/value store handed back for a read, already freed of any
/// client-specific types: the stored payload, the store's "no such key /
/// nil" reply, or a connectivity failure.
pub enum RawCacheReply {
    Value(String),
    Nil(String),
    Failure(String),
}

/// Classifies a cache read. The nil reply becomes the explicit cache-miss
/// signal — a normal negative-lookup result, not an error — while a
/// connectivity failure becomes a cache subsystem error.
pub fn classify_cache_read(reply: RawCacheReply) -> (r: Result<String, Error>)
    ensures
        reply matches RawCacheReply::Value(v) ==> r matches Ok(p) && p == v,
        reply matches RawCacheReply::Nil(m) ==> r matches Err(e) && e.error_type
            == ErrorType::CacheMiss && e.message == m,
        reply matches RawCacheReply::Failure(m) ==> r matches Err(e) && e.error_type
            == ErrorType::CacheError && e.message == m,
{
    match reply {
        RawCacheReply::Value(v) => Ok(v),
        RawCacheReply::Nil(m) => Err(Error::new(ErrorType::CacheMiss, m)),
        RawCacheReply::Failure(m) => Err(Error::new(ErrorType::CacheError, m)),
    }
}

/// The expiry a cache write uses: the caller's choice, or the default.
pub fn effective_cache_ttl(expires_in: Option<u64>) -> (r: u64)
    ensures
        r == match expires_in {
            Some(v) => v,
            None => DEFAULT_CACHE_TTL_SECS,
        },
{
    match expires_in {
        Some(v) => v,
        None => DEFAULT_CACHE_TTL_SECS,
    }
}

} // verus!
