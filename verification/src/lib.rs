//! Core logic of a company/asset metadata service: a cache-aside read path
//! with explicit miss-vs-unavailable semantics, an authenticating request
//! interceptor with service-level QoS policy, and an ingestion/enrichment
//! pipeline with an idempotent upsert, deterministic CDN image identifiers
//! and an exponential-backoff retrier.
//!
//! All decision logic is verified; network, store and cache I/O live outside
//! the library and exchange plain values with it.

pub mod auth;
pub mod backoff;
pub mod cache;
pub mod company;
pub mod error;
pub mod ids;
pub mod images;
pub mod lookup;
pub mod qos;
pub mod stocks;
pub mod text;

use vstd::prelude::*;

verus! {

/// Normalizing trait for configuration values: strips quotes from both ends
/// of a string.
pub trait StripQuotes {
    fn strip_quotes(&self) -> String;
}

/// True of the quote characters that configuration values may be wrapped in.
pub open spec fn is_quote_char(c: char) -> bool {
    c == '\'' || c == '"'
}

/// The sequence `s` with every leading and trailing quote character removed.
pub open spec fn strip_quotes_spec(s: Seq<char>) -> Seq<char>
    decreases s.len(),
{
    if s.len() == 0 {
        s
    } else if is_quote_char(s[0]) {
        strip_quotes_spec(s.drop_first())
    } else if is_quote_char(s.last()) {
        strip_quotes_spec(s.drop_last())
    } else {
        s
    }
}

/// Whether the character at position `i` of `s` is a quote.
fn quote_at(s: &str, i: usize) -> (r: bool)
    requires
        i < s@.len(),
    ensures
        r == is_quote_char(s@[i as int]),
{
    let c = s.get_char(i);
    c == '\'' || c == '"'
}

impl StripQuotes for String {
    fn strip_quotes(&self) -> (r: String)
        ensures
            r@ == strip_quotes_spec(self@),
    {
        let n = self.as_str().unicode_len();
        let mut lo: usize = 0;
        let mut hi: usize = n;
        proof {
            assert(self@.subrange(0, n as int) =~= self@);
        }
        while lo < hi && quote_at(self.as_str(), lo)
            invariant
                0 <= lo <= hi <= n == self@.len(),
                strip_quotes_spec(self@) == strip_quotes_spec(
                    self@.subrange(lo as int, hi as int),
                ),
            decreases hi - lo,
        {
            proof {
                assert(self@.subrange(lo as int, hi as int).drop_first() =~= self@.subrange(
                    lo as int + 1,
                    hi as int,
                ));
            }
            lo = lo + 1;
        }
        while lo < hi && quote_at(self.as_str(), hi - 1)
            invariant
                0 <= lo <= hi <= n == self@.len(),
                lo < hi ==> !is_quote_char(self@[lo as int]),
                strip_quotes_spec(self@) == strip_quotes_spec(
                    self@.subrange(lo as int, hi as int),
                ),
            decreases hi - lo,
        {
            proof {
                assert(self@.subrange(lo as int, hi as int).drop_last() =~= self@.subrange(
                    lo as int,
                    hi as int - 1,
                ));
            }
            hi = hi - 1;
        }
        let r = self.as_str().substring_char(lo, hi);
        proof {
            assert(r@ =~= self@.subrange(lo as int, hi as int));
        }
        String::from_str(r)
    }
}

} // verus!
