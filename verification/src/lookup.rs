//! The asset lookup read path: check the cache first; respond straight from
//! a hit without touching the store; on a miss (or an unreachable or
//! corrupt cache) fall back to the store; a symbol the store does not hold
//! is a not-found failure with no cache write; a found row is answered and
//! written back to the cache with a long expiry, as best effort only.

use vstd::prelude::*;
use crate::company::{spec_date_string, CompanyRow, Date};
use crate::company::format_date;
use crate::error::Error;
use crate::ids::{spec_uuid_hyphenated, uuid_hyphenated};

verus! {

/// The expiry of cached company snapshots: thirty days, since they change
/// rarely.
pub const COMPANY_CACHE_TTL_SECS: u64 = 60 * 60 * 24 * 30;

/// The cache key of a symbol's company snapshot.
pub open spec fn spec_company_cache_key(symbol: Seq<char>) -> Seq<char> {
    "company_details:"@ + symbol
}

pub fn company_cache_key(symbol: &str) -> (r: String)
    ensures
        r@ == spec_company_cache_key(symbol@),
{
    let mut r = String::from_str("company_details:");
    r.append(symbol);
    r
}

/// What the cache gave for a symbol: a deserialized snapshot, the explicit
/// miss signal, an unreachable cache, or a stored payload that would not
/// deserialize.
pub enum CacheLookup {
    Hit(CompanyRow),
    Miss,
    Unavailable,
    Corrupt,
}

/// The step after the cache answered: respond immediately from the cached
/// snapshot, or fall back to the authoritative store.
pub enum AfterCache {
    RespondFromCache(CompanyRow),
    QueryStore,
}

/// The step `on_cache_result` takes, as a function of the cache's answer.
pub open spec fn spec_after_cache(lookup: CacheLookup) -> AfterCache {
    match lookup {
        CacheLookup::Hit(row) => AfterCache::RespondFromCache(row),
        CacheLookup::Miss => AfterCache::QueryStore,
        CacheLookup::Unavailable => AfterCache::QueryStore,
        CacheLookup::Corrupt => AfterCache::QueryStore,
    }
}

/// Decides the read path from the cache's answer: a hit is answered on the
/// spot — no store read happens on that path — while a miss, an
/// unreachable cache and a corrupt payload all fall back to the store and
/// never fail the request.
pub fn on_cache_result(lookup: CacheLookup) -> (r: AfterCache)
    ensures
        r == spec_after_cache(lookup),
{
    match lookup {
        CacheLookup::Hit(row) => AfterCache::RespondFromCache(row),
        CacheLookup::Miss => AfterCache::QueryStore,
        CacheLookup::Unavailable => AfterCache::QueryStore,
        CacheLookup::Corrupt => AfterCache::QueryStore,
    }
}

/// A cache hit answers from the cache alone: the plan it yields carries the
/// cached row and asks for no store query.
pub proof fn lemma_cache_hit_reads_no_store(row: CompanyRow)
    ensures
        spec_after_cache(CacheLookup::Hit(row)) == AfterCache::RespondFromCache(row),
        !(spec_after_cache(CacheLookup::Hit(row)) is QueryStore),
{
}

/// A miss is not an error: it, an unreachable cache and a corrupt payload
/// all send the lookup to the authoritative store instead of failing the
/// request. What the store then yields — the answer and the cache write on
/// a found row, the not-found failure and no cache write on an unknown
/// symbol — is the contract of `on_store_rows`.
pub proof fn lemma_cache_fallback_never_fails(lookup: CacheLookup)
    requires
        !(lookup is Hit),
    ensures
        spec_after_cache(lookup) == AfterCache::QueryStore,
{
}

/// How a lookup fails: the symbol is unknown, or the store itself failed.
pub enum LookupError {
    NotFound(String),
    Internal(String),
}

/// The best-effort cache write planned for a freshly read row: the row is
/// to be stored under this key with this expiry. Failure of this write is
/// logged and never fails the lookup.
pub struct CacheWritePlan {
    pub key: String,
    pub ttl_secs: u64,
}

/// The step after the store answered with the rows matching the symbol.
pub enum AfterStore {
    NotFound(LookupError),
    Respond { row: CompanyRow, cache_write: CacheWritePlan },
}

/// Decides the read path from the store's rows for `symbol`. Zero rows fail
/// with a not-found signal naming the symbol, and plan no cache write. One
/// or more rows answer with the first row — duplicates would break the
/// store's own invariant; the first one wins — and plan the best-effort
/// cache write of that row under the symbol's cache key with the thirty-day
/// expiry.
pub fn on_store_rows(symbol: &str, rows: Vec<CompanyRow>) -> (r: AfterStore)
    ensures
        r is NotFound <==> rows@.len() == 0,
        r matches AfterStore::NotFound(e) ==> (e matches LookupError::NotFound(m) && m@ == symbol@
            + " Company details not found"@),
        r matches AfterStore::Respond { row, cache_write } ==> {
            &&& rows@.len() > 0
            &&& row == rows@[0]
            &&& cache_write.key@ == spec_company_cache_key(symbol@)
            &&& cache_write.ttl_secs == COMPANY_CACHE_TTL_SECS
        },
{
    let mut rows = rows;
    if rows.len() == 0 {
        let mut m = String::from_str(symbol);
        m.append(" Company details not found");
        AfterStore::NotFound(LookupError::NotFound(m))
    } else {
        let row = rows.remove(0);
        let cache_write = CacheWritePlan {
            key: company_cache_key(symbol),
            ttl_secs: COMPANY_CACHE_TTL_SECS,
        };
        AfterStore::Respond { row, cache_write }
    }
}

/// The store could not be queried: the lookup fails as an internal error;
/// the store's own message is carried for the log.
pub fn on_store_failure(failure: Error) -> (r: LookupError)
    ensures
        r matches LookupError::Internal(m) && m == failure.message,
{
    LookupError::Internal(failure.message)
}

/// A company record as the transport layer sends it: the identity as its
/// hyphenated text, the listing date rendered `YYYY-MM-DD`, and the market
/// capitalization still as decimal text — its best-effort conversion to a
/// floating-point number happens outside the library.
pub struct CompanyResponse {
    pub id: String,
    pub symbol: String,
    pub name: String,
    pub description: Option<String>,
    pub address: Option<String>,
    pub city: Option<String>,
    pub state: Option<String>,
    pub zip: Option<String>,
    pub icon_url: Option<String>,
    pub logo_url: Option<String>,
    pub cik: Option<String>,
    pub homepage_url: Option<String>,
    pub list_date: Option<String>,
    pub market_cap: Option<String>,
    pub phone_number: Option<String>,
    pub primary_exchange_id: Option<String>,
    pub primary_exchange_name: Option<String>,
    pub sic_code: Option<String>,
    pub sic_description: Option<String>,
    pub total_employees: Option<i64>,
    pub weighted_shares_outstanding: Option<i64>,
}

/// Builds the transport record of a row: every stored field carried over,
/// the identity and the listing date rendered as text.
pub fn build_company_response(row: CompanyRow) -> (r: CompanyResponse)
    requires
        row.list_date matches Some(d) ==> d.wf(),
    ensures
        r.id@ == spec_uuid_hyphenated(row.id),
        r.symbol == row.symbol,
        r.name == row.name,
        r.description == row.description,
        r.address == row.address,
        r.city == row.city,
        r.state == row.state,
        r.zip == row.zip,
        r.icon_url == row.icon_url,
        r.logo_url == row.logo_url,
        r.cik == row.cik,
        r.homepage_url == row.homepage_url,
        match row.list_date {
            Some(d) => r.list_date matches Some(s) && s@ == spec_date_string(d),
            None => r.list_date is None,
        },
        r.market_cap == row.market_cap,
        r.phone_number == row.phone_number,
        r.primary_exchange_id == row.primary_exchange_id,
        r.primary_exchange_name == row.primary_exchange_name,
        r.sic_code == row.sic_code,
        r.sic_description == row.sic_description,
        r.total_employees == row.total_employees,
        r.weighted_shares_outstanding == row.weighted_shares_outstanding,
{
    let list_date = match row.list_date {
        Some(d) => Some(format_date(d)),
        None => None,
    };
    CompanyResponse {
        id: uuid_hyphenated(row.id),
        symbol: row.symbol,
        name: row.name,
        description: row.description,
        address: row.address,
        city: row.city,
        state: row.state,
        zip: row.zip,
        icon_url: row.icon_url,
        logo_url: row.logo_url,
        cik: row.cik,
        homepage_url: row.homepage_url,
        list_date,
        market_cap: row.market_cap,
        phone_number: row.phone_number,
        primary_exchange_id: row.primary_exchange_id,
        primary_exchange_name: row.primary_exchange_name,
        sic_code: row.sic_code,
        sic_description: row.sic_description,
        total_employees: row.total_employees,
        weighted_shares_outstanding: row.weighted_shares_outstanding,
    }
}

} // verus!
