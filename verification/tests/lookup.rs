use asset_core::company::{build_company_row, Address, CompanyDetails, Date};
use asset_core::images::Branding;
use asset_core::lookup::{
    build_company_response, company_cache_key, on_cache_result, on_store_failure, on_store_rows,
    AfterCache, AfterStore, CacheLookup, LookupError, COMPANY_CACHE_TTL_SECS,
};
use asset_core::error::{Error, ErrorType};
use asset_core::ids::uuid_hyphenated;

fn sample_row(symbol: &str, id: u128) -> asset_core::company::CompanyRow {
    let details = CompanyDetails {
        ticker: symbol.to_string(),
        name: "Sample Corp".to_string(),
        description: None,
        cik: None,
        homepage_url: None,
        phone_number: None,
        sic_code: None,
        sic_description: None,
        primary_exchange: None,
        list_date: Some("2016-06-30".to_string()),
        market_cap: Some("1000.5".to_string()),
        total_employees: None,
        weighted_shares_outstanding: None,
        address: Some(Address { address1: None, city: None, state: None, postal_code: None }),
        branding: None,
    };
    build_company_row(details, Branding { logo_url: None, icon_url: None }, id).unwrap()
}

#[test]
fn cache_keys_are_namespaced() {
    assert_eq!(company_cache_key("TWST"), "company_details:TWST");
    assert_eq!(company_cache_key(""), "company_details:");
}

#[test]
fn a_cache_hit_answers_without_the_store() {
    let step = on_cache_result(CacheLookup::Hit(sample_row("TWST", 9)));
    match step {
        AfterCache::RespondFromCache(row) => assert_eq!(row.id, 9),
        AfterCache::QueryStore => panic!("a hit must not reach the store"),
    }
}

#[test]
fn miss_unavailable_and_corrupt_all_fall_back_to_the_store() {
    assert!(matches!(on_cache_result(CacheLookup::Miss), AfterCache::QueryStore));
    assert!(matches!(on_cache_result(CacheLookup::Unavailable), AfterCache::QueryStore));
    assert!(matches!(on_cache_result(CacheLookup::Corrupt), AfterCache::QueryStore));
}

#[test]
fn a_found_row_is_answered_and_cached_for_thirty_days() {
    let rows = vec![sample_row("TWST", 5), sample_row("TWST", 6)];
    match on_store_rows("TWST", rows) {
        AfterStore::Respond { row, cache_write } => {
            // The first row is canonical.
            assert_eq!(row.id, 5);
            assert_eq!(cache_write.key, "company_details:TWST");
            assert_eq!(cache_write.ttl_secs, 60 * 60 * 24 * 30);
            assert_eq!(cache_write.ttl_secs, COMPANY_CACHE_TTL_SECS);
        },
        AfterStore::NotFound(_) => panic!("rows were found"),
    }
}

#[test]
fn an_unknown_symbol_is_not_found_and_nothing_is_cached() {
    match on_store_rows("TWST", Vec::new()) {
        AfterStore::NotFound(LookupError::NotFound(m)) => {
            assert_eq!(m, "TWST Company details not found");
        },
        _ => panic!("zero rows must be a not-found failure"),
    }
}

#[test]
fn a_store_failure_is_an_internal_error() {
    let e = on_store_failure(Error::new(ErrorType::DatabaseError, "pool exhausted".to_string()));
    match e {
        LookupError::Internal(m) => assert_eq!(m, "pool exhausted"),
        LookupError::NotFound(_) => panic!("a store failure is not a missing symbol"),
    }
}

#[test]
fn identifiers_render_hyphenated() {
    assert_eq!(
        uuid_hyphenated(0xa1a2a3a4b1b2c1c2d1d2d3d4d5d6d7d8),
        "a1a2a3a4-b1b2-c1c2-d1d2-d3d4d5d6d7d8"
    );
    assert_eq!(uuid_hyphenated(0), "00000000-0000-0000-0000-000000000000");
}

#[test]
fn responses_carry_every_stored_field_in_transport_form() {
    let mut row = sample_row("TWST", 0xa1a2a3a4b1b2c1c2d1d2d3d4d5d6d7d8);
    row.list_date = Some(Date { year: 2016, month: 6, day: 30 });
    let response = build_company_response(row);
    assert_eq!(response.id, "a1a2a3a4-b1b2-c1c2-d1d2-d3d4d5d6d7d8");
    assert_eq!(response.symbol, "TWST");
    assert_eq!(response.name, "Sample Corp");
    assert_eq!(response.list_date, Some("2016-06-30".to_string()));
    assert_eq!(response.market_cap, Some("1000.5".to_string()));
}
