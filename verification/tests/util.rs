use asset_core::error::{Error, ErrorType};
use asset_core::ids::fresh_company_id;
use asset_core::qos::{admit_call, server_qos_policy};
use asset_core::stocks::{merge_stocks, StockInfo};
use asset_core::text::{eq_str, parse_u16, ws_token_list};
use asset_core::StripQuotes;

#[test]
fn quotes_are_stripped_from_both_ends() {
    assert_eq!("'value'".to_string().strip_quotes(), "value");
    assert_eq!("\"value\"".to_string().strip_quotes(), "value");
    assert_eq!("'\"mixed\"'".to_string().strip_quotes(), "mixed");
    assert_eq!("plain".to_string().strip_quotes(), "plain");
    assert_eq!("''".to_string().strip_quotes(), "");
    assert_eq!("don't".to_string().strip_quotes(), "don't");
}

#[test]
fn errors_carry_their_category_and_message() {
    let e = Error::new(ErrorType::DatabaseError, "no connection".to_string());
    assert!(matches!(e.error_type, ErrorType::DatabaseError));
    assert_eq!(e.message, "no connection");
    assert_eq!(e.display_string(), "DatabaseError: no connection");
    let m = Error::new(ErrorType::CacheMiss, "nil".to_string());
    assert_eq!(m.display_string(), "CacheMiss: nil");
}

#[test]
fn tokenization_splits_on_any_whitespace_run() {
    assert_eq!(ws_token_list("Bearer abc"), vec!["Bearer", "abc"]);
    assert_eq!(ws_token_list("  a \t b\nc  "), vec!["a", "b", "c"]);
    assert_eq!(ws_token_list(""), Vec::<String>::new());
    assert_eq!(ws_token_list(" \t "), Vec::<String>::new());
    assert_eq!(ws_token_list("one"), vec!["one"]);
}

#[test]
fn string_equality_is_by_characters() {
    assert!(eq_str("abc", "abc"));
    assert!(!eq_str("abc", "abd"));
    assert!(!eq_str("abc", "ab"));
    assert!(eq_str("", ""));
}

#[test]
fn ports_parse_as_plain_decimal() {
    assert_eq!(parse_u16("6379"), Some(6379));
    assert_eq!(parse_u16("0"), Some(0));
    assert_eq!(parse_u16("65535"), Some(65535));
    assert_eq!(parse_u16("65536"), None);
    assert_eq!(parse_u16(""), None);
    assert_eq!(parse_u16("12a"), None);
    assert_eq!(parse_u16("-1"), None);
}

#[test]
fn fresh_identifiers_carry_the_version_and_variant_bits() {
    let id = fresh_company_id();
    assert_eq!((id >> 76) & 0xf, 7);
    assert_eq!((id >> 62) & 0x3, 2);
    // Two draws differ (time-ordered identifiers with randomness).
    let other = fresh_company_id();
    assert_ne!(id, other);
}

#[test]
fn qos_policy_knobs_match_the_server_configuration() {
    let policy = server_qos_policy();
    assert!(policy.load_shed);
    assert_eq!(policy.request_timeout_secs, 10);
    assert_eq!(policy.concurrency_limit_per_connection, 128);
    assert_eq!(policy.max_connection_age_secs, 60);
    assert_eq!(policy.tcp_keepalive_secs, 30);
    assert_eq!(policy.http2_keepalive_interval_secs, 30);
    assert_eq!(policy.http2_keepalive_timeout_secs, 10);
}

#[test]
fn calls_beyond_the_ceiling_are_shed() {
    let policy = server_qos_policy();
    assert!(admit_call(&policy, 0));
    assert!(admit_call(&policy, 127));
    assert!(!admit_call(&policy, 128));
    assert!(!admit_call(&policy, 1000));
}

fn stock(ticker: &str, name: &str) -> StockInfo {
    StockInfo { ticker: ticker.to_string(), name: name.to_string() }
}

#[test]
fn merged_listings_hold_each_ticker_once_with_the_last_entry() {
    let nyse = vec![stock("A", "A on NYSE"), stock("B", "B on NYSE")];
    let nasdaq = vec![stock("C", "C on NASDAQ"), stock("A", "A on NASDAQ")];
    let amex = vec![stock("B", "B on AMEX")];
    let merged = merge_stocks(nyse, nasdaq, amex);
    assert_eq!(merged.len(), 3);
    let mut tickers: Vec<&str> = merged.iter().map(|s| s.ticker.as_str()).collect();
    tickers.sort();
    assert_eq!(tickers, vec!["A", "B", "C"]);
    let a = merged.iter().find(|s| s.ticker == "A").unwrap();
    assert_eq!(a.name, "A on NASDAQ");
    let b = merged.iter().find(|s| s.ticker == "B").unwrap();
    assert_eq!(b.name, "B on AMEX");
}
