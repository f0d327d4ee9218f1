use asset_core::company::{
    build_company_row, days_in_month, format_date, parse_list_date, Address, CompanyDetails,
    CompanyRow, CompanyTable, Date, ExchangeCode,
};
use asset_core::error::ErrorType;
use asset_core::images::Branding;

#[test]
fn exchange_names_and_codes() {
    assert_eq!(ExchangeCode::XNYS.name(), "New York Stock Exchange");
    assert_eq!(ExchangeCode::XNAS.name(), "Nasdaq");
    assert_eq!(ExchangeCode::ARCX.name(), "NYSE Arca");
    assert_eq!(ExchangeCode::BATS.name(), "Cboe BZX Exchange");
    assert_eq!(ExchangeCode::XASE.name(), "NYSE American");
    assert_eq!(ExchangeCode::XNYS.iso_code(), "XNYS");
    assert_eq!(ExchangeCode::XNAS.iso_code(), "XNAS");
    assert_eq!(ExchangeCode::ARCX.iso_code(), "ARCX");
    assert_eq!(ExchangeCode::BATS.iso_code(), "BATS");
    assert_eq!(ExchangeCode::XASE.iso_code(), "XASE");
}

#[test]
fn unknown_exchange_codes_default_to_nyse() {
    assert_eq!(ExchangeCode::from("XNAS".to_string()), ExchangeCode::XNAS);
    assert_eq!(ExchangeCode::from("ARCX".to_string()), ExchangeCode::ARCX);
    assert_eq!(ExchangeCode::from("BATS".to_string()), ExchangeCode::BATS);
    assert_eq!(ExchangeCode::from("XASE".to_string()), ExchangeCode::XASE);
    assert_eq!(ExchangeCode::from("XNYS".to_string()), ExchangeCode::XNYS);
    assert_eq!(ExchangeCode::from("SOMETHING".to_string()), ExchangeCode::XNYS);
}

#[test]
fn list_dates_parse_and_validate() {
    assert_eq!(parse_list_date("2024-09-13").unwrap(), Date { year: 2024, month: 9, day: 13 });
    assert_eq!(parse_list_date("0001-01-01").unwrap(), Date { year: 1, month: 1, day: 1 });
    // 2024 is a leap year, 2023 is not; 1900 is not, 2000 is.
    assert!(parse_list_date("2024-02-29").is_ok());
    assert!(parse_list_date("2023-02-29").is_err());
    assert!(parse_list_date("1900-02-29").is_err());
    assert!(parse_list_date("2000-02-29").is_ok());
    for bad in [
        "2024-04-31",
        "2024-00-10",
        "2024-13-01",
        "2024-01-00",
        "2024-1-01",
        "24-01-01",
        "2024/01/01",
        "2024-01-01 ",
        "abcd-01-01",
        "",
    ] {
        let err = parse_list_date(bad).unwrap_err();
        assert!(matches!(err.error_type, ErrorType::ParseError));
    }
}

#[test]
fn dates_render_back_as_iso() {
    assert_eq!(format_date(Date { year: 2024, month: 9, day: 13 }), "2024-09-13");
    assert_eq!(format_date(Date { year: 1, month: 12, day: 5 }), "0001-12-05");
    assert_eq!(days_in_month(2024, 2), 29);
    assert_eq!(days_in_month(2023, 2), 28);
    assert_eq!(days_in_month(2023, 11), 30);
    assert_eq!(days_in_month(2023, 12), 31);
}

fn sample_details(ticker: &str) -> CompanyDetails {
    CompanyDetails {
        ticker: ticker.to_string(),
        name: "Sample Corp".to_string(),
        description: Some("Makes samples".to_string()),
        cik: Some("0001234567".to_string()),
        homepage_url: Some("https://sample.example".to_string()),
        phone_number: Some("555-0100".to_string()),
        sic_code: Some("3674".to_string()),
        sic_description: Some("Semiconductors".to_string()),
        primary_exchange: Some("XNAS".to_string()),
        list_date: Some("2016-06-30".to_string()),
        market_cap: Some("1234567890.5".to_string()),
        total_employees: Some(321),
        weighted_shares_outstanding: Some(1000000),
        address: Some(Address {
            address1: Some("1 Main St".to_string()),
            city: Some("Springfield".to_string()),
            state: Some("OR".to_string()),
            postal_code: Some("97477".to_string()),
        }),
        branding: Some(Branding {
            logo_url: Some("https://internal.example/logo.png".to_string()),
            icon_url: None,
        }),
    }
}

#[test]
fn rows_are_built_from_the_record_and_the_enriched_branding() {
    let branding = Branding {
        logo_url: Some("https://cdn/logo".to_string()),
        icon_url: Some("https://cdn/icon".to_string()),
    };
    let row = build_company_row(sample_details("TWST"), branding, 7).unwrap();
    assert_eq!(row.id, 7);
    assert_eq!(row.symbol, "TWST");
    assert_eq!(row.name, "Sample Corp");
    assert_eq!(row.description, Some("Makes samples".to_string()));
    assert_eq!(row.address, Some("1 Main St".to_string()));
    assert_eq!(row.city, Some("Springfield".to_string()));
    assert_eq!(row.state, Some("OR".to_string()));
    assert_eq!(row.zip, Some("97477".to_string()));
    // The enriched branding is persisted; the record's own branding — an
    // upstream-internal URL — never is.
    assert_eq!(row.logo_url, Some("https://cdn/logo".to_string()));
    assert_eq!(row.icon_url, Some("https://cdn/icon".to_string()));
    assert_eq!(row.cik, Some("0001234567".to_string()));
    assert_eq!(row.homepage_url, Some("https://sample.example".to_string()));
    assert_eq!(row.list_date, Some(Date { year: 2016, month: 6, day: 30 }));
    assert_eq!(row.market_cap, Some("1234567890.5".to_string()));
    assert_eq!(row.phone_number, Some("555-0100".to_string()));
    assert_eq!(row.primary_exchange_id, Some("XNAS".to_string()));
    assert_eq!(row.primary_exchange_name, Some("Nasdaq".to_string()));
    assert_eq!(row.sic_code, Some("3674".to_string()));
    assert_eq!(row.sic_description, Some("Semiconductors".to_string()));
    assert_eq!(row.total_employees, Some(321));
    assert_eq!(row.weighted_shares_outstanding, Some(1000000));
}

#[test]
fn a_bad_list_date_rejects_the_record() {
    let mut details = sample_details("TWST");
    details.list_date = Some("June 30".to_string());
    let err = build_company_row(details, Branding { logo_url: None, icon_url: None }, 7)
        .unwrap_err();
    assert!(matches!(err.error_type, ErrorType::ParseError));

    let mut details = sample_details("TWST");
    details.list_date = None;
    let row = build_company_row(details, Branding { logo_url: None, icon_url: None }, 7).unwrap();
    assert_eq!(row.list_date, None);
}

#[test]
fn upsert_inserts_new_symbols_and_finds_them() {
    let mut table = CompanyTable::new();
    let row = build_company_row(
        sample_details("TWST"),
        Branding { logo_url: None, icon_url: None },
        1,
    )
    .unwrap();
    table.upsert(row);
    let other = build_company_row(
        sample_details("AAPL"),
        Branding { logo_url: None, icon_url: None },
        2,
    )
    .unwrap();
    table.upsert(other);
    assert_eq!(table.rows.len(), 2);
    let i = table.find_by_symbol("TWST").unwrap();
    assert_eq!(table.rows[i].id, 1);
    let j = table.find_by_symbol("AAPL").unwrap();
    assert_eq!(table.rows[j].id, 2);
    assert!(table.find_by_symbol("MSFT").is_none());
}

fn second_run_row(id: u128) -> CompanyRow {
    let mut details = sample_details("TWST");
    details.name = "Renamed Corp".to_string();
    details.description = Some("New description".to_string());
    details.market_cap = Some("2000000000".to_string());
    details.total_employees = Some(400);
    details.weighted_shares_outstanding = Some(1100000);
    build_company_row(
        details,
        Branding {
            logo_url: Some("https://cdn/new-logo".to_string()),
            icon_url: Some("https://cdn/new-icon".to_string()),
        },
        id,
    )
    .unwrap()
}

#[test]
fn reingesting_a_symbol_updates_only_the_restricted_columns() {
    let mut table = CompanyTable::new();
    let first = build_company_row(
        sample_details("TWST"),
        Branding { logo_url: Some("https://cdn/logo".to_string()), icon_url: None },
        1,
    )
    .unwrap();
    table.upsert(first);
    table.upsert(second_run_row(2));

    // Exactly one row for the symbol.
    assert_eq!(table.rows.len(), 1);
    let row = &table.rows[0];
    // Identity and descriptive fields keep the first ingestion's values —
    // the fresh id of the second run is discarded, the rename never lands.
    assert_eq!(row.id, 1);
    assert_eq!(row.symbol, "TWST");
    assert_eq!(row.name, "Sample Corp");
    assert_eq!(row.description, Some("Makes samples".to_string()));
    // The restricted column subset takes the second run's values.
    assert_eq!(row.market_cap, Some("2000000000".to_string()));
    assert_eq!(row.total_employees, Some(400));
    assert_eq!(row.weighted_shares_outstanding, Some(1100000));
    assert_eq!(row.logo_url, Some("https://cdn/new-logo".to_string()));
    assert_eq!(row.icon_url, Some("https://cdn/new-icon".to_string()));
}
