//! The ingestion scenario end to end, with the CDN's answers supplied as
//! plain values: plan the uploads, judge the answers, build the row, upsert.

use asset_core::company::{build_company_row, CompanyDetails, CompanyTable};
use asset_core::images::{
    apply_branding_outcomes, interpret_cdn_response, plan_branding_uploads, Branding,
    CdnUploadResponse, CdnUploadResult,
};

fn minimal_record(ticker: &str, branding: Option<Branding>) -> CompanyDetails {
    CompanyDetails {
        ticker: ticker.to_string(),
        name: "Twist Bioscience".to_string(),
        description: None,
        cik: None,
        homepage_url: None,
        phone_number: None,
        sic_code: None,
        sic_description: None,
        primary_exchange: None,
        list_date: None,
        market_cap: None,
        total_employees: None,
        weighted_shares_outstanding: None,
        address: None,
        branding,
    }
}

#[test]
fn ingesting_a_record_uploads_its_logo_and_upserts_the_row() {
    let record = minimal_record(
        "TWST",
        Some(Branding { logo_url: Some("https://x/y.png".to_string()), icon_url: None }),
    );

    // Plan the uploads from the record's branding.
    let branding = record.branding.as_ref().unwrap();
    let (icon_plan, logo_plan) = plan_branding_uploads(&record.ticker, branding, "testkey");
    assert!(icon_plan.is_none());
    let logo_plan = logo_plan.unwrap();
    assert_eq!(logo_plan.image_id, "logo/TWST.png");
    assert_eq!(logo_plan.source_url, "https://x/y.png?apiKey=testkey");

    // The CDN accepts the upload and reports the delivery variant.
    let response = CdnUploadResponse {
        success: true,
        result: Some(CdnUploadResult { variants: vec!["https://cdn/variant-1".to_string()] }),
        errors: Vec::new(),
    };
    let logo_outcome = interpret_cdn_response(&response, &logo_plan.image_id);
    let new_branding = apply_branding_outcomes(None, Some(logo_outcome));
    assert_eq!(new_branding.logo_url, Some("https://cdn/variant-1".to_string()));

    // The row persists the enriched branding under the record's symbol.
    let row = build_company_row(record, new_branding, 42).unwrap();
    let mut table = CompanyTable::new();
    table.upsert(row);
    assert_eq!(table.rows.len(), 1);
    let stored = &table.rows[0];
    assert_eq!(stored.symbol, "TWST");
    assert_eq!(stored.logo_url, Some("https://cdn/variant-1".to_string()));
    assert_eq!(stored.icon_url, None);
}

#[test]
fn a_record_without_branding_is_ingested_without_uploads() {
    let record = minimal_record("TWST", None);
    let new_branding = apply_branding_outcomes(None, None);
    let row = build_company_row(record, new_branding, 1).unwrap();
    let mut table = CompanyTable::new();
    table.upsert(row);
    assert_eq!(table.rows[0].logo_url, None);
    assert_eq!(table.rows[0].icon_url, None);
}

#[test]
fn image_types_address_their_own_namespaces() {
    let branding = Branding {
        logo_url: Some("https://x/l.png".to_string()),
        icon_url: Some("https://x/i.svg".to_string()),
    };
    let (icon_plan, logo_plan) = plan_branding_uploads("AAPL", &branding, "k");
    assert_eq!(icon_plan.unwrap().image_id, "icon/AAPL.svg");
    assert_eq!(logo_plan.unwrap().image_id, "logo/AAPL.png");
}
