use std::sync::Arc;
use asset_core::auth::{
    extract_credential, interpret_verification, AuthInterceptor, AuthServiceImpl,
    StaticAuthService, VerificationResult,
};
use asset_core::error::ErrorType;

#[test]
fn auth_service_impl_keeps_its_url() {
    let service = AuthServiceImpl::new("https://auth.example".to_string());
    assert_eq!(service.auth_url, "https://auth.example");
}

#[test]
fn well_formed_header_yields_its_credential() {
    let header = "Bearer token123".to_string();
    assert_eq!(extract_credential(Some(&header)), Some("token123".to_string()));
    let padded = "  Basic  abc  ".to_string();
    assert_eq!(extract_credential(Some(&padded)), Some("abc".to_string()));
}

#[test]
fn malformed_headers_yield_no_credential() {
    // Zero tokens.
    assert_eq!(extract_credential(Some(&"".to_string())), None);
    assert_eq!(extract_credential(Some(&"   ".to_string())), None);
    // One token.
    assert_eq!(extract_credential(Some(&"Bearer".to_string())), None);
    // Three or more tokens.
    assert_eq!(extract_credential(Some(&"Bearer a b".to_string())), None);
    assert_eq!(extract_credential(Some(&"a b c d".to_string())), None);
    // No header at all.
    assert_eq!(extract_credential(None), None);
}

fn interceptor() -> AuthInterceptor<StaticAuthService> {
    AuthInterceptor {
        auth_service: Arc::new(StaticAuthService { accepted_token: "token123".to_string() }),
    }
}

#[test]
fn intercept_passes_only_the_accepted_credential() {
    let i = interceptor();
    assert!(i.intercept(Some(&"Bearer token123".to_string())).is_ok());
    let rejected = i.intercept(Some(&"Bearer other".to_string())).unwrap_err();
    assert!(matches!(rejected.error_type, ErrorType::GrpcError));
    assert_eq!(rejected.message, "Unauthenticated");
}

#[test]
fn intercept_rejects_malformed_headers_without_asking_the_authority() {
    // The authority accepts "token123"; even so, a malformed header never
    // gets that far: the rejection happens at extraction.
    let i = interceptor();
    assert!(i.intercept(None).is_err());
    assert!(i.intercept(Some(&"".to_string())).is_err());
    assert!(i.intercept(Some(&"token123".to_string())).is_err());
    assert!(i.intercept(Some(&"Bearer token123 extra".to_string())).is_err());
    let rejected = i.intercept(Some(&"a b c".to_string())).unwrap_err();
    assert_eq!(rejected.message, "Unauthenticated");
}

#[test]
fn verification_outcomes_are_judged_strictly() {
    assert!(interpret_verification(Some(VerificationResult {
        authenticated: true,
        message: "ok".to_string(),
    }))
    .is_ok());
    let denied = interpret_verification(Some(VerificationResult {
        authenticated: false,
        message: "expired".to_string(),
    }))
    .unwrap_err();
    assert_eq!(denied, "expired");
    let unreachable_authority = interpret_verification(None).unwrap_err();
    assert_eq!(unreachable_authority, "could not reach the authority");
}
