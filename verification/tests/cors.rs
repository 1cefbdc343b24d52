//! Tests of the cross-origin policy filter.

use orchestra_core::cors::{CorsDecision, CorsPolicy};

fn policy(credentials: bool) -> CorsPolicy {
    CorsPolicy::restricted(
        vec!["https://example.com".to_owned(), "https://admin.example.com".to_owned()],
        3600,
        credentials,
    )
}

#[test]
fn disallowed_origin_is_rejected() {
    let p = policy(true);
    let d = p.evaluate(&"https://evil.example.org".to_owned(), false);
    assert!(matches!(d, CorsDecision::Rejected));
    let d = p.evaluate(&"https://evil.example.org".to_owned(), true);
    assert!(matches!(d, CorsDecision::Rejected));
}

#[test]
fn preflight_advertises_the_configured_policy() {
    let p = policy(false);
    match p.evaluate(&"https://example.com".to_owned(), true) {
        CorsDecision::Preflight { methods, headers, max_age_secs, credentials } => {
            assert_eq!(methods, vec!["GET".to_owned(), "POST".to_owned()]);
            assert_eq!(headers, vec!["content-type".to_owned()]);
            assert_eq!(max_age_secs, 3600);
            assert!(!credentials);
        },
        _ => panic!("a preflight from an allowed origin must be answered"),
    }
}

#[test]
fn ordinary_request_from_allowed_origin_passes() {
    let p = policy(false);
    match p.evaluate(&"https://admin.example.com".to_owned(), false) {
        CorsDecision::Allowed { credentials } => assert!(!credentials),
        _ => panic!("an allowed origin must pass"),
    }
}

#[test]
fn credentials_are_honored_only_when_configured() {
    let with = policy(true);
    match with.evaluate(&"https://example.com".to_owned(), false) {
        CorsDecision::Allowed { credentials } => assert!(credentials),
        _ => panic!("an allowed origin must pass"),
    }
    let without = policy(false);
    match without.evaluate(&"https://example.com".to_owned(), true) {
        CorsDecision::Preflight { credentials, .. } => assert!(!credentials),
        _ => panic!("a preflight from an allowed origin must be answered"),
    }
}
