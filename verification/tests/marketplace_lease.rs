use solai_coder::marketplace_lease::sanitize_provider_key;
use solai_coder::marketplace_lease::select_active_lease;
use solai_coder::marketplace_lease::select_active_lease_now;
use solai_coder::marketplace_lease::LeaseError;
use solai_coder::marketplace_lease::MarketplaceLease;
use solai_coder::marketplace_lease::Timestamp;

fn lease(id: &str, expires_secs: i64, status: Option<&str>, token: &str) -> MarketplaceLease {
    MarketplaceLease {
        id: id.to_string(),
        endpoint: "http://10.0.0.5:8080/".to_string(),
        model: "SOLAI-20B".to_string(),
        expires_at: Timestamp { secs: expires_secs, nanos: 0 },
        status: status.map(|s| s.to_string()),
        auth_token: token.to_string(),
    }
}

fn at(secs: i64) -> Timestamp {
    Timestamp { secs, nanos: 0 }
}

#[test]
fn sanitize_replaces_other_characters_and_trims_dashes() {
    assert_eq!(sanitize_provider_key("lease_01:ABC/xyz"), "lease_01-ABC-xyz");
    assert_eq!(sanitize_provider_key("--a b--"), "a-b");
    assert_eq!(sanitize_provider_key("ünï"), "n");
    assert_eq!(sanitize_provider_key("***"), "");
}

#[test]
fn sanitized_key_is_stable() {
    let once = sanitize_provider_key("  Lease#42 (gpu) ");
    assert_eq!(once, "Lease-42--gpu");
    assert_eq!(sanitize_provider_key(&once), once);
}

#[test]
fn provider_fields_derive_from_the_lease() {
    let l = lease("abc:1", 100, None, "tok");
    assert_eq!(l.provider_key(), "solai-lease-abc-1");
    assert_eq!(l.provider_name(), "SOLAI Lease abc:1");
    assert_eq!(l.base_url(), "http://10.0.0.5:8080/v1");
}

#[test]
fn activity_depends_on_status_and_expiry() {
    let l = lease("a", 100, Some("ACTIVE"), "tok");
    assert!(l.is_active_at(at(99)));
    assert!(!l.is_active_at(at(100)));
    assert!(l.is_active_at(Timestamp { secs: 99, nanos: 999_999_999 }));
    let released = lease("a", 100, Some("RELEASED"), "tok");
    assert!(!released.is_active_at(at(0)));
    assert!(lease("a", 100, None, "tok").is_active_at(at(0)));
}

#[test]
fn selects_the_first_lease_with_the_id() {
    let leases = vec![
        lease("other", 500, None, "t0"),
        lease("wanted", 500, None, "t1"),
        lease("wanted", 500, None, "t2"),
    ];
    match select_active_lease(leases, "wanted", at(10)) {
        Ok(l) => assert_eq!(l.auth_token, "t1"),
        Err(e) => panic!("unexpected error: {}", e.message()),
    }
}

#[test]
fn reports_each_refusal() {
    match select_active_lease(vec![lease("a", 500, None, "t")], "b", at(10)) {
        Err(e @ LeaseError::NotFound(_)) => assert_eq!(e.message(), "lease b was not found"),
        _ => panic!("expected not found"),
    }
    match select_active_lease(vec![lease("a", 500, None, "  ")], "a", at(10)) {
        Err(e @ LeaseError::MissingAuthToken(_)) => {
            assert_eq!(e.message(), "lease a is missing its local auth token")
        }
        _ => panic!("expected missing token"),
    }
    match select_active_lease(vec![lease("a", 5, None, "t")], "a", at(10)) {
        Err(e @ LeaseError::Inactive(_)) => {
            assert_eq!(e.message(), "lease a is not active or has expired")
        }
        _ => panic!("expected inactive"),
    }
}

#[test]
fn expired_lease_is_refused_later_too() {
    let leases = || vec![lease("a", 100, None, "t")];
    assert!(select_active_lease(leases(), "a", at(50)).is_ok());
    assert!(matches!(
        select_active_lease(leases(), "a", at(150)),
        Err(LeaseError::Inactive(_))
    ));
}

#[test]
fn selection_now_uses_the_clock() {
    assert!(select_active_lease_now(vec![lease("a", i64::MAX, None, "t")], "a").is_ok());
    assert!(matches!(
        select_active_lease_now(vec![lease("a", 0, None, "t")], "a"),
        Err(LeaseError::Inactive(_))
    ));
    assert!(matches!(
        select_active_lease_now(Vec::new(), "a"),
        Err(LeaseError::NotFound(_))
    ));
}
