use hatchery::auth::basic_auth_allows;

#[test]
fn open_without_password() {
    assert!(basic_auth_allows(None, "/api/graph", None));
}

#[test]
fn readiness_probe_is_always_open() {
    assert!(basic_auth_allows(Some("pw"), "/healthz", None));
}

#[test]
fn correct_password_passes() {
    // base64("user:pw") = "dXNlcjpwdw=="
    assert!(basic_auth_allows(Some("pw"), "/api/graph", Some("Basic dXNlcjpwdw==")));
    // Only the part after the first ':' counts: base64("a:b:c") = "YTpiOmM=".
    assert!(basic_auth_allows(Some("b:c"), "/", Some("Basic YTpiOmM=")));
}

#[test]
fn wrong_or_missing_credentials_are_refused() {
    assert!(!basic_auth_allows(Some("pw"), "/api/graph", None));
    assert!(!basic_auth_allows(Some("other"), "/api/graph", Some("Basic dXNlcjpwdw==")));
    assert!(!basic_auth_allows(Some("pw"), "/", Some("Bearer dXNlcjpwdw==")));
    // Not base64.
    assert!(!basic_auth_allows(Some("pw"), "/", Some("Basic !!!")));
    // The encoded text itself is not the password: the decoding matters.
    assert!(!basic_auth_allows(Some("dXNlcjpwdw=="), "/", Some("Basic dXNlcjpwdw==")));
    // No ':' gives the empty password: base64("userpw") = "dXNlcnB3".
    assert!(!basic_auth_allows(Some("pw"), "/", Some("Basic dXNlcnB3")));
}
