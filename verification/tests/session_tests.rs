use git_matrix::session::{plan_session, GitMatrixBuilder, Builder, SessionPlan, StoredCredentials};

#[test]
fn matrix_scheme_bootstraps_to_https() {
    let b = GitMatrixBuilder::new("matrix://example.org/myrepo".to_owned());
    let addr = b.parse_remote_url().unwrap();
    assert_eq!(addr.homeserver_url, "https://example.org");
    assert_eq!(addr.room_alias, "#myrepo:example.org");
}

#[test]
fn explicit_port_is_kept() {
    let b = GitMatrixBuilder::new("https://example.org:8080/myrepo".to_owned());
    let addr = b.parse_remote_url().unwrap();
    assert_eq!(addr.homeserver_url, "https://example.org:8080");
    assert_eq!(addr.room_alias, "#myrepo:example.org");
}

#[test]
fn known_default_port_is_filled_in() {
    let b = GitMatrixBuilder::new("https://example.org/myrepo".to_owned());
    let addr = b.parse_remote_url().unwrap();
    assert_eq!(addr.homeserver_url, "https://example.org:443");
    assert_eq!(addr.room_alias, "#myrepo:example.org");
}

#[test]
fn two_path_segments_are_rejected() {
    let b = GitMatrixBuilder::new("matrix://example.org/one/two".to_owned());
    let err = b.parse_remote_url().unwrap_err();
    assert_eq!(err.message, "Invalid path length in URL");
}

#[test]
fn missing_host_is_rejected() {
    let b = GitMatrixBuilder::new("mailto:someone@example.org".to_owned());
    let err = b.parse_remote_url().unwrap_err();
    assert_eq!(err.message, "Invalid host in URL");
}

#[test]
fn undetectable_port_is_rejected() {
    let b = GitMatrixBuilder::new("gitroom://example.org/myrepo".to_owned());
    let err = b.parse_remote_url().unwrap_err();
    assert_eq!(err.message, "Could not detect port in URL");
}

#[test]
fn unparsable_url_is_rejected() {
    let b = GitMatrixBuilder::new("not a url at all".to_owned());
    assert!(b.parse_remote_url().is_err());
}

#[test]
fn builder_defaults_and_remote_name() {
    let mut b = GitMatrixBuilder::new("matrix://example.org/myrepo".to_owned());
    assert_eq!(b.remote_name, "origin");
    assert_eq!(b.remote_url, "matrix://example.org/myrepo");
    b.remote_name("upstream".to_owned());
    assert_eq!(b.remote_name, "upstream");
}

#[test]
fn session_builder_keeps_fields() {
    let b = Builder::new("https://example.org".to_owned(), "#myrepo:example.org".to_owned());
    assert_eq!(b.url, "https://example.org");
    assert_eq!(b.room, "#myrepo:example.org");
}

#[test]
fn complete_credentials_authenticate() {
    let creds = StoredCredentials {
        url: Some("https://stored.example".to_owned()),
        username: Some("@user:example.org".to_owned()),
        access_token: Some("SECRET-REDACTED".to_owned()),
        device_id: Some("DEVICE1".to_owned()),
    };
    match plan_session(creds, "https://fallback.example".to_owned()) {
        SessionPlan::Authenticated { homeserver_url, username, access_token, device_id } => {
            assert_eq!(homeserver_url, "https://stored.example");
            assert_eq!(username, "@user:example.org");
            assert_eq!(access_token, "SECRET-REDACTED");
            assert_eq!(device_id, "DEVICE1");
        }
        _ => panic!("expected an authenticated session"),
    }
}

#[test]
fn missing_credential_falls_back_to_guest() {
    let creds = StoredCredentials {
        url: Some("https://stored.example".to_owned()),
        username: None,
        access_token: Some("SECRET-REDACTED".to_owned()),
        device_id: Some("DEVICE1".to_owned()),
    };
    match plan_session(creds, "https://fallback.example".to_owned()) {
        SessionPlan::Guest { homeserver_url } => {
            assert_eq!(homeserver_url, "https://fallback.example");
        }
        _ => panic!("expected a guest session"),
    }
}

#[test]
fn wholly_missing_credentials_fall_back_to_guest() {
    let creds = StoredCredentials { url: None, username: None, access_token: None, device_id: None };
    match plan_session(creds, "https://example.org".to_owned()) {
        SessionPlan::Guest { homeserver_url } => assert_eq!(homeserver_url, "https://example.org"),
        _ => panic!("expected a guest session"),
    }
}
