use monitor_core::auth::{
    auth_request, constant_time_eq, presented, Credential, Directory, LoginSecret, Presented,
    TokenClaims, UserRecord,
};
use monitor_core::error::{ApiError, ErrorKind, Failure};
use monitor_core::permission::RequestUser;

fn directory() -> Directory {
    let mut d = Directory::new();
    assert!(d.add_user(UserRecord { id: "root".to_string(), is_admin: true, enabled: true }));
    assert!(d.add_user(UserRecord { id: "ann".to_string(), is_admin: false, enabled: true }));
    assert!(d.add_user(UserRecord { id: "off".to_string(), is_admin: false, enabled: false }));
    assert!(d.open_session("s-root".to_string(), "root".to_string()));
    assert!(d.open_session("s-ann".to_string(), "ann".to_string()));
    assert!(d.open_session("s-off".to_string(), "off".to_string()));
    assert!(d.add_secret(LoginSecret {
        user_id: "ann".to_string(),
        name: "ci".to_string(),
        key: "K-ann".to_string(),
        hash: vec![1, 2, 3, 4],
        expires_at: Some(2000),
    }));
    assert!(d.add_secret(LoginSecret {
        user_id: "off".to_string(),
        name: "ci".to_string(),
        key: "K-off".to_string(),
        hash: vec![9],
        expires_at: None,
    }));
    d
}

fn token(session: &str, user: &str, expires_at: i64, signature_valid: bool) -> Credential {
    Credential::Bearer {
        claims: TokenClaims {
            session_id: session.to_string(),
            user_id: user.to_string(),
            expires_at,
        },
        signature_valid,
    }
}

fn key(key: &str, hash: &[u8]) -> Credential {
    Credential::ApiKey { key: key.to_string(), secret_hash: hash.to_vec() }
}

fn reason(r: Result<RequestUser, ApiError>) -> String {
    let e = r.unwrap_err();
    assert_eq!(e.kind(), ErrorKind::Unauthenticated);
    assert_eq!(e.status_code(), 401);
    assert!(e.trace.is_empty());
    match e.failure {
        Failure::Unauthenticated { reason } => reason,
        other => panic!("not a refusal: {other:?}"),
    }
}

#[test]
fn a_valid_token_makes_its_user() {
    let d = directory();
    assert_eq!(
        auth_request(&d, &token("s-ann", "ann", 1000, true), 999),
        Ok(RequestUser { id: "ann".to_string(), is_admin: false, enabled: true })
    );
    assert_eq!(
        auth_request(&d, &token("s-root", "root", 1000, true), 0),
        Ok(RequestUser { id: "root".to_string(), is_admin: true, enabled: true })
    );
}

#[test]
fn nothing_presented_is_refused() {
    assert_eq!(reason(auth_request(&directory(), &Credential::Missing, 0)), "no credential");
}

#[test]
fn a_token_with_a_bad_signature_is_refused() {
    let d = directory();
    assert_eq!(reason(auth_request(&d, &token("s-ann", "ann", 1000, false), 0)), "invalid token");
}

#[test]
fn a_token_expires_at_its_time() {
    let d = directory();
    assert!(auth_request(&d, &token("s-ann", "ann", 1000, true), 999).is_ok());
    assert_eq!(reason(auth_request(&d, &token("s-ann", "ann", 1000, true), 1000)), "token expired");
    assert_eq!(reason(auth_request(&d, &token("s-ann", "ann", 1000, true), 5000)), "token expired");
}

#[test]
fn a_token_needs_its_session() {
    let d = directory();
    assert_eq!(reason(auth_request(&d, &token("s-zed", "ann", 1000, true), 0)), "unknown session");
    assert_eq!(reason(auth_request(&d, &token("s-root", "ann", 1000, true), 0)), "unknown session");
}

#[test]
fn a_revoked_session_makes_its_tokens_worthless() {
    let mut d = directory();
    assert!(d.revoke_session(&"s-ann".to_string()));
    assert!(!d.revoke_session(&"s-zed".to_string()));
    assert_eq!(reason(auth_request(&d, &token("s-ann", "ann", 1000, true), 0)), "session revoked");
    assert!(auth_request(&d, &token("s-root", "root", 1000, true), 0).is_ok());
}

#[test]
fn a_disabled_user_is_refused_whatever_it_presents() {
    let mut d = directory();
    assert_eq!(reason(auth_request(&d, &token("s-off", "off", 1000, true), 0)), "user is disabled");
    assert_eq!(reason(auth_request(&d, &key("K-off", &[9]), 0)), "user is disabled");
    assert!(d.set_enabled(&"off".to_string(), true));
    assert!(auth_request(&d, &token("s-off", "off", 1000, true), 0).is_ok());
    assert!(d.set_enabled(&"ann".to_string(), false));
    assert_eq!(reason(auth_request(&d, &token("s-ann", "ann", 1000, true), 0)), "user is disabled");
    assert!(!d.set_enabled(&"zed".to_string(), true));
}

#[test]
fn a_key_with_the_right_secret_makes_its_user() {
    let d = directory();
    assert_eq!(
        auth_request(&d, &key("K-ann", &[1, 2, 3, 4]), 1999),
        Ok(RequestUser { id: "ann".to_string(), is_admin: false, enabled: true })
    );
}

#[test]
fn a_key_with_the_wrong_secret_is_refused() {
    let d = directory();
    assert_eq!(reason(auth_request(&d, &key("K-ann", &[1, 2, 3, 5]), 0)), "invalid api secret");
    assert_eq!(reason(auth_request(&d, &key("K-ann", &[1, 2, 3]), 0)), "invalid api secret");
    assert_eq!(reason(auth_request(&d, &key("K-zed", &[1, 2, 3, 4]), 0)), "unknown api key");
}

#[test]
fn a_secret_expires_at_its_time() {
    let d = directory();
    assert_eq!(reason(auth_request(&d, &key("K-ann", &[1, 2, 3, 4]), 2000)), "api secret expired");
}

#[test]
fn a_session_of_an_unknown_user_is_refused() {
    let mut d = Directory::new();
    assert!(d.open_session("s".to_string(), "ghost".to_string()));
    assert_eq!(reason(auth_request(&d, &token("s", "ghost", 10, true), 0)), "unknown user");
}

#[test]
fn ids_and_keys_are_taken_once() {
    let mut d = directory();
    assert!(!d.add_user(UserRecord { id: "ann".to_string(), is_admin: true, enabled: true }));
    assert_eq!(
        auth_request(&d, &token("s-ann", "ann", 1000, true), 0).unwrap().is_admin,
        false
    );
    assert!(!d.open_session("s-ann".to_string(), "root".to_string()));
    assert!(d.knows(&"ann".to_string()));
    assert!(!d.knows(&"zed".to_string()));
    let secret = |user: &str, name: &str, key: &str| LoginSecret {
        user_id: user.to_string(),
        name: name.to_string(),
        key: key.to_string(),
        hash: vec![],
        expires_at: None,
    };
    assert!(!d.add_secret(secret("root", "x", "K-ann")));
    assert!(!d.add_secret(secret("ann", "ci", "K-new")));
    assert!(d.add_secret(secret("root", "ci", "K-root")));
    assert!(d.has_secret(&"root".to_string(), &"ci".to_string()));
    assert!(d.remove_secret(&"root".to_string(), &"ci".to_string()));
    assert!(!d.remove_secret(&"root".to_string(), &"ci".to_string()));
    assert!(!d.has_secret(&"root".to_string(), &"ci".to_string()));
    assert!(d.has_secret(&"ann".to_string(), &"ci".to_string()));
}

#[test]
fn byte_strings_are_compared_in_full() {
    assert!(constant_time_eq(&vec![], &vec![]));
    assert!(constant_time_eq(&vec![0, 255, 7], &vec![0, 255, 7]));
    assert!(!constant_time_eq(&vec![0, 255, 7], &vec![0, 255, 8]));
    assert!(!constant_time_eq(&vec![1, 255, 7], &vec![0, 255, 7]));
    assert!(!constant_time_eq(&vec![0, 255], &vec![0, 255, 7]));
    assert!(!constant_time_eq(&vec![1, 2], &vec![2, 1]));
}

#[test]
fn a_token_goes_before_a_key() {
    let s = |t: &str| Some(t.to_string());
    assert_eq!(presented(s("jwt"), s("k"), s("s")), Presented::Token { token: "jwt".to_string() });
    assert_eq!(
        presented(None, s("k"), s("s")),
        Presented::KeyAndSecret { key: "k".to_string(), secret: "s".to_string() }
    );
    assert_eq!(presented(None, s("k"), None), Presented::Nothing);
    assert_eq!(presented(None, None, s("s")), Presented::Nothing);
    assert_eq!(presented(None, None, None), Presented::Nothing);
}

#[test]
fn claims_survive_the_wire() {
    let claims =
        TokenClaims { session_id: "s-ann".to_string(), user_id: "ann".to_string(), expires_at: -7 };
    let document = claims.to_json();
    assert_eq!(
        document,
        monitor_core::json::Json::Object(vec![
            ("session_id".to_string(), monitor_core::json::Json::Str("s-ann".to_string())),
            ("user_id".to_string(), monitor_core::json::Json::Str("ann".to_string())),
            ("expires_at".to_string(), monitor_core::json::Json::Int(-7)),
        ])
    );
    assert_eq!(TokenClaims::from_json(&document), Some(claims));
    assert_eq!(TokenClaims::from_json(&monitor_core::json::Json::Null), None);
    assert_eq!(
        TokenClaims::from_json(&monitor_core::json::Json::Object(vec![(
            "session_id".to_string(),
            monitor_core::json::Json::Str("s".to_string())
        )])),
        None
    );
}
