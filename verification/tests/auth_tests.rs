use bitwarden_rs::config::{bind_address, database_path, jwt_secret};
use bitwarden_rs::api::{DbError, STATUS_UNAUTHORIZED};
use bitwarden_rs::auth::{
    authenticate, authenticated_user, basic_auth_ok, bearer_token, body_unparsable, body_unreadable,
    login_account, login_body_format, login_lookup, login_response, normalize_email, prelogin_response,
    refresh_grant, registration_check, registration_failed, token_error, two_factor_activated,
    two_factor_deactivated, two_factor_status, AuthDecision, BodyFormat, Claims, LoginLookup, TokenCheck,
    UserId, TOKEN_LIFETIME_SECS,
};
use bitwarden_rs::models::{Account, KeyPair, LoginRequest, Profile};

fn account(secret: &str) -> Account {
    Account {
        id: "u1".to_string(),
        name: "Alice".to_string(),
        email: "alice@example.com".to_string(),
        master_password_hash: "HASH".to_string(),
        master_password_hint: "".to_string(),
        key: "K".to_string(),
        keys: KeyPair { encrypted_private_key: "PRIV".to_string(), public_key: "PUB".to_string() },
        refresh_token: "RT".to_string(),
        two_factor_secret: secret.to_string(),
        security_stamp: "S".to_string(),
        kdf: 0,
        kdf_iterations: 5000,
    }
}

fn request(grant: Option<&str>, user: Option<&str>, pw: Option<&str>, rt: Option<&str>) -> LoginRequest {
    LoginRequest {
        grant_type: grant.map(|s| s.to_string()),
        username: user.map(|s| s.to_string()),
        password: pw.map(|s| s.to_string()),
        refresh_token: rt.map(|s| s.to_string()),
        device: None,
    }
}

fn db_err(msg: &str) -> DbError {
    DbError { message: msg.to_string() }
}

#[test]
fn claims_expire_after_an_hour() {
    let c = Claims::issue("u1", "a@b.c", 1_700_000_000);
    assert_eq!(c.sub, "u1");
    assert_eq!(c.email, "a@b.c");
    assert_eq!(c.iat, 1_700_000_000);
    assert_eq!(c.exp, 1_700_003_600);
    assert_eq!(TOKEN_LIFETIME_SECS, 3600);
}

#[test]
fn bearer_prefix_is_stripped() {
    assert_eq!(bearer_token(Some("Bearer abc.def")), Some("abc.def"));
    assert_eq!(bearer_token(Some("Bearer ")), Some(""));
    assert_eq!(bearer_token(Some("bearer abc")), None);
    assert_eq!(bearer_token(Some("Basic abc")), None);
    assert_eq!(bearer_token(None), None);
}

#[test]
fn authentication_decisions() {
    let claims = Claims::issue("user-7", "x@y.z", 10);
    match authenticate(TokenCheck::Valid(claims)) {
        AuthDecision::Proceed(UserId(id)) => assert_eq!(id, "user-7"),
        AuthDecision::Reject(_) => panic!("valid token rejected"),
    }
    match authenticate(TokenCheck::Invalid) {
        AuthDecision::Reject(e) => {
            assert_eq!(e.status, 401);
            assert_eq!(e.body.error, "invalid_token");
            assert_eq!(e.body.error_description, "Invalid or expired token");
        }
        AuthDecision::Proceed(_) => panic!("invalid token accepted"),
    }
    match authenticate(TokenCheck::Missing) {
        AuthDecision::Reject(e) => {
            assert_eq!(e.status, STATUS_UNAUTHORIZED);
            assert_eq!(e.body.error, "unauthorized");
            assert_eq!(e.body.error_description, "Missing or invalid authorization header");
        }
        AuthDecision::Proceed(_) => panic!("missing token accepted"),
    }
}

#[test]
fn handler_user_extraction() {
    let u = authenticated_user(Some(UserId("u9".to_string())), None).unwrap();
    assert_eq!(u.0, "u9");
    let e = authenticated_user(None, Some("Bearer t")).unwrap_err();
    assert_eq!(e.body.error_description, "Authentication required");
    let e = authenticated_user(None, Some("Token t")).unwrap_err();
    assert_eq!(e.body.error_description, "Missing authorization header");
    let e = authenticated_user(None, None).unwrap_err();
    assert_eq!(e.status, 401);
    assert_eq!(e.body.error, "unauthorized");
}

#[test]
fn admin_basic_auth() {
    assert!(basic_auth_ok(Some("Basic YWRtaW46YWRtaW4=")));
    assert!(!basic_auth_ok(Some("Basic YWRtaW46d3Jvbmc=")));
    assert!(!basic_auth_ok(Some("Bearer YWRtaW46YWRtaW4=")));
    assert!(!basic_auth_ok(Some("Basic not base64!")));
    assert!(!basic_auth_ok(Some("Basic YWRtaW46YWRtaW4")));
    assert!(!basic_auth_ok(None));
}

#[test]
fn login_body_formats() {
    assert!(matches!(login_body_format("application/json"), BodyFormat::Json));
    assert!(matches!(login_body_format("application/json; charset=utf-8"), BodyFormat::Json));
    assert!(matches!(login_body_format("application/x-www-form-urlencoded"), BodyFormat::Form));
    assert!(matches!(login_body_format(""), BodyFormat::Form));
    let e = body_unparsable(BodyFormat::Json, "eof");
    assert_eq!((e.status, e.body.error.as_str(), e.body.error_description.as_str()), (400, "invalid_json", "Invalid JSON: eof"));
    let e = body_unparsable(BodyFormat::Form, "bad");
    assert_eq!((e.body.error.as_str(), e.body.error_description.as_str()), ("invalid_form", "Invalid form data: bad"));
    let e = body_unreadable();
    assert_eq!((e.status, e.body.error.as_str()), (400, "invalid_request"));
}

#[test]
fn login_lookup_by_grant() {
    assert!(!refresh_grant(&request(None, Some("a@b.c"), Some("p"), None)));
    assert!(refresh_grant(&request(Some("refresh_token"), None, None, Some("r"))));
    match login_lookup(&request(None, Some("a@b.c"), Some("p"), None)) {
        LoginLookup::Email(e) => assert_eq!(e, "a@b.c"),
        LoginLookup::RefreshToken(_) => panic!(),
    }
    match login_lookup(&request(Some("password"), None, None, None)) {
        LoginLookup::Email(e) => assert_eq!(e, ""),
        LoginLookup::RefreshToken(_) => panic!(),
    }
    match login_lookup(&request(Some("refresh_token"), Some("a@b.c"), None, Some("RT"))) {
        LoginLookup::RefreshToken(t) => assert_eq!(t, "RT"),
        LoginLookup::Email(_) => panic!(),
    }
}

#[test]
fn password_grant_checks_stored_hash() {
    let ok = login_account(&request(None, Some("alice@example.com"), Some("HASH"), None), Ok(Some(account(""))));
    assert_eq!(ok.unwrap().id, "u1");
    let bad = login_account(&request(None, Some("alice@example.com"), Some("nope"), None), Ok(Some(account(""))));
    let e = bad.unwrap_err();
    assert_eq!((e.status, e.body.error.as_str()), (400, "invalid_grant"));
    assert_eq!(e.body.error_description, "Username or password is incorrect");
    let missing = login_account(&request(None, Some("x"), Some("HASH"), None), Ok(None)).unwrap_err();
    assert_eq!(missing.body.error_description, "Username or password is incorrect");
    let failed = login_account(&request(None, Some("x"), Some("HASH"), None), Err(db_err("boom"))).unwrap_err();
    assert_eq!((failed.status, failed.body.error.as_str(), failed.body.error_description.as_str()), (500, "db_error", "Database error"));
}

#[test]
fn refresh_grant_ignores_password() {
    let ok = login_account(&request(Some("refresh_token"), None, Some("wrong"), Some("RT")), Ok(Some(account(""))));
    assert!(ok.is_ok());
    let e = login_account(&request(Some("refresh_token"), None, None, Some("RT")), Ok(None)).unwrap_err();
    assert_eq!(e.body.error_description, "Invalid refresh token");
    let e = token_error();
    assert_eq!((e.status, e.body.error.as_str()), (500, "token_error"));
}

#[test]
fn login_response_fields() {
    let r = login_response(account(""), "AT".to_string(), "NEWRT".to_string());
    assert_eq!(r.access_token, "AT");
    assert_eq!(r.expires_in, 3600);
    assert_eq!(r.token_type, "Bearer");
    assert_eq!(r.refresh_token, "NEWRT");
    assert_eq!(r.key.as_deref(), Some("K"));
    assert_eq!(r.private_key.as_deref(), Some("PRIV"));
    assert_eq!(r.kdf, Some(0));
    assert_eq!(r.kdf_iterations, Some(5000));
    assert!(r.kdf_memory.is_none() && r.kdf_parallelism.is_none() && r.two_factor_token.is_none());
    assert_eq!(r.object, "token");
}

#[test]
fn prelogin_defaults_and_known_account() {
    let r = prelogin_response(Ok(None));
    assert_eq!((r.kdf, r.kdf_iterations), (0, 600_000));
    let r = prelogin_response(Err(db_err("x")));
    assert_eq!((r.kdf, r.kdf_iterations), (0, 600_000));
    let r = prelogin_response(Ok(Some(account(""))));
    assert_eq!((r.kdf, r.kdf_iterations), (0, 5000));
}

#[test]
fn registration_rules() {
    assert_eq!(normalize_email("  Alice@Example.COM \n"), "alice@example.com");
    let e = registration_check(Ok(Some(account("")))).unwrap_err();
    assert_eq!((e.status, e.body.error.as_str()), (409, "email_already_exists"));
    assert_eq!(e.body.error_description, "An account with this email already exists.");
    assert!(registration_check(Ok(None)).is_ok());
    assert!(registration_check(Err(db_err("locked"))).is_ok());
    let e = registration_failed(db_err("UNIQUE constraint failed"));
    assert_eq!((e.status, e.body.error.as_str()), (500, "registration_failed"));
    assert_eq!(e.body.error_description, "Failed to create account: UNIQUE constraint failed");
}

#[test]
fn two_factor_status_follows_secret() {
    let on = two_factor_status(Ok("SECRET".to_string()));
    assert!(on.enabled && on.two_factor_providers.unwrap().authenticator);
    assert_eq!(on.object, "twoFactor");
    let off = two_factor_status(Ok(String::new()));
    assert!(!off.enabled && off.two_factor_providers.is_none());
    let failed = two_factor_status(Err(db_err("x")));
    assert!(!failed.enabled);
    assert!(two_factor_activated().enabled);
    assert!(!two_factor_deactivated().enabled);
    assert!(two_factor_deactivated().two_factor_providers.is_none());
}

#[test]
fn profile_agrees_with_two_factor_status() {
    for secret in ["", "S3CRET"] {
        let p = Profile::from_account(account(secret));
        let s = two_factor_status(Ok(secret.to_string()));
        assert_eq!(p.two_factor_enabled, s.enabled);
    }
}

#[test]
fn configuration_priority() {
    let s = |x: &str| Some(x.to_string());
    assert_eq!(database_path(s("a.db"), s("b.db")), "a.db");
    assert_eq!(database_path(None, s("b.db")), "b.db");
    assert_eq!(database_path(None, None), "bitwarden.db");
    assert_eq!(bind_address(s("1.2.3.4:1"), s("5.6.7.8:2"), None, None), "1.2.3.4:1");
    assert_eq!(bind_address(None, s("5.6.7.8:2"), s("h"), s("9")), "5.6.7.8:2");
    assert_eq!(bind_address(None, None, s("127.0.0.1"), None), "127.0.0.1:8080");
    assert_eq!(bind_address(None, None, None, s("3000")), "0.0.0.0:3000");
    assert_eq!(bind_address(None, None, None, None), "0.0.0.0:8080");
    assert_eq!(jwt_secret(s("k"), s("e")).unwrap(), "k");
    assert_eq!(jwt_secret(None, s("e")).unwrap(), "e");
    assert_eq!(jwt_secret(None, None).unwrap().len(), 44);
}

#[test]
fn admin_credentials_and_unicode_trimming() {
    assert!(bitwarden_rs::auth::is_admin_credentials(b"admin:admin"));
    assert!(!bitwarden_rs::auth::is_admin_credentials(b"admin:admin "));
    assert!(!basic_auth_ok(Some("Basic YWRtaW46YWRtaW4= ")));
    assert_eq!(normalize_email("\u{3000}Bob@Example.ORG\u{a0}\u{85}"), "bob@example.org");
    assert_eq!(normalize_email("\u{2003}\t\n"), "");
}
