use gameup::auth::{bearer_token, hash_password, login, register, AuthFailure, UserRecord, TOKEN_LIFETIME_SECS};

#[test]
fn registered_user_logs_in() {
    let rec = register("alice".to_string(), "s3cret").unwrap();
    assert_eq!(rec.username, "alice");
    assert_eq!(rec.role, "user");
    let claims = login("s3cret", Some(rec), 1_700_000_000).unwrap();
    assert_eq!(claims.sub, "alice");
    assert_eq!(claims.role, "user");
    assert_eq!(claims.exp, 1_700_000_000 + 3600);
}

#[test]
fn wrong_password_is_unauthorized() {
    let rec = register("bob".to_string(), "right").unwrap();
    assert_eq!(login("wrong", Some(rec), 10).err(), Some(AuthFailure::Unauthorized));
}

#[test]
fn unknown_user_is_unauthorized() {
    assert_eq!(login("anything", None, 10).err(), Some(AuthFailure::Unauthorized));
    assert_eq!(AuthFailure::Unauthorized.status(), 401);
}

#[test]
fn unparsable_stored_hash_is_internal_error() {
    let rec = UserRecord {
        username: "carol".to_string(),
        password_hash: "not a phc string".to_string(),
        role: "admin".to_string(),
    };
    assert_eq!(login("pw", Some(rec), 10).err(), Some(AuthFailure::Internal));
    assert_eq!(AuthFailure::Internal.status(), 500);
}

#[test]
fn stored_role_is_carried_into_the_claims() {
    let phc = hash_password("asd").unwrap();
    assert_ne!(phc, "asd");
    assert!(phc.starts_with("$argon2id$"));
    let rec = UserRecord { username: "asd".to_string(), password_hash: phc, role: "admin".to_string() };
    let claims = login("asd", Some(rec), 0).unwrap();
    assert_eq!(claims.role, "admin");
    assert_eq!(claims.exp, TOKEN_LIFETIME_SECS);
}

#[test]
fn bearer_header_gives_its_token() {
    assert_eq!(bearer_token("Bearer abc.def.ghi"), Some("abc.def.ghi"));
    assert_eq!(bearer_token("Bearer "), Some(""));
    assert_eq!(bearer_token("bearer abc"), None);
    assert_eq!(bearer_token("Basic dXNlcjpwdw=="), None);
    assert_eq!(bearer_token("Bearer"), None);
    assert_eq!(bearer_token(""), None);
}

#[test]
fn admin_account_logs_in_as_admin() {
    let rec = gameup::auth::admin_account();
    assert_eq!(rec.username, "asd");
    assert_eq!(rec.role, "admin");
    let claims = login("asd", Some(rec), 100).unwrap();
    assert_eq!(claims.sub, "asd");
    assert_eq!(claims.role, "admin");
}
