use realtime_svg::user_data::{verify_user_password, UserData};

const SALT: &str = "c29tZXNhbHRzb21lc2FsdA";

#[test]
fn password_hash_is_a_phc_string() {
    let user = UserData::create("secret", SALT).unwrap();
    assert!(user.password_argon2.starts_with("$argon2"));
    assert_ne!(user.password_argon2, "secret");
}

#[test]
fn matching_password_verifies() {
    let user = UserData::create("secret", SALT).unwrap();
    assert_eq!(verify_user_password(&user, "secret").unwrap(), true);
}

#[test]
fn wrong_password_does_not_verify() {
    let user = UserData::create("secret", SALT).unwrap();
    assert_eq!(verify_user_password(&user, "other").unwrap(), false);
}

#[test]
fn bad_salt_is_an_error() {
    let err = UserData::create("secret", "!!not-base64!!").unwrap_err();
    assert_eq!(err.status_code(), 500);
}

#[test]
fn malformed_stored_hash_is_an_error() {
    let user = UserData { password_argon2: "not a hash".to_string() };
    let err = verify_user_password(&user, "secret").unwrap_err();
    assert_eq!(err.status_code(), 500);
}
