use enchiridion::database::StoreError;
use enchiridion::features::auth::{
    access_token_claims, change_password_lookup_error, check_login, check_old_password,
    check_token_expiry, claim_user_id, claim_value, confirmation_email, confirmation_lookup_error,
    decode_token, email_confirmation_request, generate_access_token, generate_user_token,
    hash_new_password, login_lookup_error, logout_lookup_error, register_error, seed_lookup,
    sign_token, user_lookup_error, user_token_claims, AuthError, AuthErrorCode, AuthenticateError,
    ChangePasswordError, SeedDefaultUserError, UserRecord, register_body_errors, RegisterBody,
    change_password_body_errors, confirm_email_body_errors, ChangePasswordBody, ConfirmEmailBody,
    refresh_token_key, register_insert, issue_login_tokens, RegisterParams, access_token_issued_at,
    user_token_issued_at, decode_token_at,
};
use enchiridion::time::Timestamp;

fn pairs(items: &[(&str, &str)]) -> Vec<(String, String)> {
    items.iter().map(|(k, v)| (k.to_string(), v.to_string())).collect()
}

fn user(password: Vec<u8>, confirmed: bool, rejected: bool) -> UserRecord {
    UserRecord {
        id: 3,
        email: "jane@example.com".to_string(),
        password,
        is_email_confirmed: confirmed,
        is_rejected: rejected,
    }
}

#[test]
fn auth_error_codes_are_written_in_upper_snake_case() {
    assert_eq!(AuthErrorCode::AuthenticationFailed.to_string(), "AUTHENTICATION_FAILED");
    assert_eq!(AuthErrorCode::TokenExpired.to_string(), "TOKEN_EXPIRED");
    assert_eq!(AuthErrorCode::UserInvalidOldPassword.to_string(), "USER_INVALID_OLD_PASSWORD");
    assert_eq!(AuthErrorCode::ForbiddenPermission.to_string(), "FORBIDDEN_PERMISSION");
    assert_eq!(AuthErrorCode::InternalServerError.to_string(), "INTERNAL_SERVER_ERROR");
}

#[test]
fn auth_errors_show_their_message() {
    assert_eq!(AuthError::RoleNotFound("Role not found".to_string()).to_string(), "Role not found");
    assert_eq!(AuthError::InternalServerError.to_string(), "Internal Server Error");
    assert_eq!(ChangePasswordError::UserNotFound("gone").to_string(), "gone");
    assert_eq!(ChangePasswordError::InternalServerError.to_string(), "Internal Server Error");
    assert_eq!(SeedDefaultUserError::EmailAlreadyExists("taken").to_string(), "taken");
    assert_eq!(AuthenticateError::ForbiddenPermission("no").to_string(), "no");
    assert_eq!(AuthenticateError::InternalServerError.to_string(), "Internal Server Error");
}

#[test]
fn access_token_claims_hold_user_role_status_and_times() {
    let claims = access_token_claims(7, 2, "approved", 1000, 60);
    assert_eq!(
        claims,
        pairs(&[
            ("user_id", "7"),
            ("role_id", "2"),
            ("status", "approved"),
            ("iat", "1000"),
            ("exp", "1060"),
        ])
    );
    let claims = user_token_claims(-4, 1000, 0);
    assert_eq!(claims, pairs(&[("user_id", "-4"), ("iat", "1000"), ("exp", "1000")]));
}

#[test]
fn claim_value_takes_the_last_pair_with_the_name() {
    let claims = pairs(&[("a", "1"), ("b", "2"), ("a", "3")]);
    assert_eq!(claim_value(&claims, "a"), Some("3".to_string()));
    assert_eq!(claim_value(&claims, "b"), Some("2".to_string()));
    assert_eq!(claim_value(&claims, "c"), None);
}

#[test]
fn token_expiry_is_checked_against_the_clock() {
    let claims = pairs(&[("user_id", "1"), ("exp", "2000")]);
    assert!(check_token_expiry(&claims, Timestamp { secs: 1999, nanos: 999_999_999 }).is_ok());
    match check_token_expiry(&claims, Timestamp { secs: 2000, nanos: 0 }) {
        Err(AuthError::TokenExpired(m)) => {
            assert_eq!(m, "Token is already expired, please send a new confirmation email")
        }
        other => panic!("unexpected {:?}", other),
    }
    let bad = pairs(&[("exp", "soon")]);
    match check_token_expiry(&bad, Timestamp { secs: 0, nanos: 0 }) {
        Err(AuthError::TokenInvalid(m)) => assert_eq!(m, "Authorization failed, token is invalid"),
        other => panic!("unexpected {:?}", other),
    }
    let missing = pairs(&[("user_id", "1")]);
    assert!(matches!(
        check_token_expiry(&missing, Timestamp { secs: 0, nanos: 0 }),
        Err(AuthError::InternalServerError)
    ));
    let far = pairs(&[("exp", "9000000000000000")]);
    assert!(matches!(
        check_token_expiry(&far, Timestamp { secs: 0, nanos: 0 }),
        Err(AuthError::InternalServerError)
    ));
}

#[test]
fn issued_access_token_reads_back_with_its_user() {
    let token = generate_access_token("access-secret", 7, 2, "approved", 3600).unwrap();
    let claims = decode_token("access-secret", &token).unwrap();
    assert_eq!(claim_user_id(&claims).unwrap(), 7);
    assert_eq!(claim_value(&claims, "role_id"), Some("2".to_string()));
    assert_eq!(claim_value(&claims, "status"), Some("approved".to_string()));
}

#[test]
fn token_signed_with_another_secret_is_invalid() {
    let token = generate_user_token("refresh-secret", 9, 3600).unwrap();
    match decode_token("other-secret", &token) {
        Err(AuthError::TokenInvalid(m)) => assert_eq!(m, "Authorization failed, token is invalid"),
        other => panic!("unexpected {:?}", other),
    }
    match decode_token("refresh-secret", "not.a.token") {
        Err(AuthError::TokenInvalid(_)) => {}
        other => panic!("unexpected {:?}", other),
    }
}

#[test]
fn expired_token_is_refused() {
    let token = generate_user_token("refresh-secret", 9, -10).unwrap();
    match decode_token("refresh-secret", &token) {
        Err(AuthError::TokenExpired(m)) => {
            assert_eq!(m, "Token is already expired, please send a new confirmation email")
        }
        other => panic!("unexpected {:?}", other),
    }
}

#[test]
fn signed_tokens_have_three_parts() {
    let token = sign_token("s", &pairs(&[("user_id", "1")])).unwrap();
    assert_eq!(token.split('.').count(), 3);
    assert_ne!(token, "user_id");
}

#[test]
fn claim_user_id_needs_a_decimal_user() {
    assert_eq!(claim_user_id(&pairs(&[("user_id", "42")])).unwrap(), 42);
    assert!(matches!(claim_user_id(&pairs(&[("user_id", "x")])), Err(AuthError::InternalServerError)));
    assert!(matches!(claim_user_id(&pairs(&[])), Err(AuthError::InternalServerError)));
}

#[test]
fn registered_password_logs_in_and_others_do_not() {
    let phc = hash_new_password("password123", "c2FsdHNhbHRzYWx0").unwrap();
    assert!(phc.starts_with("$argon2"));
    assert_ne!(phc, "password123");
    let stored = phc.clone().into_bytes();
    assert!(check_login(&user(stored.clone(), true, false), "password123").is_ok());
    match check_login(&user(stored.clone(), true, false), "wrong-password") {
        Err(AuthError::AuthenticationFailed(m)) => {
            assert_eq!(m, "Authentication failed, Invalid email or password")
        }
        other => panic!("unexpected {:?}", other),
    }
    match check_login(&user(stored.clone(), false, false), "password123") {
        Err(AuthError::UserNotVerified(m)) => assert_eq!(m, "Email is not confirmed yet"),
        other => panic!("unexpected {:?}", other),
    }
    match check_login(&user(stored, true, true), "password123") {
        Err(AuthError::UserNotVerified(m)) => assert_eq!(m, "User registration is rejected by admin"),
        other => panic!("unexpected {:?}", other),
    }
    assert!(matches!(
        check_login(&user(b"not a hash".to_vec(), true, false), "password123"),
        Err(AuthError::InternalServerError)
    ));
    assert!(matches!(
        check_login(&user(vec![0xff, 0xfe], true, false), "password123"),
        Err(AuthError::InternalServerError)
    ));
}

#[test]
fn too_short_salt_is_an_internal_error() {
    assert!(matches!(hash_new_password("password123", "abc"), Err(AuthError::InternalServerError)));
}

#[test]
fn old_password_must_match_to_change_it() {
    let phc = hash_new_password("old-password", "c2FsdHNhbHRzYWx0").unwrap().into_bytes();
    assert!(check_old_password(&phc, "old-password").is_ok());
    match check_old_password(&phc, "new-password") {
        Err(ChangePasswordError::UserInvalidOldPassword(m)) => {
            assert_eq!(m, "Unable to change password due to invalid old password")
        }
        other => panic!("unexpected {:?}", other),
    }
    assert!(matches!(
        check_old_password(&b"plain text".to_vec(), "old-password"),
        Err(ChangePasswordError::InternalServerError)
    ));
}

#[test]
fn failed_queries_map_to_auth_errors() {
    let unique = StoreError::Database(Some("23505".to_string()));
    let fk = StoreError::Database(Some("23503".to_string()));
    match register_error(&unique) {
        AuthError::EmailAlreadyExists(m) => assert_eq!(m, "Email is already registered in our system"),
        other => panic!("unexpected {:?}", other),
    }
    match register_error(&fk) {
        AuthError::RoleNotFound(m) => assert_eq!(m, "Role not found"),
        other => panic!("unexpected {:?}", other),
    }
    assert!(matches!(register_error(&StoreError::Other), AuthError::InternalServerError));
    match login_lookup_error(&StoreError::RowNotFound) {
        AuthError::AuthenticationFailed(m) => {
            assert_eq!(m, "Authentication failed, Invalid email or password")
        }
        other => panic!("unexpected {:?}", other),
    }
    assert!(matches!(login_lookup_error(&StoreError::Other), AuthError::InternalServerError));
    match user_lookup_error(&StoreError::RowNotFound) {
        AuthError::UserNotFound(m) => assert_eq!(m, "User not found"),
        other => panic!("unexpected {:?}", other),
    }
    match confirmation_lookup_error(&StoreError::RowNotFound) {
        AuthError::UserNotFound(m) => assert_eq!(m, "User with the given email was not found"),
        other => panic!("unexpected {:?}", other),
    }
    match logout_lookup_error(&StoreError::Other) {
        AuthError::UserNotFound(m) => assert_eq!(m, "User with the given id is not found"),
        other => panic!("unexpected {:?}", other),
    }
    assert!(matches!(
        change_password_lookup_error(&StoreError::RowNotFound),
        ChangePasswordError::UserNotFound("Unable to find user in the system")
    ));
    assert!(matches!(change_password_lookup_error(&fk), ChangePasswordError::InternalServerError));
}

#[test]
fn default_user_is_seeded_only_when_missing() {
    assert!(seed_lookup(&Err(StoreError::RowNotFound)).is_ok());
    assert!(matches!(
        seed_lookup(&Ok(())),
        Err(SeedDefaultUserError::EmailAlreadyExists("Default user already exists"))
    ));
    assert!(matches!(seed_lookup(&Err(StoreError::Other)), Err(SeedDefaultUserError::InternalServerError)));
}

#[test]
fn confirmation_email_links_to_the_dashboard() {
    let email = confirmation_email("https://dash.example.com", "jane@example.com".to_string(), "abc");
    assert_eq!(email.from, "Enchiridion <noreply@stevenhansel.com>");
    assert_eq!(email.to, "jane@example.com");
    assert_eq!(email.subject, "[Enchiridion] Please confirm your email address");
    assert_eq!(
        email.html,
        "<p>Please confirm your email address by clicking this <a href=\"https://dash.example.com/verification?token=abc\">link</a>"
    );
}

#[test]
fn confirmation_request_refuses_confirmed_users() {
    match email_confirmation_request(&user(vec![], true, false), "s", 60, "https://d") {
        Err(AuthError::EmailAlreadyConfirmed(m)) => assert_eq!(m, "The email is already confirmed"),
        other => panic!("unexpected {:?}", other),
    }
    let email = email_confirmation_request(&user(vec![], false, false), "s", 60, "https://d").unwrap();
    assert_eq!(email.to, "jane@example.com");
    assert_eq!(email.from, "Enchiridion <noreply@stevenhansel.com>");
    assert_eq!(email.subject, "[Enchiridion] Please confirm your email address");
    let prefix = "<p>Please confirm your email address by clicking this <a href=\"https://d/verification?token=";
    assert!(email.html.starts_with(prefix));
    let token = email.html[prefix.len()..].trim_end_matches("\">link</a>").to_string();
    let claims = decode_token("s", &token).unwrap();
    assert_eq!(claim_user_id(&claims).unwrap(), 3);
}

#[test]
fn registration_bodies_are_checked() {
    let body = RegisterBody {
        name: "Jane".to_string(),
        email: "jane@example.com".to_string(),
        password: "12345678".to_string(),
        reason: None,
        role: "lsc".to_string(),
        building_id: 1,
    };
    assert!(register_body_errors(&body).is_empty());
    let body = RegisterBody { name: String::new(), email: "jane.example.com".to_string(), password: "1234567".to_string(), ..body };
    assert_eq!(
        register_body_errors(&body),
        vec![
            "name: Name must not be empty",
            "email: Must be a valid email address",
            "password: Password must have at least 8 characters"
        ]
    );
}

#[test]
fn password_change_and_confirmation_bodies_are_checked() {
    let b = ChangePasswordBody { old_password: "short".to_string(), new_password: "long enough".to_string() };
    assert_eq!(change_password_body_errors(&b), vec!["password: Password must have at least 8 characters"]);
    let b = ChangePasswordBody { old_password: "short".to_string(), new_password: "tiny".to_string() };
    assert_eq!(change_password_body_errors(&b).len(), 2);
    assert_eq!(confirm_email_body_errors(&ConfirmEmailBody { token: String::new() }), vec!["token: Token must be a valid string"]);
    assert!(confirm_email_body_errors(&ConfirmEmailBody { token: "t".to_string() }).is_empty());
}

#[test]
fn refresh_tokens_are_cached_per_user() {
    assert_eq!(refresh_token_key(12), "auth/refresh_token_12");
}

#[test]
fn registration_stores_the_hash() {
    let params = RegisterParams {
        name: "Jane".to_string(),
        email: "jane@example.com".to_string(),
        password: "12345678".to_string(),
        reason: Some("teacher".to_string()),
        role_id: 2,
    };
    let row = register_insert(params, "secretsecretsecretsecret").unwrap();
    assert_eq!(row.name, "Jane");
    assert_eq!(row.email, "jane@example.com");
    assert_eq!(row.registration_reason, Some("teacher".to_string()));
    assert_eq!(row.role_id, 2);
    assert!(row.password.starts_with("$argon2id$"));
    assert_ne!(row.password, "12345678");
    let params = RegisterParams {
        name: "Jane".to_string(),
        email: "jane@example.com".to_string(),
        password: "12345678".to_string(),
        reason: None,
        role_id: 2,
    };
    assert!(matches!(register_insert(params, "abc"), Err(AuthError::InternalServerError)));
}

#[test]
fn login_hands_out_both_tokens() {
    let (access, refresh) = issue_login_tokens("a", "r", 5, 1, "approved", 3, 60, 120).unwrap();
    let claims = decode_token("a", &access).unwrap();
    assert_eq!(claim_value(&claims, "user_id").unwrap(), "5");
    assert_eq!(claim_value(&claims, "role_id").unwrap(), "1");
    assert_eq!(claim_value(&claims, "status").unwrap(), "approved");
    let claims = decode_token("r", &refresh).unwrap();
    assert_eq!(claim_user_id(&claims).unwrap(), 3);
    assert!(decode_token("a", &refresh).is_err());
}

#[test]
fn tokens_issued_at_an_instant_read_back_until_expiry() {
    let token = access_token_issued_at("k", 7, 2, "approved", 1_000, 60).unwrap();
    let claims = decode_token_at("k", &token, Timestamp { secs: 1_059, nanos: 999_999_999 }).unwrap();
    assert_eq!(claim_value(&claims, "iat").unwrap(), "1000");
    assert_eq!(claim_value(&claims, "exp").unwrap(), "1060");
    assert_eq!(claim_value(&claims, "user_id").unwrap(), "7");
    match decode_token_at("k", &token, Timestamp { secs: 1_060, nanos: 0 }) {
        Err(AuthError::TokenExpired(m)) => {
            assert_eq!(m, "Token is already expired, please send a new confirmation email")
        },
        other => panic!("unexpected {:?}", other),
    }
    assert!(matches!(
        decode_token_at("other", &token, Timestamp { secs: 1_000, nanos: 0 }),
        Err(AuthError::TokenInvalid(_))
    ));
    let token = user_token_issued_at("r", 9, 50, 10).unwrap();
    let claims = decode_token_at("r", &token, Timestamp { secs: 55, nanos: 0 }).unwrap();
    assert_eq!(claim_user_id(&claims).unwrap(), 9);
    assert!(matches!(
        user_token_issued_at("r", 9, 8_210_266_876_799, 10),
        Err(AuthError::InternalServerError)
    ));
    assert!(matches!(
        access_token_issued_at("k", 1, 1, "approved", 8_210_266_876_799, 1),
        Err(AuthError::InternalServerError)
    ));
}
