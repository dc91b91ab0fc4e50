use rust_backend_boilerplate::auth::dto::{Credentials, UserRecord, UserResponse};
use rust_backend_boilerplate::auth::error::AuthError;
use rust_backend_boilerplate::auth::service::{
    current_user, login_outcome, AuthService, InsertOutcome,
};

const PASSWORD: &str = "a long test password!";

fn credentials(email: &str, password: &str) -> Credentials {
    Credentials { email: email.to_owned(), password: password.to_owned() }
}

fn record(email: &str, password_hash: String) -> UserRecord {
    UserRecord { id: 7, email: email.to_owned(), password_hash, created_at: 1_700_000_000 }
}

#[test]
fn normalization_trims_and_lowercases_the_email() {
    let normalized = credentials("  TEST@EXAMPLE.COM  ", PASSWORD).normalize().unwrap();
    assert_eq!(normalized.email, "test@example.com");
    assert_eq!(normalized.password, PASSWORD);
    let normalized = credentials("\t\u{3000}Mixed.Case@Example.org\n", "p").normalize().unwrap();
    assert_eq!(normalized.email, "mixed.case@example.org");
}

#[test]
fn canonical_credentials_normalize_to_themselves() {
    let once = credentials("  Someone@Example.COM \t", PASSWORD).normalize().unwrap();
    let twice = credentials(&once.email, &once.password).normalize().unwrap();
    assert_eq!(twice.email, once.email);
    assert_eq!(twice.password, once.password);
}

#[test]
fn normalization_keeps_the_password_verbatim() {
    let normalized = credentials("a@example.com", "  Spaces Stay  ").normalize().unwrap();
    assert_eq!(normalized.password, "  Spaces Stay  ");
}

#[test]
fn validation_identifies_the_field() {
    let invalid_email = AuthError::InvalidInput { field: "email", message: "Invalid email address" };
    assert_eq!(credentials("invalid", PASSWORD).normalize().unwrap_err(), invalid_email);
    assert_eq!(credentials("   ", PASSWORD).normalize().unwrap_err(), invalid_email);
    let long_local = format!("{}@example.com", "a".repeat(243));
    assert_eq!(long_local.len(), 255);
    assert_eq!(credentials(&long_local, PASSWORD).normalize().unwrap_err(), invalid_email);
    let bad_password = AuthError::InvalidInput {
        field: "password",
        message: "Password must contain 1 to 1024 bytes",
    };
    assert_eq!(credentials("a@example.com", "").normalize().unwrap_err(), bad_password);
    assert_eq!(
        credentials("a@example.com", &"é".repeat(513)).normalize().unwrap_err(),
        bad_password
    );
    assert!(credentials("a@example.com", &"é".repeat(512)).normalize().is_ok());
    // The address is checked first.
    assert_eq!(credentials("invalid", "").normalize().unwrap_err(), invalid_email);
}

#[test]
fn registration_rejects_invalid_credentials() {
    let service = AuthService::new(b"stand-in secret");
    assert!(matches!(
        service.register(credentials("invalid", PASSWORD)),
        Err(AuthError::InvalidInput { field: "email", .. })
    ));
    assert_eq!(
        service.register(credentials("test@example.com", "short")).unwrap_err(),
        AuthError::InvalidInput {
            field: "password",
            message: "Password must contain at least 15 characters"
        }
    );
    // Fourteen characters are too few even when they take more bytes.
    assert!(service.register(credentials("test@example.com", &"é".repeat(14))).is_err());
}

#[test]
fn registration_hashes_the_password_and_login_accepts_it() {
    let service = AuthService::new(b"stand-in secret");
    let user = service.register(credentials("  TEST@EXAMPLE.COM  ", PASSWORD)).unwrap();
    assert_eq!(user.email, "test@example.com");
    assert!(user.password_hash.starts_with("$argon2id$"));
    assert_ne!(user.password_hash, PASSWORD);
    let stored = record(&user.email, user.password_hash.clone());
    assert_eq!(service.authenticate(PASSWORD, Some(stored.clone())), (Some(stored.clone()), true));
    assert_eq!(login_outcome(Ok(service.authenticate(PASSWORD, Some(stored.clone())).0)), Ok(stored.clone()));
    assert_eq!(service.authenticate("wrong password", Some(stored)), (None, false));
}

#[test]
fn login_does_not_reveal_whether_an_email_exists() {
    let service = AuthService::new(b"stand-in secret");
    let user = service.register(credentials("test@example.com", PASSWORD)).unwrap();
    let stored = record(&user.email, user.password_hash);
    let wrong = login_outcome(Ok(service.authenticate("wrong password", Some(stored)).0));
    let unknown = login_outcome(Ok(service.authenticate("wrong password", None).0));
    assert_eq!(wrong, unknown);
    assert_eq!(unknown, Err(AuthError::InvalidCredentials));
    // An unknown address is checked against the stand-in hash, and even its
    // secret does not log the address in.
    assert_eq!(service.authenticate("wrong password", None), (None, false));
    assert_eq!(service.authenticate("stand-in secret", None), (None, true));
}

#[test]
fn backend_failures_during_login_are_internal() {
    assert_eq!(
        login_outcome(Err(AuthError::Database("connection refused".to_owned()))),
        Err(AuthError::Internal)
    );
}

#[test]
fn duplicate_email_is_a_conflict() {
    assert_eq!(
        AuthService::registration_result(InsertOutcome::UniqueViolation),
        Err(AuthError::EmailTaken)
    );
    assert_eq!(
        AuthService::registration_result(InsertOutcome::Failed("disk full".to_owned())),
        Err(AuthError::Database("disk full".to_owned()))
    );
    let stored = record("a@example.com", "hash".to_owned());
    assert_eq!(AuthService::registration_result(InsertOutcome::Inserted(stored.clone())), Ok(stored));
}

#[test]
fn missing_auth_layer_is_a_server_error() {
    assert_eq!(current_user(None), Err(AuthError::Internal));
    assert_eq!(current_user(Some(None)), Err(AuthError::Unauthorized));
    let stored = record("a@example.com", "hash".to_owned());
    assert_eq!(current_user(Some(Some(stored.clone()))), Ok(stored));
}

#[test]
fn responses_expose_only_public_fields() {
    let response = UserResponse::from(record("a@example.com", "secret hash".to_owned()));
    assert_eq!(response, UserResponse { id: 7, email: "a@example.com".to_owned() });
}
