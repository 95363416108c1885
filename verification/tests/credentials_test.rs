use user_management::credentials::{
    authenticate, check_new_password, check_registration, hash_password, prepare_password_change,
    prepare_signup, text_eq,
};
use user_management::error::{Error, RegistrationError};
use user_management::user::{User, UserType};

fn user(password: Option<String>, is_entity: bool, is_individual: bool) -> User {
    User {
        ulid: 42,
        email: "someone@example.com".to_string(),
        password,
        is_google: false,
        is_outlook: false,
        is_entity,
        is_individual,
        is_client: false,
        is_contractor: false,
    }
}

#[test]
fn hashed_password_authenticates() {
    let hash = hash_password("correct horse").unwrap();
    assert!(hash.starts_with("$argon2id$"));
    let u = user(Some(hash), false, true);
    assert_eq!(authenticate(Some(&u), "correct horse").unwrap(), (42, UserType::Individual));
}

#[test]
fn same_password_gets_different_salts() {
    let a = hash_password("password-123").unwrap();
    let b = hash_password("password-123").unwrap();
    assert_ne!(a, b);
}

#[test]
fn authenticate_refusals() {
    match authenticate(None, "whatever") {
        Err(Error::UnauthorizedVerbose(m)) => assert_eq!(m, "Cannot find user with that email"),
        other => panic!("unexpected {:?}", other),
    }
    let google_only = user(None, true, false);
    match authenticate(Some(&google_only), "whatever") {
        Err(Error::UnauthorizedVerbose(m)) => {
            assert_eq!(m, "User was not signed up using password authentication")
        }
        other => panic!("unexpected {:?}", other),
    }
    let u = user(Some(hash_password("right-password").unwrap()), true, false);
    match authenticate(Some(&u), "wrong-password") {
        Err(Error::UnauthorizedVerbose(m)) => assert_eq!(m, "User entered the wrong the password"),
        other => panic!("unexpected {:?}", other),
    }
    assert_eq!(authenticate(Some(&u), "right-password").unwrap(), (42, UserType::Entity));
}

#[test]
fn authenticate_misconfigured_user() {
    let u = user(Some(hash_password("right-password").unwrap()), false, false);
    match authenticate(Some(&u), "right-password") {
        Err(Error::InternalVerbose(m)) => assert_eq!(m, "User is not configured properly"),
        other => panic!("unexpected {:?}", other),
    }
}

#[test]
fn authenticate_normalizes_password() {
    // "é" precomposed and decomposed are the same password after NFC.
    let u = user(Some(hash_password("caf\u{e9}-secret").unwrap()), false, true);
    assert!(authenticate(Some(&u), "cafe\u{301}-secret").is_ok());
}

#[test]
fn new_password_rules() {
    match check_new_password("short", "short") {
        Err(Error::BadRequestVerbose(m)) => {
            assert_eq!(m, "Password must be at least 8 characters long")
        }
        other => panic!("unexpected {:?}", other),
    }
    match check_new_password("long enough", "long enough!") {
        Err(Error::BadRequestVerbose(m)) => assert_eq!(m, "Passwords do not match"),
        other => panic!("unexpected {:?}", other),
    }
    assert_eq!(check_new_password("cafe\u{301}123", "caf\u{e9}123").unwrap(), "caf\u{e9}123");
}

#[test]
fn signup_hash_verifies_normalized_password() {
    let h = prepare_signup("cafe\u{301}1234", "caf\u{e9}1234").unwrap();
    assert_eq!(argon2::verify_encoded(&h, "caf\u{e9}1234".as_bytes()).unwrap(), true);
    assert!(matches!(prepare_signup("abc", "abc"), Err(Error::BadRequestVerbose(_))));
}

#[test]
fn password_change_rules() {
    match prepare_password_change("new-password", "other-password") {
        Err(Error::BadRequestVerbose(m)) => assert_eq!(m, "Passwords do not match"),
        other => panic!("unexpected {:?}", other),
    }
    let h = prepare_password_change("x", "x").unwrap();
    assert!(argon2::verify_encoded(&h, b"x").unwrap());
}

#[test]
fn registration_checks() {
    let (email, password) =
        check_registration("  someone@example.com ", "password1", "password1").unwrap();
    assert_eq!(email, "someone@example.com");
    assert_eq!(password, "password1");
    assert_eq!(
        check_registration("not-an-email", "short", "other").unwrap_err(),
        RegistrationError {
            is_valid_email: false,
            is_email_available: true,
            is_password_at_least_8_chars: false,
            passwords_match: false,
        }
    );
    assert_eq!(
        check_registration("a@b.com", "password1", "password2").unwrap_err(),
        RegistrationError {
            is_valid_email: true,
            is_email_available: true,
            is_password_at_least_8_chars: true,
            passwords_match: false,
        }
    );
}

#[test]
fn text_equality() {
    assert!(text_eq("abc", "abc"));
    assert!(!text_eq("abc", "abd"));
    assert!(!text_eq("abc", "ab"));
}
