use user_management::access::{
    check_refresh_session, require_branch_owner, require_entity, require_existing_user,
    require_found, require_ownership, require_same_user, require_session_user, require_user_type,
};
use user_management::credentials::hash_password;
use user_management::error::{Error, RegistrationError};
use user_management::password_reset::{
    password_reset_email_body, prepare_password_reset, reset_redirect_url, reset_target,
    should_send_reset_email, RESET_EMAIL_SUBJECT,
};
use user_management::pay_items::{
    confirm_with_password, PayItemMethod, PayItemType, PayItemsIndexQuery,
};
use user_management::requests::{FieldDetailFormat, FieldDetailType, PostCustomFieldRequestForClient};
use user_management::sessions::Sessions;
use user_management::user::{ensure_email_unused, user_roles, NewUser, Role, User, UserType};

fn user(is_entity: bool, is_individual: bool) -> User {
    User {
        ulid: 3,
        email: "u@example.com".to_string(),
        password: None,
        is_google: false,
        is_outlook: true,
        is_entity,
        is_individual,
        is_client: false,
        is_contractor: false,
    }
}

#[test]
fn status_codes_and_messages() {
    let reg = Error::Registration(RegistrationError {
        is_valid_email: true,
        is_email_available: false,
        is_password_at_least_8_chars: true,
        passwords_match: true,
    });
    assert_eq!(reg.status_code(), 400);
    assert_eq!(reg.message(true), None);
    assert_eq!(Error::Unauthorized.status_code(), 401);
    assert_eq!(Error::Forbidden.status_code(), 403);
    assert_eq!(Error::NotFound.status_code(), 404);
    assert_eq!(Error::UnsupportedImageFormat.status_code(), 415);
    assert_eq!(Error::PayloadTooLarge("x".to_string()).status_code(), 413);
    assert_eq!(Error::Internal.status_code(), 500);
    assert_eq!(Error::GooglePublicKeys.status_code(), 500);
    let e = Error::InternalVerbose("db down".to_string());
    assert_eq!(e.message(true), Some("db down".to_string()));
    assert_eq!(e.message(false), Some("Internal server error".to_string()));
    let u = Error::UnauthorizedVerbose("why".to_string());
    assert_eq!(u.message(false), Some("Unauthorized".to_string()));
    assert_eq!(Error::BadRequestVerbose("b".to_string()).message(false), Some("Bad request".to_string()));
    assert_eq!(Error::PayloadTooLarge("big".to_string()).message(false), Some("big".to_string()));
    assert_eq!(
        Error::GooglePublicKeys.message(true),
        Some("Failed to get Google's public keys".to_string())
    );
    assert_eq!(Error::Dapr("d".to_string()).message(false), Some("Internal server error".to_string()));
    assert_eq!(Error::Conversion("c".to_string()).message(true), Some("c".to_string()));
}

#[test]
fn user_type_names() {
    assert_eq!(UserType::Individual.as_str(), "individual");
    assert_eq!(UserType::EorAdmin.as_str(), "eor-admin");
    assert_eq!(UserType::from_str("entity"), Some(UserType::Entity));
    assert_eq!(UserType::from_str("Entity"), None);
    assert_eq!(UserType::Individual.db_auth_name(), "auth_individuals");
    assert_eq!(UserType::Entity.db_auth_name(), "auth_entities");
    assert_eq!(UserType::EorAdmin.db_auth_name(), "auth_eor_admins");
    assert_eq!(UserType::Entity.db_onboard_name(Role::Contractor), "onboard_entity_contractors");
    assert_eq!(UserType::Individual.db_onboard_name(Role::Client), "onboard_individual_clients");
    assert_eq!(UserType::EorAdmin.db_onboard_name(Role::Client), "onboard_eor_admins");
}

#[test]
fn users_and_roles() {
    assert_eq!(user_roles(true, true), vec![Role::Client, Role::Contractor]);
    assert_eq!(user_roles(false, true), vec![Role::Contractor]);
    assert!(user_roles(false, false).is_empty());
    assert!(user(true, false).has_authentication());
    assert_eq!(user(true, false).user_type().unwrap(), UserType::Entity);
    assert_eq!(user(true, true).user_type().unwrap(), UserType::Individual);
    let n = NewUser::with_password("a@b.c".to_string(), "h".to_string(), UserType::Entity);
    assert!(n.is_entity && !n.is_individual && n.password == Some("h".to_string()));
    let g = NewUser::with_google("a@b.c".to_string(), UserType::Individual);
    assert!(g.is_google && g.is_individual && g.password.is_none());
    let b = NewUser::bulk_contractor("c@d.e".to_string(), "h".to_string());
    assert!(b.is_individual && b.is_contractor && !b.is_client);
    assert!(ensure_email_unused(None).is_ok());
    match ensure_email_unused(Some(&user(true, false))) {
        Err(Error::BadRequestVerbose(m)) => {
            assert_eq!(m, "User with that email already exists. Did you forgot the password?")
        }
        other => panic!("unexpected {:?}", other),
    }
}

#[test]
fn pay_item_names() {
    assert_eq!(PayItemType::StatutoryFund.as_str(), "statutory_fund");
    assert_eq!(PayItemType::from_str("bonus"), Some(PayItemType::Bonus));
    assert_eq!(PayItemType::from_str("Bonus"), None);
    assert_eq!(PayItemMethod::EmployersContribution.as_str(), "employers_contribution");
    assert_eq!(PayItemMethod::from_str("statement_only"), Some(PayItemMethod::StatementOnly));
    assert_eq!(PayItemMethod::from_str(""), None);
}

#[test]
fn pay_item_page() {
    let q = PayItemsIndexQuery { branch_ulid: 1, page: 3, per_page: 25, search_param: None };
    assert_eq!(q.limit(), 25);
    assert_eq!(q.offset(), 50);
}

#[test]
fn pay_item_delete_confirmation() {
    let h = hash_password("my-password").unwrap();
    assert!(confirm_with_password(Some(&h), "my-password").is_ok());
    match confirm_with_password(Some(&h), "not-mine") {
        Err(Error::UnauthorizedVerbose(m)) => assert_eq!(m, "Invalid password"),
        other => panic!("unexpected {:?}", other),
    }
    assert!(matches!(confirm_with_password(None, "x"), Err(Error::NotFound)));
    assert!(matches!(confirm_with_password(Some("garbage"), "x"), Err(Error::Internal)));
}

#[test]
fn access_rules() {
    assert!(require_user_type(UserType::Entity, UserType::Entity).is_ok());
    assert!(matches!(require_entity(UserType::Individual), Err(Error::Forbidden)));
    assert!(require_same_user(4, 4).is_ok());
    assert!(matches!(require_same_user(4, 5), Err(Error::Forbidden)));
    assert!(matches!(require_ownership(false), Err(Error::Forbidden)));
    match require_branch_owner(false) {
        Err(Error::UnauthorizedVerbose(m)) => assert_eq!(m, "This client does not own this branch"),
        other => panic!("unexpected {:?}", other),
    }
    assert_eq!(require_found(Some(7)).unwrap(), 7);
    assert!(matches!(require_found::<u8>(None), Err(Error::NotFound)));
    match require_existing_user::<u8>(None) {
        Err(Error::UnauthorizedVerbose(m)) => assert_eq!(m, "User does not exist in the database"),
        other => panic!("unexpected {:?}", other),
    }
    match require_session_user(false, true) {
        Err(Error::UnauthorizedVerbose(m)) => {
            assert_eq!(m, "Refused to open one-time session: invalid user")
        }
        other => panic!("unexpected {:?}", other),
    }
    match require_session_user(false, false) {
        Err(Error::UnauthorizedVerbose(m)) => assert_eq!(m, "Refused to open session: invalid user"),
        other => panic!("unexpected {:?}", other),
    }
}

#[test]
fn refresh_session_check() {
    let mut s = Sessions::new();
    s.open("encoded.refresh.token", i64::MAX).unwrap();
    assert!(check_refresh_session(Some(&s), b"encoded.refresh.token").is_ok());
    match check_refresh_session(Some(&s), b"other.token") {
        Err(Error::UnauthorizedVerbose(m)) => assert_eq!(m, "Refresh token rejected"),
        other => panic!("unexpected {:?}", other),
    }
    assert!(check_refresh_session(None, b"encoded.refresh.token").is_err());
}

#[test]
fn reset_flow() {
    assert_eq!(RESET_EMAIL_SUBJECT, "Confirm Request to Reset Password");
    let body = password_reset_email_body("https://svc.example.com", "TOKEN");
    assert!(body.contains(
        "<a href=\"https://svc.example.com/auth/password/reset/initiate?token=TOKEN\">link</a>"
    ));
    assert_eq!(
        reset_redirect_url("https://front.example.com", "abc"),
        "https://front.example.com/reset-password?token=abc"
    );
    assert!(should_send_reset_email(true, true));
    assert!(!should_send_reset_email(false, true));
    assert!(!should_send_reset_email(true, false));
    let (a, t, valid) = reset_target(None).unwrap();
    assert_eq!(t, UserType::Individual);
    assert!(!valid);
    let (b, _, _) = reset_target(None).unwrap();
    assert_ne!(a, b);
    assert_eq!(reset_target(Some(&user(true, false))).unwrap(), (3, UserType::Entity, true));
    let h = prepare_password_reset("cafe\u{301}-new", "anything else").unwrap();
    assert!(argon2::verify_encoded(&h, "caf\u{e9}-new".as_bytes()).unwrap());
}

#[test]
fn custom_field_request() {
    let r = PostCustomFieldRequestForClient {
        field_name: "Shoe size".to_string(),
        field_type: FieldDetailType::PERSONAL,
        field_format: FieldDetailFormat::NUMBER,
    };
    assert_eq!(r.field_type, FieldDetailType::PERSONAL);
    assert_eq!(r.field_format, FieldDetailFormat::NUMBER);
}
