use user_management::error::Error;
use user_management::google::{
    append_token_to_uri, benefits_signup_request, check_benefits_registration,
    google_login_decision, google_signup_decision, IdToken,
};
use user_management::user::{User, UserType};

fn user(is_entity: bool, is_individual: bool) -> User {
    User {
        ulid: 9,
        email: "g@example.com".to_string(),
        password: None,
        is_google: true,
        is_outlook: false,
        is_entity,
        is_individual,
        is_client: false,
        is_contractor: false,
    }
}

#[test]
fn token_added_as_new_query() {
    assert_eq!(
        append_token_to_uri("https://example.com/callback", "abc").unwrap(),
        "https://example.com/callback?token=abc"
    );
}

#[test]
fn token_added_to_existing_query() {
    assert_eq!(
        append_token_to_uri("https://example.com/cb?next=home", "t0k").unwrap(),
        "https://example.com/cb?next=home&token=t0k"
    );
}

#[test]
fn token_added_at_root_path() {
    assert_eq!(
        append_token_to_uri("http://localhost:3000", "x").unwrap(),
        "http://localhost:3000/?token=x"
    );
}

#[test]
fn redirect_without_scheme_is_bad_request() {
    assert!(matches!(append_token_to_uri("/relative/path", "x"), Err(Error::BadRequest)));
    assert!(matches!(append_token_to_uri("not a uri", "x"), Err(Error::BadRequest)));
}

#[test]
fn csrf_check() {
    let t = IdToken { credential: "c".to_string(), g_csrf_token: "abc".to_string() };
    assert!(t.check_crsf_token(Some("abc")).is_ok());
    assert!(matches!(t.check_crsf_token(Some("abd")), Err(Error::Unauthorized)));
    assert!(matches!(t.check_crsf_token(None), Err(Error::Unauthorized)));
}

#[test]
fn login_decision() {
    match google_login_decision(None) {
        Err(Error::BadRequestVerbose(m)) => assert_eq!(m, "Please signup first"),
        other => panic!("unexpected {:?}", other),
    }
    assert_eq!(google_login_decision(Some(&user(true, false))).unwrap(), (9, UserType::Entity));
    match google_login_decision(Some(&user(false, false))) {
        Err(Error::InternalVerbose(m)) => assert_eq!(m, "User is not configured properly"),
        other => panic!("unexpected {:?}", other),
    }
}

#[test]
fn signup_decision() {
    assert_eq!(google_signup_decision(None).unwrap(), None);
    assert_eq!(
        google_signup_decision(Some(&user(false, true))).unwrap(),
        Some((9, UserType::Individual))
    );
    assert!(matches!(
        google_signup_decision(Some(&user(false, false))),
        Err(Error::InternalVerbose(_))
    ));
}

#[test]
fn benefits_request() {
    let r = benefits_signup_request("new@example.com");
    assert_eq!(r.username, "new@example.com");
    assert_eq!(r.password, "Password@123");
    assert_eq!(r.user_profile.firstname, "Globelise");
    assert_eq!(r.user_profile.lastname, "User");
    assert_eq!(r.user_profile.email, "new@example.com");
}

#[test]
fn benefits_registration_status() {
    assert!(check_benefits_registration("200", "ok").is_ok());
    match check_benefits_registration("409", "user exists") {
        Err(Error::BadRequestVerbose(m)) => assert_eq!(m, "user exists"),
        other => panic!("unexpected {:?}", other),
    }
}
