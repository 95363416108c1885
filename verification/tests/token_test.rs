use user_management::error::Error;
use user_management::token::{
    audience_from_str, create_one_time_token, one_time_token_claims_at, one_time_token_decision,
    AccessToken, ChangePasswordToken, Google, LostPasswordToken, OneTimeToken, OneTimeTokenAudience,
    OneTimeTokenBearer, OneTimeTokenParam, RefreshToken,
};
use user_management::user::UserType;

#[test]
fn audiences_and_lifetimes() {
    assert_eq!(LostPasswordToken::name(), "lost_password");
    assert_eq!(LostPasswordToken::lifetime(), 3600);
    assert_eq!(ChangePasswordToken::name(), "change_password");
    assert_eq!(ChangePasswordToken::lifetime(), 3600);
    assert_eq!(Google::name(), "google");
    assert_eq!(Google::lifetime(), 60);
    assert_eq!(AccessToken::aud(), "access_token");
    assert_eq!(AccessToken::exp(), 3600);
    assert_eq!(RefreshToken::aud(), "refresh_token");
    assert_eq!(RefreshToken::exp(), 7200);
}

#[test]
fn audience_check() {
    assert!(audience_from_str::<LostPasswordToken>("lost_password").is_ok());
    assert!(matches!(
        audience_from_str::<LostPasswordToken>("change_password"),
        Err(Error::Unauthorized)
    ));
    assert!(audience_from_str::<Google>("google").is_ok());
}

#[test]
fn claims_at_fixed_time() {
    let ulid: u128 = 0x0123_4567_89ab_cdef_0123_4567_89ab_cdef;
    let (claims, exp) =
        one_time_token_claims_at::<ChangePasswordToken>(ulid, UserType::Entity, "globelise", 1_000)
            .unwrap();
    assert_eq!(exp, 4_600);
    assert_eq!(claims.exp, 4_600);
    assert_eq!(claims.sub, "01234567-89ab-cdef-0123-456789abcdef");
    assert_eq!(claims.user_type, "entity");
    assert_eq!(claims.aud, "change_password");
    assert_eq!(claims.iss, "globelise");
    assert_eq!(OneTimeTokenParam::subject(&claims).unwrap(), (ulid, UserType::Entity));
    assert_eq!(OneTimeTokenBearer::subject(&claims).unwrap(), (ulid, UserType::Entity));
}

#[test]
fn claims_expiry_overflow() {
    match one_time_token_claims_at::<Google>(1, UserType::Individual, "i", i64::MAX - 10) {
        Err(Error::InternalVerbose(m)) => {
            assert_eq!(m, "Could not calculate one-time token expiration timestamp")
        }
        other => panic!("unexpected {:?}", other.map(|c| c.1)),
    }
}

#[test]
fn claims_now() {
    let (claims, exp) =
        create_one_time_token::<LostPasswordToken>(7, UserType::Individual, "iss").unwrap();
    assert_eq!(claims.exp, exp as u64);
    assert_eq!(claims.aud, "lost_password");
    assert_eq!(claims.sub, "00000000-0000-0000-0000-000000000007");
    assert!(exp > 1_600_000_000);
}

fn claims(sub: &str, user_type: &str) -> OneTimeToken {
    OneTimeToken {
        sub: sub.to_string(),
        user_type: user_type.to_string(),
        aud: "google".to_string(),
        iss: "i".to_string(),
        exp: 0,
    }
}

#[test]
fn subject_errors() {
    let bad_sub = claims("not-a-uuid", "individual");
    assert!(matches!(OneTimeTokenParam::subject(&bad_sub), Err(Error::Unauthorized)));
    assert!(matches!(OneTimeTokenBearer::subject(&bad_sub), Err(Error::Internal)));
    let bad_kind = claims("00000000-0000-0000-0000-000000000001", "client");
    assert!(matches!(OneTimeTokenParam::subject(&bad_kind), Err(Error::Unauthorized)));
    let ok = claims("00000000-0000-0000-0000-000000000001", "individual");
    assert_eq!(OneTimeTokenParam::subject(&ok).unwrap(), (1, UserType::Individual));
}

#[test]
fn token_from_query() {
    assert_eq!(OneTimeTokenParam::token_from_query(Some("abc")).unwrap(), "abc");
    match OneTimeTokenParam::token_from_query(None) {
        Err(Error::UnauthorizedVerbose(m)) => assert_eq!(m, "No one-time token provided"),
        other => panic!("unexpected {:?}", other),
    }
}

#[test]
fn one_time_decision() {
    assert!(one_time_token_decision(true, true).is_ok());
    match one_time_token_decision(false, true) {
        Err(Error::UnauthorizedVerbose(m)) => {
            assert_eq!(m, "Cannot create one time token because the user does not exist")
        }
        other => panic!("unexpected {:?}", other),
    }
    match one_time_token_decision(true, false) {
        Err(Error::UnauthorizedVerbose(m)) => {
            assert_eq!(m, "One-time token rejected: invalid session")
        }
        other => panic!("unexpected {:?}", other),
    }
}

#[test]
fn refresh_subject() {
    let r = RefreshToken {
        ulid: "01ARZ3NDEKTSV4RRFFQ69G5FAV".to_string(),
        user_type: "individual".to_string(),
    };
    let (u, t) = r.subject().unwrap();
    assert_eq!(t, UserType::Individual);
    assert_eq!(u, u128::from("01ARZ3NDEKTSV4RRFFQ69G5FAV".parse::<rusty_ulid::Ulid>().unwrap()));
    let bad = RefreshToken { ulid: "nope".to_string(), user_type: "individual".to_string() };
    match bad.subject() {
        Err(Error::Conversion(m)) => assert_eq!(m, "uuid parse error"),
        other => panic!("unexpected {:?}", other),
    }
    let bad_kind = RefreshToken {
        ulid: "01ARZ3NDEKTSV4RRFFQ69G5FAV".to_string(),
        user_type: "robot".to_string(),
    };
    match bad_kind.subject() {
        Err(Error::Conversion(m)) => assert_eq!(m, "role parse error"),
        other => panic!("unexpected {:?}", other),
    }
}
