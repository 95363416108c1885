use user_management::bulk_add::require_first_worksheet;
use user_management::credentials::{check_email, hash_password, login_credentials, role_login_decision};
use user_management::error::Error;
use user_management::password_reset::{lost_password_account, lost_password_address, role_reset_email_body};
use user_management::roles::{
    change_password_token_decision, eor_onboarding_role, google_role_allowed, google_role_login_decision,
    individual_onboarding_role, lost_password_token_decision, renew_access_decision, require_not_eor_admin,
    role_change_password_check, role_change_password_url, role_create_user_check, role_one_time_token_claims_at,
    role_password_owner, role_subject, user_id_decision, AccountRole,
};
use user_management::token::{LostPasswordToken, RefreshToken};
use user_management::user::{Role, UserType};

#[test]
fn email_check() {
    assert_eq!(check_email("someone@example.com").unwrap(), "someone@example.com");
    assert!(matches!(check_email("not an address"), Err(Error::BadRequest)));
    assert!(matches!(check_email(" someone@example.com"), Err(Error::BadRequest)));
}

#[test]
fn login_credentials_are_normalized() {
    let (e, p) = login_credentials("  cafe\u{301}@example.com ", "pa\u{301}ss").unwrap();
    assert_eq!(e, "caf\u{e9}@example.com");
    assert_eq!(p, "p\u{e1}ss");
    assert!(matches!(login_credentials("nobody", "x"), Err(Error::BadRequest)));
}

#[test]
fn equal_logins_after_normalization_are_treated_alike() {
    let a = login_credentials(" a@example.com", "caf\u{e9}").unwrap();
    let b = login_credentials("a@example.com  ", "cafe\u{301}").unwrap();
    assert_eq!(a, b);
    let h = hash_password("caf\u{e9}").unwrap();
    assert!(role_login_decision(Some(&h), "caf\u{e9}").is_ok());
    assert!(role_login_decision(Some(&h), "cafe\u{301}").is_ok());
}

#[test]
fn role_login_refusals_are_unauthorized() {
    let h = hash_password("secret-1").unwrap();
    assert!(matches!(role_login_decision(Some(&h), "secret-2"), Err(Error::Unauthorized)));
    assert!(matches!(role_login_decision(None, "secret-1"), Err(Error::Unauthorized)));
    assert!(matches!(role_login_decision(Some("garbage"), "secret-1"), Err(Error::Unauthorized)));
}

#[test]
fn lost_password_checks() {
    assert_eq!(lost_password_address("a@b.com").unwrap(), "a@b.com");
    assert!(matches!(lost_password_address("a@"), Err(Error::BadRequest)));
    assert_eq!(lost_password_account(Some(9)).unwrap(), 9);
    assert!(matches!(lost_password_account(None), Err(Error::BadRequest)));
}

#[test]
fn role_reset_mail() {
    let body = role_reset_email_body("https://globelise.com", "client-individual", "TKN");
    assert!(body.contains(
        "<a href=\"https://globelise.com/changepasswordredirect/client-individual?token=TKN\">link</a>"
    ));
    assert!(body.contains("<title>Change Password Request</title>"));
}

#[test]
fn role_names_and_tables() {
    assert_eq!(AccountRole::ContractorEntity.as_str(), "contractor-entity");
    assert_eq!(AccountRole::from_str("eor-admin"), Some(AccountRole::EorAdmin));
    assert_eq!(AccountRole::from_str("admin"), None);
    assert_eq!(AccountRole::ClientEntity.user_table_name(), "client_entities");
    assert_eq!(AccountRole::EorAdmin.user_table_name(), "eor_admins");
    assert_eq!(
        AccountRole::ClientEntity.sibling_roles(),
        vec![AccountRole::ClientIndividual, AccountRole::ClientEntity]
    );
    assert_eq!(AccountRole::EorAdmin.sibling_roles(), vec![AccountRole::EorAdmin]);
}

#[test]
fn sibling_role_conflict() {
    let role = AccountRole::ClientEntity;
    assert_eq!(
        user_id_decision(role, &[(AccountRole::ClientIndividual, None), (AccountRole::ClientEntity, None)]).unwrap(),
        None
    );
    assert_eq!(
        user_id_decision(role, &[(AccountRole::ClientIndividual, None), (AccountRole::ClientEntity, Some(4))])
            .unwrap(),
        Some(4)
    );
    assert!(matches!(
        user_id_decision(role, &[(AccountRole::ClientIndividual, Some(3)), (AccountRole::ClientEntity, Some(4))]),
        Err(Error::BadRequest)
    ));
}

#[test]
fn create_user_refusals() {
    assert!(role_create_user_check(true, None).is_ok());
    assert!(matches!(role_create_user_check(false, None), Err(Error::BadRequest)));
    assert!(matches!(role_create_user_check(true, Some(1)), Err(Error::BadRequest)));
}

#[test]
fn role_password_change() {
    assert!(matches!(require_not_eor_admin(AccountRole::EorAdmin), Err(Error::Unauthorized)));
    assert!(require_not_eor_admin(AccountRole::ClientIndividual).is_ok());
    match lost_password_token_decision(false) {
        Err(Error::UnauthorizedVerbose(m)) => assert_eq!(m, "Invalid lost password token used"),
        other => panic!("unexpected {:?}", other),
    }
    assert_eq!(
        role_change_password_url("https://g.com", "contractor-entity", "abc"),
        "https://g.com/changepasswordpage/contractor-entity?token=abc"
    );
    assert!(role_change_password_check(AccountRole::ClientEntity, "pw", "pw").is_ok());
    assert!(matches!(
        role_change_password_check(AccountRole::ClientEntity, "pw", "pW"),
        Err(Error::BadRequest)
    ));
    assert!(matches!(
        role_change_password_check(AccountRole::EorAdmin, "pw", "pW"),
        Err(Error::Unauthorized)
    ));
    assert!(matches!(change_password_token_decision(false), Err(Error::Unauthorized)));
    assert!(matches!(role_password_owner(false), Err(Error::BadRequest)));
    assert!(role_password_owner(true).is_ok());
}

#[test]
fn role_google_sign_in() {
    assert!(matches!(google_role_allowed(AccountRole::EorAdmin), Err(Error::BadRequest)));
    assert_eq!(google_role_login_decision(None).unwrap(), None);
    assert_eq!(google_role_login_decision(Some((5, true))).unwrap(), Some(5));
    assert!(matches!(google_role_login_decision(Some((5, false))), Err(Error::BadRequest)));
}

#[test]
fn role_claims() {
    let (u, r) = role_subject("01ARZ3NDEKTSV4RRFFQ69G5FAV", "contractor-individual").unwrap();
    assert_eq!(r, AccountRole::ContractorIndividual);
    assert_eq!(u, u128::from("01ARZ3NDEKTSV4RRFFQ69G5FAV".parse::<rusty_ulid::Ulid>().unwrap()));
    match role_subject("bad", "client-entity") {
        Err(Error::Conversion(m)) => assert_eq!(m, "uuid parse error"),
        other => panic!("unexpected {:?}", other),
    }
    match role_subject("01ARZ3NDEKTSV4RRFFQ69G5FAV", "client") {
        Err(Error::Conversion(m)) => assert_eq!(m, "role parse error"),
        other => panic!("unexpected {:?}", other),
    }
    assert!(matches!(renew_access_decision(false), Err(Error::Unauthorized)));
    let (claims, exp) =
        role_one_time_token_claims_at::<LostPasswordToken>("SUB", AccountRole::ClientEntity, "iss", 10).unwrap();
    assert_eq!(exp, 3610);
    assert_eq!(claims.exp, 3610);
    assert_eq!(claims.sub, "SUB");
    assert_eq!(claims.role, "client-entity");
    assert_eq!(claims.aud, "lost_password");
    assert!(matches!(
        role_one_time_token_claims_at::<LostPasswordToken>("S", AccountRole::ClientEntity, "i", i64::MAX),
        Err(Error::Internal)
    ));
}

#[test]
fn onboarding_roles() {
    assert_eq!(individual_onboarding_role(AccountRole::ClientIndividual).unwrap(), Role::Client);
    assert_eq!(individual_onboarding_role(AccountRole::ContractorIndividual).unwrap(), Role::Contractor);
    assert!(matches!(individual_onboarding_role(AccountRole::ClientEntity), Err(Error::Forbidden)));
    assert!(eor_onboarding_role(AccountRole::EorAdmin).is_ok());
    assert!(matches!(eor_onboarding_role(AccountRole::ContractorEntity), Err(Error::Forbidden)));
}

#[test]
fn worksheet_required() {
    assert_eq!(require_first_worksheet(Some(3)).unwrap(), 3);
    match require_first_worksheet::<u8>(None) {
        Err(Error::BadRequestVerbose(m)) => {
            assert_eq!(m, "Please provide an excel file with at least 1 worksheet")
        }
        other => panic!("unexpected {:?}", other),
    }
}

#[test]
fn refresh_uuid_subject() {
    let r = RefreshToken {
        ulid: "00000000-0000-0000-0000-00000000000a".to_string(),
        user_type: "entity".to_string(),
    };
    assert_eq!(r.uuid_subject().unwrap(), (10, UserType::Entity));
    let bad = RefreshToken { ulid: "x".to_string(), user_type: "entity".to_string() };
    assert!(matches!(bad.uuid_subject(), Err(Error::Unauthorized)));
}
