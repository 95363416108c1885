//! The password-reset flow: who a reset request is for, the mail that
//! carries the link, and where the link leads.

use vstd::prelude::*;

use crate::credentials::{check_email, email_is_valid, hash_password, nfc, nfc_form, utf8_bytes, verifies};
use crate::error::Error;
use crate::ids::new_uuid;
use crate::user::{User, UserType, spec_user_type_of};

verus! {

/// Subject of the password-reset mail.
pub const RESET_EMAIL_SUBJECT: &'static str = "Confirm Request to Reset Password";

/// Text of the reset mail before the service's address.
pub open spec fn reset_mail_head() -> Seq<char> {
    "\n            <!DOCTYPE html>\n            <html>\n            <head>\n                <title>Change Password Request</title>\n            </head>\n            <body>\n                <p>\n                If you requested to change your password, please follow this\n                <a href=\""@
}

/// Text of the reset mail between the service's address and the token.
pub open spec fn reset_mail_middle() -> Seq<char> {
    "/auth/password/reset/initiate?token="@
}

/// Text of the reset mail after the token.
pub open spec fn reset_mail_tail() -> Seq<char> {
    "\">link</a> to reset it.\n                </p>\n                <p>Otherwise, please report this occurence.</p>\n            </body>\n            </html>\n            "@
}

/// The HTML body of the reset mail: a link to the service's reset
/// endpoint that carries the one-time token.
pub fn password_reset_email_body(service_url: &str, token: &str) -> (body: String)
    ensures
        body@ == reset_mail_head() + service_url@ + reset_mail_middle() + token@ + reset_mail_tail(),
{
    let mut body = String::from_str("\n            <!DOCTYPE html>\n            <html>\n            <head>\n                <title>Change Password Request</title>\n            </head>\n            <body>\n                <p>\n                If you requested to change your password, please follow this\n                <a href=\"");
    body.append(service_url);
    body.append("/auth/password/reset/initiate?token=");
    body.append(token);
    body.append("\">link</a> to reset it.\n                </p>\n                <p>Otherwise, please report this occurence.</p>\n            </body>\n            </html>\n            ");
    body
}

/// The account a reset request is for. An unknown email gets a random id,
/// the individual kind and `false`, so that the request is answered in the
/// same way without sending mail; a known email gets its account and `true`.
pub fn reset_target(user: Option<&User>) -> (r: Result<(u128, UserType, bool), Error>)
    ensures
        r is Ok <==> spec_reset_answered(match user { Some(u) => Some(*u), None => None }),
        r matches Ok((_, _, valid)) ==> valid == user is Some,
        match user {
            None => r matches Ok((_, t, valid)) && t == UserType::Individual && !valid,
            Some(u) => match spec_user_type_of(*u) {
                Some(t) => r == Ok::<(u128, UserType, bool), Error>((u.ulid, t, true)),
                None => r matches Err(Error::InternalVerbose(m))
                    && m@ == "User is not configured properly"@,
            },
        },
{
    match user {
        Some(u) => {
            let t = u.user_type()?;
            Ok((u.ulid, t, true))
        },
        None => Ok((new_uuid(), UserType::Individual, false)),
    }
}

/// The reset mail is sent only for a known account whose one-time session
/// was opened.
pub fn should_send_reset_email(is_valid_attempt: bool, created_valid_token: bool) -> (r: bool)
    ensures
        r == (is_valid_attempt && created_valid_token),
        r == spec_reset_mail_sent(is_valid_attempt, created_valid_token),
{
    is_valid_attempt && created_valid_token
}

/// Where the reset link leads: the frontend's reset page with a token for
/// the password change.
pub fn reset_redirect_url(frontend_url: &str, change_password_token: &str) -> (url: String)
    ensures
        url@ == frontend_url@ + "/reset-password?token="@ + change_password_token@,
{
    let mut url = String::from_str(frontend_url);
    url.append("/reset-password?token=");
    url.append(change_password_token);
    url
}

/// Hashes the new password of a reset. The reset form's confirmation entry
/// is not compared: the new password is compared with itself.
pub fn prepare_password_reset(new_password: &str, confirm_new_password: &str) -> (r: Result<String, Error>)
    ensures
        match r {
            Ok(h) => verifies(h@, nfc_form(new_password@)),
            Err(e) => e is Internal && utf8_bytes(nfc_form(new_password@)).len() > u32::MAX,
        },
{
    let password = nfc(new_password);
    hash_password(password.as_str())
}

/// Whether a reset request is answered without error: always for an unknown
/// email, and for a known account whose kind can be read.
pub open spec fn spec_reset_answered(user: Option<User>) -> bool {
    match user {
        None => true,
        Some(u) => spec_user_type_of(u) is Some,
    }
}

/// Whether the reset mail goes out: only for a request about a known account
/// whose one-time session was opened.
pub open spec fn spec_reset_mail_sent(is_valid_attempt: bool, created_valid_token: bool) -> bool {
    is_valid_attempt && created_valid_token
}

/// The answer to a reset request does not reveal whether the email has an
/// account: an unknown email and a properly configured account are both
/// answered without error, no mail goes out for the unknown email whatever
/// happened to its session, and the account gets a mail exactly when its
/// one-time session was opened.
pub proof fn law_reset_answer_hides_accounts(u: User, opened_for_account: bool, opened_for_unknown: bool)
    requires
        spec_user_type_of(u) is Some,
    ensures
        spec_reset_answered(None),
        spec_reset_answered(Some(u)),
        !spec_reset_mail_sent(false, opened_for_unknown),
        spec_reset_mail_sent(true, opened_for_account) == opened_for_account,
{
}

/// A role-based reset request names an email address: any other text is a
/// bad request. The address is kept as submitted.
pub fn lost_password_address(email: &str) -> (r: Result<String, Error>)
    ensures
        r is Ok <==> email_is_valid(email@),
        r matches Ok(a) ==> a@ == email@,
        r matches Err(e) ==> e is BadRequest,
{
    check_email(email)
}

/// A role-based reset request is refused as a bad request where the email
/// has no account of the role.
pub fn lost_password_account(found: Option<u128>) -> (r: Result<u128, Error>)
    ensures
        r == match found {
            Some(u) => Ok::<u128, Error>(u),
            None => Err::<u128, Error>(Error::BadRequest),
        },
{
    match found {
        Some(u) => Ok(u),
        None => Err(Error::BadRequest),
    }
}

/// Text of the role-based reset mail between the platform's address and the
/// role.
pub open spec fn role_reset_mail_middle() -> Seq<char> {
    "/changepasswordredirect/"@
}

/// Text of the role-based reset mail after the token.
pub open spec fn role_reset_mail_tail() -> Seq<char> {
    "\">link</a> to reset it.\n                </p>\n                <p>Otherwise, please report this occurence.</p>\n            </body>\n            </html>\n"@
}

/// The HTML body of the role-based reset mail: a link to the platform's
/// redirect page for the role, carrying the one-time token.
pub open spec fn spec_role_reset_email_body(domain_url: Seq<char>, role: Seq<char>, token: Seq<char>) -> Seq<char> {
    reset_mail_head() + domain_url + role_reset_mail_middle() + role + "?token="@ + token + role_reset_mail_tail()
}

/// Builds the role-based reset mail.
pub fn role_reset_email_body(domain_url: &str, role: &str, token: &str) -> (body: String)
    ensures
        body@ == spec_role_reset_email_body(domain_url@, role@, token@),
{
    let mut body = String::from_str("\n            <!DOCTYPE html>\n            <html>\n            <head>\n                <title>Change Password Request</title>\n            </head>\n            <body>\n                <p>\n                If you requested to change your password, please follow this\n                <a href=\"");
    body.append(domain_url);
    body.append("/changepasswordredirect/");
    body.append(role);
    body.append("?token=");
    body.append(token);
    body.append("\">link</a> to reset it.\n                </p>\n                <p>Otherwise, please report this occurence.</p>\n            </body>\n            </html>\n");
    body
}

/// Request for a password-reset mail.
#[derive(Debug)]
pub struct LostPasswordRequest {
    pub email: String,
}

/// Request to change a password.
#[derive(Debug)]
pub struct ChangePasswordRequest {
    pub new_password: String,
    pub confirm_new_password: String,
}

} // verus!
