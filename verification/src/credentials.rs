//! Credentials: normalisation, password hashing and the password rules that
//! sign-up, log-in and password changes apply.

use vstd::prelude::*;
use vstd::utf8::encode_utf8;
use unicode_normalization::UnicodeNormalization;
use rand::Rng;

use crate::error::{Error, RegistrationError};
use crate::user::{User, UserType, spec_user_type_of};

verus! {

/// The Unicode normalisation form C of a text.
pub uninterp spec fn nfc_form(s: Seq<char>) -> Seq<char>;

/// The encoded Argon2id hash (default parameters) of a password under a salt,
/// or `None` where hashing is refused.
pub uninterp spec fn argon2_hash(pwd: Seq<u8>, salt: Seq<u8>) -> Option<Seq<char>>;

/// Whether a password matches an encoded Argon2 hash, or `None` where the
/// encoded hash cannot be read.
pub uninterp spec fn argon2_verify(encoded: Seq<char>, pwd: Seq<u8>) -> Option<bool>;

/// Whether a text is an email address that `email_address` accepts.
pub uninterp spec fn email_is_valid(s: Seq<char>) -> bool;

/// A text without its leading and trailing white space.
pub uninterp spec fn trimmed(s: Seq<char>) -> Seq<char>;

/// `unicode_normalization::UnicodeNormalization::nfc`, collected into a
/// `String`: the result is the normal form C of `s`, a function of `s` alone.
#[verifier::external_body]
pub(crate) fn nfc(s: &str) -> (r: String)
    ensures
        r@ == nfc_form(s@),
{
    s.nfc().collect()
}

/// `str::trim`: the result is `s` without leading and trailing white space,
/// a function of `s` alone.
#[verifier::external_body]
pub(crate) fn trim(s: &str) -> (r: &str)
    ensures
        r@ == trimmed(s@),
{
    s.trim()
}

/// `email_address::EmailAddress::is_valid`: whether `s` parses as an email
/// address, a function of `s` alone.
#[verifier::external_body]
pub(crate) fn is_valid_email(s: &str) -> (r: bool)
    ensures
        r == email_is_valid(s@),
{
    email_address::EmailAddress::is_valid(s)
}

/// `rand::thread_rng().gen()`: sixteen random bytes. Nothing is promised of
/// their value.
#[verifier::external_body]
pub(crate) fn random_salt() -> (salt: [u8; 16]) {
    rand::thread_rng().gen()
}

/// `argon2::hash_encoded` with the Argon2id variant and otherwise default
/// parameters. The result is a function of the password and the salt.
/// `Context::new` in the crate refuses only passwords or salts longer than
/// `u32::MAX` bytes and salts shorter than 8 bytes, so hashing succeeds on all
/// other inputs; and `verify_encoded` recomputes the hash from the parameters
/// and salt that the encoding carries, so the password verifies against the
/// hash that it produced.
#[verifier::external_body]
pub(crate) fn hash_encoded(pwd: &[u8], salt: &[u8]) -> (r: Option<String>)
    ensures
        match r {
            Some(h) => argon2_hash(pwd@, salt@) == Some(h@),
            None => argon2_hash(pwd@, salt@) is None,
        },
        pwd@.len() <= u32::MAX && 8 <= salt@.len() <= u32::MAX ==> r is Some,
        r matches Some(h) ==> argon2_verify(h@, pwd@) == Some(true),
{
    let config = argon2::Config { variant: argon2::Variant::Argon2id, ..Default::default() };
    argon2::hash_encoded(pwd, salt, &config).ok()
}

/// `argon2::verify_encoded`: `Some(b)` where the encoded hash can be read and
/// `b` says whether the password matches it, `None` where the crate returns an
/// error. The result is a function of its arguments alone.
#[verifier::external_body]
pub(crate) fn verify_encoded(encoded: &str, pwd: &[u8]) -> (r: Option<bool>)
    ensures
        r == argon2_verify(encoded@, pwd@),
{
    argon2::verify_encoded(encoded, pwd).ok()
}

/// The bytes of a text in UTF-8.
pub open spec fn utf8_bytes(s: Seq<char>) -> Seq<u8> {
    encode_utf8(s)
}

/// Whether `pwd` verifies against the encoded hash `h`.
pub open spec fn verifies(h: Seq<char>, pwd: Seq<char>) -> bool {
    argon2_verify(h, utf8_bytes(pwd)) == Some(true)
}

/// Hashes a password with a fresh random salt.
///
/// Fails with `Internal` only where Argon2 refuses the password, which needs
/// a password of more than `u32::MAX` bytes.
pub fn hash_password(password: &str) -> (r: Result<String, Error>)
    ensures
        match r {
            Ok(h) => verifies(h@, password@),
            Err(e) => e is Internal && utf8_bytes(password@).len() > u32::MAX,
        },
{
    let salt = random_salt();
    let bytes = password.as_bytes();
    match hash_encoded(bytes, &salt) {
        Some(h) => Ok(h),
        None => Err(Error::Internal),
    }
}

/// Whether two texts are equal.
pub fn text_eq(a: &str, b: &str) -> (r: bool)
    ensures
        r == (a@ == b@),
{
    let x = a.to_owned();
    let y = b.to_owned();
    x == y
}

/// The password rules of sign-up, applied to the normal forms of the two
/// entries: at least 8 bytes, and both entries the same.
pub open spec fn spec_check_new_password(password: Seq<char>, confirm: Seq<char>) -> Result<
    Seq<char>,
    Seq<char>,
> {
    let p = nfc_form(password);
    let c = nfc_form(confirm);
    if utf8_bytes(p).len() < 8 {
        Err("Password must be at least 8 characters long"@)
    } else if p != c {
        Err("Passwords do not match"@)
    } else {
        Ok(p)
    }
}

/// Checks the two password entries of a sign-up and returns the normalised
/// password; an error carries the reason, answered as a bad request.
pub fn check_new_password(password: &str, confirm_password: &str) -> (r: Result<String, Error>)
    ensures
        match (r, spec_check_new_password(password@, confirm_password@)) {
            (Ok(p), Ok(q)) => p@ == q,
            (Err(Error::BadRequestVerbose(m)), Err(q)) => m@ == q,
            _ => false,
        },
{
    let password = nfc(password);
    let confirm = nfc(confirm_password);
    if password.as_str().as_bytes().len() < 8 {
        return Err(Error::BadRequestVerbose(String::from_str("Password must be at least 8 characters long")));
    }
    if password != confirm {
        return Err(Error::BadRequestVerbose(String::from_str("Passwords do not match")));
    }
    Ok(password)
}

/// Checks the entries of a sign-up and hashes the password: the stored hash
/// verifies the normal form of the password.
pub fn prepare_signup(password: &str, confirm_password: &str) -> (r: Result<String, Error>)
    ensures
        match spec_check_new_password(password@, confirm_password@) {
            Err(q) => r matches Err(Error::BadRequestVerbose(m)) && m@ == q,
            Ok(p) => match r {
                Ok(h) => verifies(h@, p),
                Err(e) => e is Internal && utf8_bytes(p).len() > u32::MAX,
            },
        },
{
    let normalized = check_new_password(password, confirm_password)?;
    hash_password(normalized.as_str())
}

/// The password rule of a password change: the normal forms of the two
/// entries agree.
pub open spec fn spec_check_changed_password(password: Seq<char>, confirm: Seq<char>) -> Option<
    Seq<char>,
> {
    if nfc_form(password) == nfc_form(confirm) {
        Some(nfc_form(password))
    } else {
        None
    }
}

/// Checks the two entries of a password change and hashes the new password.
pub fn prepare_password_change(new_password: &str, confirm_new_password: &str) -> (r: Result<String, Error>)
    ensures
        match spec_check_changed_password(new_password@, confirm_new_password@) {
            None => r matches Err(Error::BadRequestVerbose(m)) && m@ == "Passwords do not match"@,
            Some(p) => match r {
                Ok(h) => verifies(h@, p),
                Err(e) => e is Internal && utf8_bytes(p).len() > u32::MAX,
            },
        },
{
    let password = nfc(new_password);
    let confirm = nfc(confirm_new_password);
    if password != confirm {
        return Err(Error::BadRequestVerbose(String::from_str("Passwords do not match")));
    }
    hash_password(password.as_str())
}

/// A password accepted at sign-up logs in: where the sign-up checks pass and
/// the stored hash verifies the checked password, the password as typed
/// again at log-in verifies against the stored hash.
pub proof fn law_signup_password_logs_in(password: Seq<char>, confirm: Seq<char>, h: Seq<char>)
    requires
        spec_check_new_password(password, confirm) is Ok,
        verifies(h, spec_check_new_password(password, confirm)->Ok_0),
    ensures
        verifies(h, nfc_form(password)),
        verifies(h, nfc_form(confirm)),
{
}

/// A changed password logs in: where the two entries of a password change
/// agree and the stored hash verifies the new password, either entry as
/// typed at log-in verifies against the stored hash.
pub proof fn law_changed_password_logs_in(password: Seq<char>, confirm: Seq<char>, h: Seq<char>)
    requires
        spec_check_changed_password(password, confirm) is Some,
        verifies(h, spec_check_changed_password(password, confirm)->0),
    ensures
        verifies(h, nfc_form(password)),
        verifies(h, nfc_form(confirm)),
{
}

/// A submitted email address must be one that `email_address` reads; any
/// other text is a bad request. The address is kept as submitted.
pub fn check_email(email: &str) -> (r: Result<String, Error>)
    ensures
        r is Ok <==> email_is_valid(email@),
        r matches Ok(a) ==> a@ == email@,
        r matches Err(e) ==> e is BadRequest,
{
    if is_valid_email(email) {
        Ok(String::from_str(email))
    } else {
        Err(Error::BadRequest)
    }
}

/// The credentials of a log-in as they are compared: the email trimmed and
/// normalised, the password normalised; `None` where the email is not an
/// address.
pub open spec fn spec_login_credentials(email: Seq<char>, password: Seq<char>) -> Option<(Seq<char>, Seq<char>)> {
    let e = nfc_form(trimmed(email));
    if email_is_valid(e) {
        Some((e, nfc_form(password)))
    } else {
        None
    }
}

/// Normalises the credentials of a role log-in: the email is trimmed and
/// brought to normal form C and must then be an address (else a bad
/// request); the password is brought to normal form C.
pub fn login_credentials(email: &str, password: &str) -> (r: Result<(String, String), Error>)
    ensures
        r is Ok <==> email_is_valid(nfc_form(trimmed(email@))),
        r matches Ok((e, p)) ==> e@ == nfc_form(trimmed(email@)) && p@ == nfc_form(password@),
        r matches Err(err) ==> err is BadRequest,
        match (r, spec_login_credentials(email@, password@)) {
            (Ok((e, p)), Some((se, sp))) => e@ == se && p@ == sp,
            (Err(_), None) => true,
            _ => false,
        },
{
    let e = nfc(trim(email));
    let p = nfc(password);
    if is_valid_email(e.as_str()) {
        Ok((e, p))
    } else {
        Err(Error::BadRequest)
    }
}

/// Whether a role log-in is accepted: the account found has a stored hash
/// and the normalised password verifies against it.
pub open spec fn spec_role_login_accepted(hash: Option<Seq<char>>, password: Seq<char>) -> bool {
    hash matches Some(h) && verifies(h, nfc_form(password))
}

/// Decides a role log-in from the stored hash of the account found, if
/// any: every refusal is unauthorised, so that the answer does not say
/// which check failed.
pub fn role_login_decision(hash: Option<&str>, password: &str) -> (r: Result<(), Error>)
    ensures
        r is Ok <==> spec_role_login_accepted(match hash { Some(h) => Some(h@), None => None }, password@),
        r is Ok <==> (hash matches Some(h) && verifies(h@, nfc_form(password@))),
        r matches Err(e) ==> e is Unauthorized,
{
    let p = nfc(password);
    match hash {
        Some(h) => {
            if verify_encoded(h, p.as_str().as_bytes()) == Some(true) {
                Ok(())
            } else {
                Err(Error::Unauthorized)
            }
        },
        None => Err(Error::Unauthorized),
    }
}

/// Two role log-ins whose emails agree once trimmed and normalised, and
/// whose passwords agree once normalised, are treated alike: they pass or
/// fail the address check together, are compared as the same credentials,
/// and are accepted by the same stored hash.
pub proof fn law_login_depends_on_normal_forms(
    email1: Seq<char>,
    email2: Seq<char>,
    password1: Seq<char>,
    password2: Seq<char>,
    hash: Option<Seq<char>>,
)
    requires
        nfc_form(trimmed(email1)) == nfc_form(trimmed(email2)),
        nfc_form(password1) == nfc_form(password2),
    ensures
        spec_login_credentials(email1, password1) == spec_login_credentials(email2, password2),
        spec_role_login_accepted(hash, password1) == spec_role_login_accepted(hash, password2),
{
}

/// Authenticates a password log-in against the account found for the email,
/// if any, and returns the account's id and kind.
///
/// Refusals are unauthorised with the reason: no account, an account without
/// a password, or a wrong password; an account that names no kind is an
/// internal error.
pub fn authenticate(user: Option<&User>, password: &str) -> (r: Result<(u128, UserType), Error>)
    ensures
        match user {
            None => r matches Err(Error::UnauthorizedVerbose(m))
                && m@ == "Cannot find user with that email"@,
            Some(u) => match u.password {
                None => r matches Err(Error::UnauthorizedVerbose(m))
                    && m@ == "User was not signed up using password authentication"@,
                Some(h) => if verifies(h@, nfc_form(password@)) {
                    match spec_user_type_of(*u) {
                        Some(t) => r == Ok::<(u128, UserType), Error>((u.ulid, t)),
                        None => r matches Err(Error::InternalVerbose(m))
                            && m@ == "User is not configured properly"@,
                    }
                } else {
                    r matches Err(Error::UnauthorizedVerbose(m))
                        && m@ == "User entered the wrong the password"@
                },
            },
        },
{
    let password = nfc(password);
    match user {
        None => Err(Error::UnauthorizedVerbose(String::from_str("Cannot find user with that email"))),
        Some(u) => match &u.password {
            None => Err(Error::UnauthorizedVerbose(
                String::from_str("User was not signed up using password authentication"),
            )),
            Some(h) => {
                if verify_encoded(h.as_str(), password.as_str().as_bytes()) == Some(true) {
                    let t = u.user_type()?;
                    Ok((u.ulid, t))
                } else {
                    Err(Error::UnauthorizedVerbose(String::from_str("User entered the wrong the password")))
                }
            },
        },
    }
}

/// The outcome of the checks on a registration form: the normalised email
/// and password when all checks pass, else which checks failed.
pub open spec fn spec_check_registration(email: Seq<char>, password: Seq<char>, confirm: Seq<char>) -> Result<
    (Seq<char>, Seq<char>),
    RegistrationError,
> {
    let e = nfc_form(trimmed(email));
    let valid = email_is_valid(e);
    let long_enough = utf8_bytes(password).len() >= 8;
    let matching = nfc_form(password) == nfc_form(confirm);
    if valid && long_enough && matching {
        Ok((e, nfc_form(password)))
    } else {
        Err(
            RegistrationError {
                is_valid_email: valid,
                is_email_available: true,
                is_password_at_least_8_chars: long_enough,
                passwords_match: matching,
            },
        )
    }
}

/// Checks a registration form: the trimmed, normalised email must be valid,
/// the password as entered at least 8 bytes long, and the normal forms of the
/// two password entries equal. Email availability is decided when the
/// account is stored, so the flag for it is always set here.
pub fn check_registration(email: &str, password: &str, confirm_password: &str) -> (r: Result<
    (String, String),
    RegistrationError,
>)
    ensures
        match (r, spec_check_registration(email@, password@, confirm_password@)) {
            (Ok((e, p)), Ok((se, sp))) => e@ == se && p@ == sp,
            (Err(a), Err(b)) => a == b,
            _ => false,
        },
{
    let email = nfc(trim(email));
    let normalized = nfc(password);
    let confirm = nfc(confirm_password);
    let is_valid_email = is_valid_email(email.as_str());
    let is_password_at_least_8_chars = password.as_bytes().len() >= 8;
    let passwords_match = normalized == confirm;
    if is_valid_email && is_password_at_least_8_chars && passwords_match {
        Ok((email, normalized))
    } else {
        Err(
            RegistrationError {
                is_valid_email,
                is_email_available: true,
                is_password_at_least_8_chars,
                passwords_match,
            },
        )
    }
}

} // verus!
