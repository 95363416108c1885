//! Token claims and the rules of one-time tokens: audiences, lifetimes,
//! expiry, and the checks that a presented one-time token must pass.

use vstd::prelude::*;

use crate::credentials::text_eq;
use crate::error::Error;
use crate::ids::{parse_uuid, uuid_parse, uuid_text, uuid_to_string, parse_ulid, ulid_parse};
use crate::sessions::{clock_seconds, now_unix_timestamp};
use crate::user::{UserType, lemma_user_type_name_round_trip, spec_parse_user_type, spec_user_type_name};

verus! {

/// A purpose for which one-time tokens are issued.
pub trait OneTimeTokenAudience {
    /// The audience name written into the token.
    spec fn spec_name() -> Seq<char>;

    /// How long a token of this purpose lives, in seconds.
    spec fn spec_lifetime() -> i64;

    /// The audience name written into the token.
    fn name() -> (r: &'static str)
        ensures
            r@ == Self::spec_name();

    /// How long a token of this purpose lives, in seconds.
    fn lifetime() -> (r: i64)
        ensures
            r == Self::spec_lifetime();
}

/// Tokens mailed to users who lost their password.
#[derive(Debug)]
pub struct LostPasswordToken;

impl OneTimeTokenAudience for LostPasswordToken {
    open spec fn spec_name() -> Seq<char> {
        "lost_password"@
    }

    open spec fn spec_lifetime() -> i64 {
        3600
    }

    fn name() -> (r: &'static str) {
        "lost_password"
    }

    fn lifetime() -> (r: i64) {
        3600
    }
}

/// Tokens that allow one password change.
#[derive(Debug)]
pub struct ChangePasswordToken;

impl OneTimeTokenAudience for ChangePasswordToken {
    open spec fn spec_name() -> Seq<char> {
        "change_password"@
    }

    open spec fn spec_lifetime() -> i64 {
        3600
    }

    fn name() -> (r: &'static str) {
        "change_password"
    }

    fn lifetime() -> (r: i64) {
        3600
    }
}

/// Tokens handed to a Google user after signing in, exchanged for a refresh
/// token.
pub struct Google;

impl OneTimeTokenAudience for Google {
    open spec fn spec_name() -> Seq<char> {
        "google"@
    }

    open spec fn spec_lifetime() -> i64 {
        60
    }

    fn name() -> (r: &'static str) {
        "google"
    }

    fn lifetime() -> (r: i64) {
        60
    }
}

/// Accepts an audience text only if it names the purpose `T`.
pub fn audience_from_str<T: OneTimeTokenAudience>(s: &str) -> (r: Result<(), Error>)
    ensures
        r is Ok <==> s@ == T::spec_name(),
        r matches Err(e) ==> e is Unauthorized,
{
    if text_eq(s, T::name()) {
        Ok(())
    } else {
        Err(Error::Unauthorized)
    }
}

/// The expiry of a token issued at `now` with the given lifetime, if it can
/// be represented.
pub open spec fn spec_expiration(now: i64, lifetime: i64) -> Option<i64> {
    if i64::MIN <= now + lifetime <= i64::MAX {
        Some((now + lifetime) as i64)
    } else {
        None
    }
}

/// Claims of a one-time token.
#[derive(Debug)]
pub struct OneTimeToken {
    pub sub: String,
    pub user_type: String,
    pub aud: String,
    pub iss: String,
    pub exp: u64,
}

/// The claims of a one-time token for purpose `T`, issued at `now` to the
/// account `ulid` of kind `user_type` by `issuer`, with its expiry; fails
/// only where the expiry overflows.
pub fn one_time_token_claims_at<T: OneTimeTokenAudience>(
    ulid: u128,
    user_type: UserType,
    issuer: &str,
    now: i64,
) -> (r: Result<(OneTimeToken, i64), Error>)
    ensures
        match spec_expiration(now, T::spec_lifetime()) {
            None => r matches Err(Error::InternalVerbose(m))
                && m@ == "Could not calculate one-time token expiration timestamp"@,
            Some(exp) => r matches Ok((claims, e)) && {
                &&& e == exp
                &&& claims.exp == exp as u64
                &&& claims.sub@ == uuid_text(ulid)
                &&& claims.user_type@ == spec_user_type_name(user_type)
                &&& claims.aud@ == T::spec_name()
                &&& claims.iss@ == issuer@
                &&& spec_subject(claims.sub@, claims.user_type@) == Some((ulid, user_type))
            },
        },
{
    let expiration = match now.checked_add(T::lifetime()) {
        Some(e) => e,
        None => {
            return Err(Error::InternalVerbose(
                String::from_str("Could not calculate one-time token expiration timestamp"),
            ));
        },
    };
    proof {
        lemma_user_type_name_round_trip(user_type);
    }
    let claims = OneTimeToken {
        sub: uuid_to_string(ulid),
        user_type: String::from_str(user_type.as_str()),
        aud: String::from_str(T::name()),
        iss: String::from_str(issuer),
        exp: #[verifier::truncate] (expiration as u64),
    };
    Ok((claims, expiration))
}

/// The claims of a one-time token for purpose `T`, issued now by the system
/// clock.
pub fn create_one_time_token<T: OneTimeTokenAudience>(ulid: u128, user_type: UserType, issuer: &str) -> (r: Result<(OneTimeToken, i64), Error>)
    ensures
        r matches Ok((claims, e)) ==> {
            &&& claims.exp == e as u64
            &&& claims.sub@ == uuid_text(ulid)
            &&& claims.user_type@ == spec_user_type_name(user_type)
            &&& claims.aud@ == T::spec_name()
            &&& claims.iss@ == issuer@
            &&& spec_subject(claims.sub@, claims.user_type@) == Some((ulid, user_type))
            &&& exists|now: i64| clock_seconds(now) && spec_expiration(now, T::spec_lifetime()) == Some(e)
        },
        r matches Err(e) ==> e is InternalVerbose,
{
    let now = now_unix_timestamp();
    one_time_token_claims_at::<T>(ulid, user_type, issuer, now)
}

/// A one-time token read from the `token` query parameter.
pub struct OneTimeTokenParam(pub OneTimeToken);

/// A one-time token read from the bearer authorisation header.
pub struct OneTimeTokenBearer(pub OneTimeToken);

/// The account that a token's claims name: its id and kind.
pub open spec fn spec_subject(sub: Seq<char>, user_type: Seq<char>) -> Option<(u128, UserType)> {
    match (uuid_parse(sub), spec_parse_user_type(user_type)) {
        (Some(u), Some(t)) => Some((u, t)),
        _ => None,
    }
}

fn subject(claims: &OneTimeToken) -> (r: Option<(u128, UserType)>)
    ensures
        r == spec_subject(claims.sub@, claims.user_type@),
{
    let ulid = parse_uuid(claims.sub.as_str())?;
    let user_type = UserType::from_str(claims.user_type.as_str())?;
    Some((ulid, user_type))
}

impl OneTimeTokenParam {
    /// The token text of the request: the `token` query parameter, which
    /// must be present.
    pub fn token_from_query(token: Option<&str>) -> (r: Result<&str, Error>)
        ensures
            match token {
                Some(t) => r == Ok::<&str, Error>(t),
                None => r matches Err(Error::UnauthorizedVerbose(m))
                    && m@ == "No one-time token provided"@,
            },
    {
        match token {
            Some(t) => Ok(t),
            None => Err(Error::UnauthorizedVerbose(String::from_str("No one-time token provided"))),
        }
    }

    /// The account that the decoded claims name; claims that do not name
    /// one are refused as unauthorised.
    pub fn subject(claims: &OneTimeToken) -> (r: Result<(u128, UserType), Error>)
        ensures
            match spec_subject(claims.sub@, claims.user_type@) {
                Some(s) => r == Ok::<(u128, UserType), Error>(s),
                None => r matches Err(e) && e is Unauthorized,
            },
    {
        match subject(claims) {
            Some(s) => Ok(s),
            None => Err(Error::Unauthorized),
        }
    }
}

impl OneTimeTokenBearer {
    /// The account that the decoded claims name; claims that do not name
    /// one are an internal error.
    pub fn subject(claims: &OneTimeToken) -> (r: Result<(u128, UserType), Error>)
        ensures
            match spec_subject(claims.sub@, claims.user_type@) {
                Some(s) => r == Ok::<(u128, UserType), Error>(s),
                None => r matches Err(e) && e is Internal,
            },
    {
        match subject(claims) {
            Some(s) => Ok(s),
            None => Err(Error::Internal),
        }
    }
}

/// Whether a presented one-time token is accepted, once its claims are
/// read: the account must exist and the token must match an unused session.
pub fn one_time_token_decision(user_exists: bool, session_accepted: bool) -> (r: Result<(), Error>)
    ensures
        r is Ok <==> user_exists && session_accepted,
        !user_exists ==> (r matches Err(Error::UnauthorizedVerbose(m))
            && m@ == "Cannot create one time token because the user does not exist"@),
        user_exists && !session_accepted ==> (r matches Err(Error::UnauthorizedVerbose(m))
            && m@ == "One-time token rejected: invalid session"@),
{
    if !user_exists {
        return Err(Error::UnauthorizedVerbose(
            String::from_str("Cannot create one time token because the user does not exist"),
        ));
    }
    if !session_accepted {
        return Err(Error::UnauthorizedVerbose(String::from_str("One-time token rejected: invalid session")));
    }
    Ok(())
}

/// Claims for access tokens.
#[derive(Debug)]
pub struct AccessToken {
    pub ulid: String,
    pub email: String,
    pub user_type: String,
}

impl AccessToken {
    /// The audience of access tokens.
    pub fn aud() -> (r: &'static str)
        ensures
            r@ == "access_token"@,
    {
        "access_token"
    }

    /// How long an access token lives, in seconds.
    pub fn exp() -> (r: i64)
        ensures
            r == 3600,
    {
        3600
    }
}

/// Claims for refresh tokens.
#[derive(Debug)]
pub struct RefreshToken {
    pub ulid: String,
    pub user_type: String,
}

impl RefreshToken {
    /// The audience of refresh tokens.
    pub fn aud() -> (r: &'static str)
        ensures
            r@ == "refresh_token"@,
    {
        "refresh_token"
    }

    /// How long a refresh token lives, in seconds.
    pub fn exp() -> (r: i64)
        ensures
            r == 7200,
    {
        7200
    }

    /// The account that refresh claims of the UUID format name; claims that
    /// cannot be read are unauthorised.
    pub fn uuid_subject(&self) -> (r: Result<(u128, UserType), Error>)
        ensures
            match spec_subject(self.ulid@, self.user_type@) {
                Some(s) => r == Ok::<(u128, UserType), Error>(s),
                None => r matches Err(e) && e is Unauthorized,
            },
    {
        let ulid = match parse_uuid(self.ulid.as_str()) {
            Some(u) => u,
            None => return Err(Error::Unauthorized),
        };
        let user_type = match UserType::from_str(self.user_type.as_str()) {
            Some(t) => t,
            None => return Err(Error::Unauthorized),
        };
        Ok((ulid, user_type))
    }

    /// The account that refresh claims of the ULID format name; a claim that
    /// cannot be read is a conversion error.
    pub fn subject(&self) -> (r: Result<(u128, UserType), Error>)
        ensures
            match (ulid_parse(self.ulid@), spec_parse_user_type(self.user_type@)) {
                (Some(u), Some(t)) => r == Ok::<(u128, UserType), Error>((u, t)),
                (None, _) => r matches Err(Error::Conversion(m)) && m@ == "uuid parse error"@,
                (Some(_), None) => r matches Err(Error::Conversion(m)) && m@ == "role parse error"@,
            },
    {
        let ulid = match parse_ulid(self.ulid.as_str()) {
            Some(u) => u,
            None => return Err(Error::Conversion(String::from_str("uuid parse error"))),
        };
        let user_type = match UserType::from_str(self.user_type.as_str()) {
            Some(t) => t,
            None => return Err(Error::Conversion(String::from_str("role parse error"))),
        };
        Ok((ulid, user_type))
    }
}

} // verus!
