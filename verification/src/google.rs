//! Google sign-in: the CSRF check, handing a one-time token back on the
//! caller's redirect URI, and the account decisions after a Google ID token
//! was validated.

use vstd::prelude::*;

use crate::credentials::text_eq;
use crate::error::Error;
use crate::user::{User, UserType, spec_user_type_of};

verus! {

/// The parts of a URI that a redirect keeps.
pub struct UriParts {
    pub scheme: Option<String>,
    pub authority: Option<String>,
    pub path_and_query: Option<String>,
    pub has_query: bool,
}

/// The parts of a URI text as `http` reads them: scheme, authority, path
/// with query (as `http` writes it back), and whether a query is present;
/// `None` where the text is not a URI.
pub uninterp spec fn uri_split(s: Seq<char>) -> Option<
    (Option<Seq<char>>, Option<Seq<char>>, Option<Seq<char>>, bool),
>;

/// The text of the URI that `http`'s builder makes of a scheme, authority
/// and path with query, or `None` where it refuses them.
pub uninterp spec fn uri_built(scheme: Seq<char>, authority: Seq<char>, path_and_query: Seq<char>) -> Option<
    Seq<char>,
>;

/// The view of an optional text.
pub open spec fn opt_view(o: Option<String>) -> Option<Seq<char>> {
    match o {
        Some(s) => Some(s@),
        None => None,
    }
}

/// `axum::http::Uri::from_str`, split into scheme, authority, path with
/// query and whether a query is present; the result is a function of `s`
/// alone.
#[verifier::external_body]
fn split_uri(s: &str) -> (r: Option<UriParts>)
    ensures
        match (r, uri_split(s@)) {
            (Some(p), Some(q)) => opt_view(p.scheme) == q.0 && opt_view(p.authority) == q.1
                && opt_view(p.path_and_query) == q.2 && p.has_query == q.3,
            (None, None) => true,
            _ => false,
        },
{
    let uri: axum::http::Uri = s.parse().ok()?;
    Some(UriParts {
        scheme: uri.scheme_str().map(|x| x.to_string()),
        authority: uri.authority().map(|a| a.to_string()),
        path_and_query: uri.path_and_query().map(|p| p.to_string()),
        has_query: uri.query().is_some(),
    })
}

/// `axum::http::uri::Builder` with the given scheme, authority and path with
/// query, then `build`, written as text; a function of its arguments alone.
#[verifier::external_body]
fn build_uri(scheme: &str, authority: &str, path_and_query: &str) -> (r: Option<String>)
    ensures
        opt_view(r) == uri_built(scheme@, authority@, path_and_query@),
{
    axum::http::uri::Builder::new()
        .scheme(scheme)
        .authority(authority)
        .path_and_query(path_and_query)
        .build()
        .ok()
        .map(|u| u.to_string())
}

/// The path with query of a redirect after adding the token: a new query
/// where there was none, else one more parameter.
pub open spec fn spec_with_token(path_and_query: Seq<char>, has_query: bool, token: Seq<char>) -> Seq<char> {
    if has_query {
        path_and_query + "&token="@ + token
    } else {
        path_and_query + "?token="@ + token
    }
}

/// The redirect URI with the token added, or `None` where the URI lacks a
/// part or cannot be rebuilt.
pub open spec fn spec_append_token(uri: Seq<char>, token: Seq<char>) -> Option<Seq<char>> {
    match uri_split(uri) {
        Some((Some(scheme), Some(authority), Some(pq), has_query)) => uri_built(
            scheme,
            authority,
            spec_with_token(pq, has_query, token),
        ),
        _ => None,
    }
}

/// Adds `token` as a query parameter to a redirect URI; a URI without
/// scheme, authority or path, or one that cannot be rebuilt, is a bad
/// request.
pub fn append_token_to_uri(uri: &str, token: &str) -> (r: Result<String, Error>)
    ensures
        match spec_append_token(uri@, token@) {
            Some(u) => r matches Ok(s) && s@ == u,
            None => r matches Err(e) && e is BadRequest,
        },
{
    let parts = match split_uri(uri) {
        Some(p) => p,
        None => return Err(Error::BadRequest),
    };
    let pq = match parts.path_and_query {
        Some(pq) => pq,
        None => return Err(Error::BadRequest),
    };
    let mut query = pq;
    if parts.has_query {
        query.append("&token=");
    } else {
        query.append("?token=");
    }
    query.append(token);
    let scheme = match parts.scheme {
        Some(s) => s,
        None => return Err(Error::BadRequest),
    };
    let authority = match parts.authority {
        Some(a) => a,
        None => return Err(Error::BadRequest),
    };
    match build_uri(scheme.as_str(), authority.as_str(), query.as_str()) {
        Some(u) => Ok(u),
        None => Err(Error::BadRequest),
    }
}

/// Representation of Google's ID token form.
#[derive(Debug)]
pub struct IdToken {
    pub credential: String,
    pub g_csrf_token: String,
}

impl IdToken {
    /// Validates the CSRF token: the `g_csrf_token` cookie must be present
    /// and equal to the one in the form.
    pub fn check_crsf_token(&self, cookie_csrf_token: Option<&str>) -> (r: Result<(), Error>)
        ensures
            r is Ok <==> (cookie_csrf_token matches Some(c) && c@ == self.g_csrf_token@),
            r matches Err(e) ==> e is Unauthorized,
    {
        if let Some(c) = cookie_csrf_token {
            if text_eq(c, self.g_csrf_token.as_str()) {
                return Ok(());
            }
        }
        Err(Error::Unauthorized)
    }
}

/// Logging in with Google requires an existing account; returns its id and
/// kind.
pub fn google_login_decision(user: Option<&User>) -> (r: Result<(u128, UserType), Error>)
    ensures
        match user {
            None => r matches Err(Error::BadRequestVerbose(m)) && m@ == "Please signup first"@,
            Some(u) => match spec_user_type_of(*u) {
                Some(t) => r == Ok::<(u128, UserType), Error>((u.ulid, t)),
                None => r matches Err(Error::InternalVerbose(m))
                    && m@ == "User is not configured properly"@,
            },
        },
{
    match user {
        None => Err(Error::BadRequestVerbose(String::from_str("Please signup first"))),
        Some(u) => {
            let t = u.user_type()?;
            Ok((u.ulid, t))
        },
    }
}

/// Signing up with Google: where an account with the token's email exists,
/// it is logged in (its id and kind); otherwise a new account is to be
/// registered (`None`).
pub fn google_signup_decision(user: Option<&User>) -> (r: Result<Option<(u128, UserType)>, Error>)
    ensures
        match user {
            None => r matches Ok(None),
            Some(u) => match spec_user_type_of(*u) {
                Some(t) => r == Ok::<Option<(u128, UserType)>, Error>(Some((u.ulid, t))),
                None => r matches Err(Error::InternalVerbose(m))
                    && m@ == "User is not configured properly"@,
            },
        },
{
    match user {
        None => Ok(None),
        Some(u) => {
            let t = u.user_type()?;
            Ok(Some((u.ulid, t)))
        },
    }
}

/// Profile sent to the benefits marketplace when a user signs up.
#[derive(Debug)]
pub struct UserProfile {
    pub firstname: String,
    pub lastname: String,
    pub email: String,
}

/// Registration sent to the benefits marketplace.
#[derive(Debug)]
pub struct UserSignupRequest {
    pub username: String,
    pub password: String,
    pub user_profile: UserProfile,
}

/// A user of the platform as the marketplace sees it.
#[derive(Debug)]
pub struct GlobeliseUser {
    pub email: String,
}

/// The marketplace registration of a Google sign-up: the email is the user
/// name, with the platform's default password and profile names.
pub fn benefits_signup_request(email: &str) -> (r: UserSignupRequest)
    ensures
        r.username@ == email@,
        r.password@ == "Password@123"@,
        r.user_profile.firstname@ == "Globelise"@,
        r.user_profile.lastname@ == "User"@,
        r.user_profile.email@ == email@,
{
    UserSignupRequest {
        username: String::from_str(email),
        password: String::from_str("Password@123"),
        user_profile: UserProfile {
            firstname: String::from_str("Globelise"),
            lastname: String::from_str("User"),
            email: String::from_str(email),
        },
    }
}

/// The marketplace must answer a registration with status 200; any other
/// status is a bad request carrying the marketplace's answer.
pub fn check_benefits_registration(status: &str, body: &str) -> (r: Result<(), Error>)
    ensures
        status@ == "200"@ ==> r is Ok,
        status@ != "200"@ ==> (r matches Err(Error::BadRequestVerbose(m)) && m@ == body@),
{
    if text_eq(status, "200") {
        Ok(())
    } else {
        Err(Error::BadRequestVerbose(String::from_str(body)))
    }
}

} // verus!
