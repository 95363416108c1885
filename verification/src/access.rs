//! The access decisions that request handlers take between their reads of
//! the database and the state store.

use vstd::prelude::*;

use crate::error::Error;
use crate::sessions::{Sessions, holds_token};
use crate::user::UserType;

verus! {

/// Only accounts of the expected kind may use an endpoint; others are
/// forbidden.
pub fn require_user_type(actual: UserType, expected: UserType) -> (r: Result<(), Error>)
    ensures
        r is Ok <==> actual == expected,
        r matches Err(e) ==> e is Forbidden,
{
    if actual == expected {
        Ok(())
    } else {
        Err(Error::Forbidden)
    }
}

/// Client endpoints for branches, pay items and custom fields are for
/// entity accounts only.
pub fn require_entity(user_type: UserType) -> (r: Result<(), Error>)
    ensures
        r is Ok <==> user_type == UserType::Entity,
        r matches Err(e) ==> e is Forbidden,
{
    require_user_type(user_type, UserType::Entity)
}

/// A user may read or change only records about themself.
pub fn require_same_user(claims_ulid: u128, record_ulid: u128) -> (r: Result<(), Error>)
    ensures
        r is Ok <==> claims_ulid == record_ulid,
        r matches Err(e) ==> e is Forbidden,
{
    if claims_ulid != record_ulid {
        Err(Error::Forbidden)
    } else {
        Ok(())
    }
}

/// A user may act on a branch, team, cost center or contractor only if it
/// belongs to them.
pub fn require_ownership(owns: bool) -> (r: Result<(), Error>)
    ensures
        r is Ok <==> owns,
        r matches Err(e) ==> e is Forbidden,
{
    if owns {
        Ok(())
    } else {
        Err(Error::Forbidden)
    }
}

/// Listing a branch's contractors is unauthorised for a client that does not
/// own the branch.
pub fn require_branch_owner(owns: bool) -> (r: Result<(), Error>)
    ensures
        r is Ok <==> owns,
        r matches Err(Error::UnauthorizedVerbose(m)) ==> m@ == "This client does not own this branch"@,
        r is Err ==> r matches Err(Error::UnauthorizedVerbose(_)),
{
    if owns {
        Ok(())
    } else {
        Err(Error::UnauthorizedVerbose(String::from_str("This client does not own this branch")))
    }
}

/// A record that a request names must exist.
pub fn require_found<T>(record: Option<T>) -> (r: Result<T, Error>)
    ensures
        match record {
            Some(x) => r == Ok::<T, Error>(x),
            None => r matches Err(e) && e is NotFound,
        },
{
    match record {
        Some(x) => Ok(x),
        None => Err(Error::NotFound),
    }
}

/// A refresh token is exchanged for an access token only if it matches one
/// of the user's open sessions.
pub fn check_refresh_session(sessions: Option<&Sessions>, encoded_claims: &[u8]) -> (r: Result<(), Error>)
    ensures
        r is Ok <==> (sessions matches Some(s) && holds_token(s.sessions.view_entries(), encoded_claims@)),
        r matches Err(Error::UnauthorizedVerbose(m)) ==> m@ == "Refresh token rejected"@,
        r is Err ==> r matches Err(Error::UnauthorizedVerbose(_)),
{
    let accepted = match sessions {
        Some(s) => s.accepts(encoded_claims),
        None => false,
    };
    if accepted {
        Ok(())
    } else {
        Err(Error::UnauthorizedVerbose(String::from_str("Refresh token rejected")))
    }
}

/// The user of a refresh token must still exist.
pub fn require_existing_user<T>(user: Option<T>) -> (r: Result<T, Error>)
    ensures
        match user {
            Some(x) => r == Ok::<T, Error>(x),
            None => r matches Err(Error::UnauthorizedVerbose(m))
                && m@ == "User does not exist in the database"@,
        },
{
    match user {
        Some(x) => Ok(x),
        None => Err(Error::UnauthorizedVerbose(String::from_str("User does not exist in the database"))),
    }
}

/// An account may open a session only if it exists with the given kind.
pub fn require_session_user(user_exists: bool, one_time: bool) -> (r: Result<(), Error>)
    ensures
        r is Ok <==> user_exists,
        !user_exists && !one_time ==> (r matches Err(Error::UnauthorizedVerbose(m))
            && m@ == "Refused to open session: invalid user"@),
        !user_exists && one_time ==> (r matches Err(Error::UnauthorizedVerbose(m))
            && m@ == "Refused to open one-time session: invalid user"@),
{
    if user_exists {
        Ok(())
    } else if one_time {
        Err(Error::UnauthorizedVerbose(String::from_str("Refused to open one-time session: invalid user")))
    } else {
        Err(Error::UnauthorizedVerbose(String::from_str("Refused to open session: invalid user")))
    }
}

} // verus!
