//! Role-based accounts: each role keeps its accounts in a table of its own,
//! and an email may belong to only one role among a client's or a
//! contractor's two. The decisions of the role-based log-in, account
//! creation, password change and Google sign-in live here.

use vstd::prelude::*;

use crate::credentials::text_eq;
use crate::error::Error;
use crate::ids::{parse_ulid, ulid_parse};
use crate::user::Role;
use crate::sessions::{clock_seconds, now_unix_timestamp};
use crate::token::{OneTimeTokenAudience, spec_expiration};

verus! {

/// The role an account was created for.
#[derive(Debug, Clone, Copy, PartialEq, Eq, Structural)]
pub enum AccountRole {
    ClientIndividual,
    ClientEntity,
    ContractorIndividual,
    ContractorEntity,
    EorAdmin,
}

/// The kebab-case name of a role, as used in paths and links.
pub open spec fn spec_account_role_name(r: AccountRole) -> Seq<char> {
    match r {
        AccountRole::ClientIndividual => "client-individual"@,
        AccountRole::ClientEntity => "client-entity"@,
        AccountRole::ContractorIndividual => "contractor-individual"@,
        AccountRole::ContractorEntity => "contractor-entity"@,
        AccountRole::EorAdmin => "eor-admin"@,
    }
}

/// The role with a given kebab-case name.
pub open spec fn spec_parse_account_role(s: Seq<char>) -> Option<AccountRole> {
    if s == "client-individual"@ {
        Some(AccountRole::ClientIndividual)
    } else if s == "client-entity"@ {
        Some(AccountRole::ClientEntity)
    } else if s == "contractor-individual"@ {
        Some(AccountRole::ContractorIndividual)
    } else if s == "contractor-entity"@ {
        Some(AccountRole::ContractorEntity)
    } else if s == "eor-admin"@ {
        Some(AccountRole::EorAdmin)
    } else {
        None
    }
}

/// The table that holds the accounts of a role.
pub open spec fn spec_user_table_name(r: AccountRole) -> Seq<char> {
    match r {
        AccountRole::ClientIndividual => "client_individuals"@,
        AccountRole::ClientEntity => "client_entities"@,
        AccountRole::ContractorIndividual => "contractor_individuals"@,
        AccountRole::ContractorEntity => "contractor_entities"@,
        AccountRole::EorAdmin => "eor_admins"@,
    }
}

/// The roles whose tables are searched for an email of a role, in order:
/// both client roles for a client, both contractor roles for a contractor,
/// and the administrators' own table for an administrator.
pub open spec fn spec_sibling_roles(r: AccountRole) -> Seq<AccountRole> {
    match r {
        AccountRole::ClientIndividual | AccountRole::ClientEntity => seq![
            AccountRole::ClientIndividual,
            AccountRole::ClientEntity,
        ],
        AccountRole::ContractorIndividual | AccountRole::ContractorEntity => seq![
            AccountRole::ContractorIndividual,
            AccountRole::ContractorEntity,
        ],
        AccountRole::EorAdmin => seq![AccountRole::EorAdmin],
    }
}

impl AccountRole {
    /// The kebab-case name of this role.
    pub fn as_str(&self) -> (s: &'static str)
        ensures
            s@ == spec_account_role_name(*self),
    {
        match self {
            AccountRole::ClientIndividual => "client-individual",
            AccountRole::ClientEntity => "client-entity",
            AccountRole::ContractorIndividual => "contractor-individual",
            AccountRole::ContractorEntity => "contractor-entity",
            AccountRole::EorAdmin => "eor-admin",
        }
    }

    /// The role named by a kebab-case text.
    pub fn from_str(s: &str) -> (r: Option<AccountRole>)
        ensures
            r == spec_parse_account_role(s@),
    {
        if text_eq(s, "client-individual") {
            Some(AccountRole::ClientIndividual)
        } else if text_eq(s, "client-entity") {
            Some(AccountRole::ClientEntity)
        } else if text_eq(s, "contractor-individual") {
            Some(AccountRole::ContractorIndividual)
        } else if text_eq(s, "contractor-entity") {
            Some(AccountRole::ContractorEntity)
        } else if text_eq(s, "eor-admin") {
            Some(AccountRole::EorAdmin)
        } else {
            None
        }
    }

    /// The table that holds the accounts of this role.
    pub fn user_table_name(&self) -> (name: &'static str)
        ensures
            name@ == spec_user_table_name(*self),
    {
        match self {
            AccountRole::ClientIndividual => "client_individuals",
            AccountRole::ClientEntity => "client_entities",
            AccountRole::ContractorIndividual => "contractor_individuals",
            AccountRole::ContractorEntity => "contractor_entities",
            AccountRole::EorAdmin => "eor_admins",
        }
    }

    /// The roles whose tables are searched for an email of this role, in
    /// the order they are searched.
    pub fn sibling_roles(&self) -> (v: Vec<AccountRole>)
        ensures
            v@ == spec_sibling_roles(*self),
    {
        let mut v: Vec<AccountRole> = Vec::new();
        match self {
            AccountRole::ClientIndividual | AccountRole::ClientEntity => {
                v.push(AccountRole::ClientIndividual);
                v.push(AccountRole::ClientEntity);
            },
            AccountRole::ContractorIndividual | AccountRole::ContractorEntity => {
                v.push(AccountRole::ContractorIndividual);
                v.push(AccountRole::ContractorEntity);
            },
            AccountRole::EorAdmin => {
                v.push(AccountRole::EorAdmin);
            },
        }
        assert(v@ =~= spec_sibling_roles(*self));
        v
    }
}

/// Reading the name of a role gives the role back.
pub proof fn lemma_account_role_name_round_trip(r: AccountRole)
    ensures
        spec_parse_account_role(spec_account_role_name(r)) == Some(r),
{
    reveal_strlit("client-individual");
    reveal_strlit("client-entity");
    reveal_strlit("contractor-individual");
    reveal_strlit("contractor-entity");
    reveal_strlit("eor-admin");
    assert("client-individual"@.len() == 17 && "client-entity"@.len() == 13);
    assert("contractor-individual"@.len() == 21 && "contractor-entity"@.len() == 17);
    assert("eor-admin"@.len() == 9);
    assert("client-individual"@[1] != "contractor-entity"@[1]);
}

/// The first table, in search order, that holds the email: its role and the
/// account's id.
pub open spec fn first_found(lookups: Seq<(AccountRole, Option<u128>)>) -> Option<(AccountRole, u128)>
    decreases lookups.len(),
{
    if lookups.len() == 0 {
        None
    } else {
        match lookups[0].1 {
            Some(id) => Some((lookups[0].0, id)),
            None => first_found(lookups.drop_first()),
        }
    }
}

/// The account of an email for a role, from the lookups of the email in the
/// tables of the role's siblings, in search order. The first table that holds
/// the email decides: if it is the role's own table, that account is the
/// answer; if it is a sibling's, the email belongs to another role and the
/// request is a bad request. No table holding it, no account.
pub fn user_id_decision(role: AccountRole, lookups: &[(AccountRole, Option<u128>)]) -> (r: Result<
    Option<u128>,
    Error,
>)
    ensures
        match first_found(lookups@) {
            None => r matches Ok(None),
            Some((found, id)) => if found == role {
                r == Ok::<Option<u128>, Error>(Some(id))
            } else {
                r matches Err(e) && e is BadRequest
            },
        },
{
    let n = lookups.len();
    let mut i: usize = 0;
    assert(lookups@.subrange(0, n as int) =~= lookups@);
    while i < n
        invariant
            n == lookups@.len(),
            i <= n,
            first_found(lookups@) == first_found(lookups@.subrange(i as int, n as int)),
        decreases n - i,
    {
        let (found, id) = lookups[i];
        proof {
            let rest = lookups@.subrange(i as int, n as int);
            assert(rest.drop_first() =~= lookups@.subrange(i + 1, n as int));
            assert(rest[0] == lookups@[i as int]);
        }
        match id {
            Some(u) => {
                if found == role {
                    return Ok(Some(u));
                } else {
                    return Err(Error::BadRequest);
                }
            },
            None => {},
        }
        i = i + 1;
    }
    proof {
        assert(lookups@.subrange(n as int, n as int).len() == 0);
    }
    Ok(None)
}

/// An account is created for a role only if it has a way to authenticate and
/// its email is not yet an account of that role; otherwise it is a bad
/// request.
pub fn role_create_user_check(has_authentication: bool, existing: Option<u128>) -> (r: Result<(), Error>)
    ensures
        r is Ok <==> has_authentication && existing is None,
        r matches Err(e) ==> e is BadRequest,
{
    if !has_authentication {
        return Err(Error::BadRequest);
    }
    if existing.is_some() {
        return Err(Error::BadRequest);
    }
    Ok(())
}

/// Password resets are not offered to administrators: their requests are
/// unauthorised.
pub fn require_not_eor_admin(role: AccountRole) -> (r: Result<(), Error>)
    ensures
        r is Ok <==> role != AccountRole::EorAdmin,
        r matches Err(e) ==> e is Unauthorized,
{
    match role {
        AccountRole::EorAdmin => Err(Error::Unauthorized),
        _ => Ok(()),
    }
}

/// A lost-password token that matches no open one-time session is refused.
pub fn lost_password_token_decision(valid: bool) -> (r: Result<(), Error>)
    ensures
        r is Ok <==> valid,
        r matches Err(e) ==> (e matches Error::UnauthorizedVerbose(m) && m@
            == "Invalid lost password token used"@),
{
    if valid {
        Ok(())
    } else {
        Err(Error::UnauthorizedVerbose(String::from_str("Invalid lost password token used")))
    }
}

/// Where the lost-password link leads: the platform's password page for the
/// role, with a token for the password change.
pub fn role_change_password_url(domain_url: &str, role: &str, token: &str) -> (url: String)
    ensures
        url@ == domain_url@ + "/changepasswordpage/"@ + role@ + "?token="@ + token@,
{
    let mut url = String::from_str(domain_url);
    url.append("/changepasswordpage/");
    url.append(role);
    url.append("?token=");
    url.append(token);
    url
}

/// The checks of a role password change before its token is used: an
/// administrator is unauthorised, and two entries that differ as typed are a
/// bad request. The token is redeemed only after these checks pass.
pub fn role_change_password_check(role: AccountRole, password: &str, confirm_password: &str) -> (r: Result<
    (),
    Error,
>)
    ensures
        r is Ok <==> role != AccountRole::EorAdmin && password@ == confirm_password@,
        role == AccountRole::EorAdmin ==> (r matches Err(e) && e is Unauthorized),
        role != AccountRole::EorAdmin && password@ != confirm_password@ ==> (r matches Err(e)
            && e is BadRequest),
{
    require_not_eor_admin(role)?;
    if !text_eq(password, confirm_password) {
        return Err(Error::BadRequest);
    }
    Ok(())
}

/// A change-password token that matches no open one-time session is
/// unauthorised.
pub fn change_password_token_decision(valid: bool) -> (r: Result<(), Error>)
    ensures
        r is Ok <==> valid,
        r matches Err(e) ==> e is Unauthorized,
{
    if valid {
        Ok(())
    } else {
        Err(Error::Unauthorized)
    }
}

/// The password of a role account is replaced only if the account exists;
/// otherwise the request is a bad request.
pub fn role_password_owner(exists: bool) -> (r: Result<(), Error>)
    ensures
        r is Ok <==> exists,
        r matches Err(e) ==> e is BadRequest,
{
    if exists {
        Ok(())
    } else {
        Err(Error::BadRequest)
    }
}

/// Google sign-in is not offered to administrators: their requests are bad
/// requests.
pub fn google_role_allowed(role: AccountRole) -> (r: Result<(), Error>)
    ensures
        r is Ok <==> role != AccountRole::EorAdmin,
        r matches Err(e) ==> e is BadRequest,
{
    match role {
        AccountRole::EorAdmin => Err(Error::BadRequest),
        _ => Ok(()),
    }
}

/// Google sign-in for a role, once the email's account was looked up (its
/// id and whether it signed up with Google): an account of Google logs in, an
/// account of another kind cannot be linked (bad request), and an unknown
/// email gets a new Google account (`None`).
pub fn google_role_login_decision(existing: Option<(u128, bool)>) -> (r: Result<Option<u128>, Error>)
    ensures
        match existing {
            None => r matches Ok(None),
            Some((id, true)) => r == Ok::<Option<u128>, Error>(Some(id)),
            Some((_, false)) => r matches Err(e) && e is BadRequest,
        },
{
    match existing {
        None => Ok(None),
        Some((id, is_google)) => {
            if is_google {
                Ok(Some(id))
            } else {
                Err(Error::BadRequest)
            }
        },
    }
}

/// The account that role-based claims name: a ULID subject and a role name;
/// a subject or role that cannot be read is a conversion error.
pub fn role_subject(sub: &str, role: &str) -> (r: Result<(u128, AccountRole), Error>)
    ensures
        match (ulid_parse(sub@), spec_parse_account_role(role@)) {
            (Some(u), Some(k)) => r == Ok::<(u128, AccountRole), Error>((u, k)),
            (None, _) => r matches Err(Error::Conversion(m)) && m@ == "uuid parse error"@,
            (Some(_), None) => r matches Err(Error::Conversion(m)) && m@ == "role parse error"@,
        },
{
    let ulid = match parse_ulid(sub) {
        Some(u) => u,
        None => return Err(Error::Conversion(String::from_str("uuid parse error"))),
    };
    let role = match AccountRole::from_str(role) {
        Some(k) => k,
        None => return Err(Error::Conversion(String::from_str("role parse error"))),
    };
    Ok((ulid, role))
}

/// A new access token is issued on role-based claims only while their
/// account exists; otherwise the request is unauthorised.
pub fn renew_access_decision(exists: bool) -> (r: Result<(), Error>)
    ensures
        r is Ok <==> exists,
        r matches Err(e) ==> e is Unauthorized,
{
    if exists {
        Ok(())
    } else {
        Err(Error::Unauthorized)
    }
}

/// The onboarding table side of an individual's details: only individual
/// clients and individual contractors submit them; other roles are
/// forbidden.
pub fn individual_onboarding_role(role: AccountRole) -> (r: Result<Role, Error>)
    ensures
        match role {
            AccountRole::ClientIndividual => r == Ok::<Role, Error>(Role::Client),
            AccountRole::ContractorIndividual => r == Ok::<Role, Error>(Role::Contractor),
            _ => r matches Err(e) && e is Forbidden,
        },
{
    match role {
        AccountRole::ClientIndividual => Ok(Role::Client),
        AccountRole::ContractorIndividual => Ok(Role::Contractor),
        _ => Err(Error::Forbidden),
    }
}

/// Only administrators submit an administrator's details; other roles are
/// forbidden.
pub fn eor_onboarding_role(role: AccountRole) -> (r: Result<(), Error>)
    ensures
        r is Ok <==> role == AccountRole::EorAdmin,
        r matches Err(e) ==> e is Forbidden,
{
    match role {
        AccountRole::EorAdmin => Ok(()),
        _ => Err(Error::Forbidden),
    }
}

/// Claims of a one-time token issued to a role account.
#[derive(Debug)]
pub struct RoleOneTimeToken {
    pub sub: String,
    pub role: String,
    pub aud: String,
    pub iss: String,
    pub exp: u64,
}

/// The claims of a one-time token for purpose `T`, issued at `now` to the
/// role account whose id is written `sub`, by `issuer`, with its expiry;
/// fails only where the expiry overflows.
pub fn role_one_time_token_claims_at<T: OneTimeTokenAudience>(
    sub: &str,
    role: AccountRole,
    issuer: &str,
    now: i64,
) -> (r: Result<(RoleOneTimeToken, i64), Error>)
    ensures
        match spec_expiration(now, T::spec_lifetime()) {
            None => r matches Err(e) && e is Internal,
            Some(exp) => r matches Ok((claims, e)) && {
                &&& e == exp
                &&& claims.exp == exp as u64
                &&& claims.sub@ == sub@
                &&& claims.role@ == spec_account_role_name(role)
                &&& claims.aud@ == T::spec_name()
                &&& claims.iss@ == issuer@
            },
        },
{
    let expiration = match now.checked_add(T::lifetime()) {
        Some(e) => e,
        None => return Err(Error::Internal),
    };
    let claims = RoleOneTimeToken {
        sub: String::from_str(sub),
        role: String::from_str(role.as_str()),
        aud: String::from_str(T::name()),
        iss: String::from_str(issuer),
        exp: #[verifier::truncate] (expiration as u64),
    };
    Ok((claims, expiration))
}

/// The claims of a role one-time token for purpose `T`, issued now by the
/// system clock.
pub fn create_role_one_time_token<T: OneTimeTokenAudience>(sub: &str, role: AccountRole, issuer: &str) -> (r: Result<
    (RoleOneTimeToken, i64),
    Error,
>)
    ensures
        r matches Ok((claims, e)) ==> {
            &&& claims.exp == e as u64
            &&& claims.sub@ == sub@
            &&& claims.role@ == spec_account_role_name(role)
            &&& claims.aud@ == T::spec_name()
            &&& claims.iss@ == issuer@
            &&& exists|now: i64| clock_seconds(now) && spec_expiration(now, T::spec_lifetime()) == Some(e)
        },
        r matches Err(e) ==> e is Internal,
{
    let now = now_unix_timestamp();
    role_one_time_token_claims_at::<T>(sub, role, issuer, now)
}

} // verus!
