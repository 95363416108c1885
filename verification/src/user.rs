//! Account kinds, roles and the stored user record.

use vstd::prelude::*;

use crate::error::Error;

verus! {

/// The kind of account a user holds.
#[derive(Debug, Clone, Copy, PartialEq, Eq, Structural)]
pub enum UserType {
    Individual,
    Entity,
    EorAdmin,
}

/// Which side of an engagement a user acts on.
#[derive(Debug, Clone, Copy, PartialEq, Eq, Structural)]
pub enum Role {
    Client,
    Contractor,
}

/// Name of the authentication table of each account kind.
pub open spec fn spec_db_auth_name(t: UserType) -> Seq<char> {
    match t {
        UserType::Individual => "auth_individuals"@,
        UserType::Entity => "auth_entities"@,
        UserType::EorAdmin => "auth_eor_admins"@,
    }
}

/// Name of the onboarding table of an account kind acting in a role.
pub open spec fn spec_db_onboard_name(t: UserType, role: Role) -> Seq<char> {
    match (t, role) {
        (UserType::Individual, Role::Client) => "onboard_individual_clients"@,
        (UserType::Individual, Role::Contractor) => "onboard_individual_contractors"@,
        (UserType::Entity, Role::Client) => "onboard_entity_clients"@,
        (UserType::Entity, Role::Contractor) => "onboard_entity_contractors"@,
        (UserType::EorAdmin, _) => "onboard_eor_admins"@,
    }
}

impl UserType {
    /// The authentication table that holds accounts of this kind.
    pub fn db_auth_name(&self) -> (name: &'static str)
        ensures
            name@ == spec_db_auth_name(*self),
    {
        proof {
            reveal_strlit("auth_individuals");
            reveal_strlit("auth_entities");
            reveal_strlit("auth_eor_admins");
        }
        match self {
            UserType::Individual => "auth_individuals",
            UserType::Entity => "auth_entities",
            UserType::EorAdmin => "auth_eor_admins",
        }
    }

    /// The onboarding table for accounts of this kind acting in `role`.
    pub fn db_onboard_name(&self, role: Role) -> (name: &'static str)
        ensures
            name@ == spec_db_onboard_name(*self, role),
    {
        match (self, role) {
            (UserType::Individual, Role::Client) => "onboard_individual_clients",
            (UserType::Individual, Role::Contractor) => "onboard_individual_contractors",
            (UserType::Entity, Role::Client) => "onboard_entity_clients",
            (UserType::Entity, Role::Contractor) => "onboard_entity_contractors",
            (UserType::EorAdmin, _) => "onboard_eor_admins",
        }
    }
}

/// A stored account.
#[derive(Debug, Clone)]
pub struct User {
    pub ulid: u128,
    pub email: String,
    pub password: Option<String>,
    pub is_google: bool,
    pub is_outlook: bool,
    pub is_entity: bool,
    pub is_individual: bool,
    pub is_client: bool,
    pub is_contractor: bool,
}

/// The account kind recorded on a user, if the record names one.
pub open spec fn spec_user_type_of(u: User) -> Option<UserType> {
    if u.is_individual {
        Some(UserType::Individual)
    } else if u.is_entity {
        Some(UserType::Entity)
    } else {
        None
    }
}

impl User {
    /// Whether the account can authenticate at all: by password, Google or
    /// Outlook.
    pub fn has_authentication(&self) -> (r: bool)
        ensures
            r == (self.password is Some || self.is_google || self.is_outlook),
    {
        self.password.is_some() || self.is_google || self.is_outlook
    }

    /// The account kind of this user; a record that marks neither kind is
    /// misconfigured.
    pub fn user_type(&self) -> (r: Result<UserType, Error>)
        ensures
            match (r, spec_user_type_of(*self)) {
                (Ok(t), Some(s)) => t == s,
                (Err(Error::InternalVerbose(m)), None) => m@ == "User is not configured properly"@,
                _ => false,
            },
    {
        if self.is_individual {
            Ok(UserType::Individual)
        } else if self.is_entity {
            Ok(UserType::Entity)
        } else {
            Err(Error::InternalVerbose(String::from_str("User is not configured properly")))
        }
    }
}

/// The kebab-case name of an account kind, as used in paths and tokens.
pub open spec fn spec_user_type_name(t: UserType) -> Seq<char> {
    match t {
        UserType::Individual => "individual"@,
        UserType::Entity => "entity"@,
        UserType::EorAdmin => "eor-admin"@,
    }
}

/// The account kind with a given kebab-case name.
pub open spec fn spec_parse_user_type(s: Seq<char>) -> Option<UserType> {
    if s == "individual"@ {
        Some(UserType::Individual)
    } else if s == "entity"@ {
        Some(UserType::Entity)
    } else if s == "eor-admin"@ {
        Some(UserType::EorAdmin)
    } else {
        None
    }
}

impl UserType {
    /// The kebab-case name of this account kind.
    pub fn as_str(&self) -> (s: &'static str)
        ensures
            s@ == spec_user_type_name(*self),
    {
        match self {
            UserType::Individual => "individual",
            UserType::Entity => "entity",
            UserType::EorAdmin => "eor-admin",
        }
    }

    /// The account kind named by a kebab-case text.
    pub fn from_str(s: &str) -> (r: Option<UserType>)
        ensures
            r == spec_parse_user_type(s@),
    {
        if crate::credentials::text_eq(s, "individual") {
            Some(UserType::Individual)
        } else if crate::credentials::text_eq(s, "entity") {
            Some(UserType::Entity)
        } else if crate::credentials::text_eq(s, "eor-admin") {
            Some(UserType::EorAdmin)
        } else {
            None
        }
    }
}

/// Reading the name of an account kind gives the kind back.
pub proof fn lemma_user_type_name_round_trip(t: UserType)
    ensures
        spec_parse_user_type(spec_user_type_name(t)) == Some(t),
{
    reveal_strlit("individual");
    reveal_strlit("entity");
    reveal_strlit("eor-admin");
    assert("entity"@.len() != "individual"@.len());
    assert("eor-admin"@.len() != "individual"@.len());
    assert("eor-admin"@.len() != "entity"@.len());
}

/// The roles that a user holds: each role in which the account has
/// completed onboarding, client first.
pub open spec fn spec_user_roles(client_onboarded: bool, contractor_onboarded: bool) -> Seq<Role> {
    if client_onboarded && contractor_onboarded {
        seq![Role::Client, Role::Contractor]
    } else if client_onboarded {
        seq![Role::Client]
    } else if contractor_onboarded {
        seq![Role::Contractor]
    } else {
        Seq::empty()
    }
}

/// The roles that a user holds, given whether the account completed
/// onboarding as a client and as a contractor.
pub fn user_roles(client_onboarded: bool, contractor_onboarded: bool) -> (roles: Vec<Role>)
    ensures
        roles@ == spec_user_roles(client_onboarded, contractor_onboarded),
        roles@.contains(Role::Client) <==> client_onboarded,
        roles@.contains(Role::Contractor) <==> contractor_onboarded,
        roles@.no_duplicates(),
        forall|i: int, j: int|
            0 <= i < roles@.len() && 0 <= j < roles@.len() && roles@[i] == Role::Contractor
                ==> roles@[j] != Role::Client || j < i,
{
    let mut roles: Vec<Role> = Vec::new();
    if client_onboarded {
        roles.push(Role::Client);
    }
    if contractor_onboarded {
        roles.push(Role::Contractor);
    }
    assert(roles@ =~= spec_user_roles(client_onboarded, contractor_onboarded));
    proof {
        law_roles_are_the_onboarded_ones(client_onboarded, contractor_onboarded);
    }
    roles
}

/// A role is listed exactly when the account completed onboarding in it,
/// each role at most once, and the client role before the contractor role.
pub proof fn law_roles_are_the_onboarded_ones(client_onboarded: bool, contractor_onboarded: bool)
    ensures
        spec_user_roles(client_onboarded, contractor_onboarded).contains(Role::Client) <==> client_onboarded,
        spec_user_roles(client_onboarded, contractor_onboarded).contains(Role::Contractor)
            <==> contractor_onboarded,
        spec_user_roles(client_onboarded, contractor_onboarded).no_duplicates(),
        forall|i: int, j: int|
            0 <= i < spec_user_roles(client_onboarded, contractor_onboarded).len() && 0 <= j
                < spec_user_roles(client_onboarded, contractor_onboarded).len() && spec_user_roles(
                client_onboarded,
                contractor_onboarded,
            )[i] == Role::Contractor ==> spec_user_roles(client_onboarded, contractor_onboarded)[j]
                != Role::Client || j < i,
{
    let s = spec_user_roles(client_onboarded, contractor_onboarded);
    if client_onboarded && contractor_onboarded {
        assert(s[0] == Role::Client);
        assert(s[1] == Role::Contractor);
    } else if client_onboarded {
        assert(s[0] == Role::Client);
    } else if contractor_onboarded {
        assert(s[0] == Role::Contractor);
    }
}

/// An account about to be stored: everything but its id, which the store
/// assigns.
#[derive(Debug)]
pub struct NewUser {
    pub email: String,
    pub password: Option<String>,
    pub is_google: bool,
    pub is_outlook: bool,
    pub is_entity: bool,
    pub is_individual: bool,
    pub is_client: bool,
    pub is_contractor: bool,
}

impl NewUser {
    /// An account that signed up with a password hash, of the given kind.
    pub fn with_password(email: String, password_hash: String, user_type: UserType) -> (u: NewUser)
        ensures
            u.email == email,
            u.password == Some(password_hash),
            !u.is_google && !u.is_outlook && !u.is_client && !u.is_contractor,
            u.is_entity == (user_type == UserType::Entity),
            u.is_individual == (user_type == UserType::Individual),
    {
        NewUser {
            email,
            password: Some(password_hash),
            is_google: false,
            is_outlook: false,
            is_entity: matches!(user_type, UserType::Entity),
            is_individual: matches!(user_type, UserType::Individual),
            is_client: false,
            is_contractor: false,
        }
    }

    /// An account that signed up with Google, of the given kind.
    pub fn with_google(email: String, user_type: UserType) -> (u: NewUser)
        ensures
            u.email == email,
            u.password is None,
            u.is_google && !u.is_outlook && !u.is_client && !u.is_contractor,
            u.is_entity == (user_type == UserType::Entity),
            u.is_individual == (user_type == UserType::Individual),
    {
        NewUser {
            email,
            password: None,
            is_google: true,
            is_outlook: false,
            is_entity: matches!(user_type, UserType::Entity),
            is_individual: matches!(user_type, UserType::Individual),
            is_client: false,
            is_contractor: false,
        }
    }

    /// An individual contractor added in bulk by an administrator, with a
    /// default password hash.
    pub fn bulk_contractor(email: String, password_hash: String) -> (u: NewUser)
        ensures
            u.email == email,
            u.password == Some(password_hash),
            !u.is_google && !u.is_outlook && !u.is_entity && !u.is_client,
            u.is_individual && u.is_contractor,
    {
        NewUser {
            email,
            password: Some(password_hash),
            is_google: false,
            is_outlook: false,
            is_entity: false,
            is_individual: true,
            is_client: false,
            is_contractor: true,
        }
    }
}

/// Sign-up is refused where an account with the email already exists.
pub fn ensure_email_unused(existing: Option<&User>) -> (r: Result<(), Error>)
    ensures
        existing is None ==> r is Ok,
        existing is Some ==> (r matches Err(Error::BadRequestVerbose(m))
            && m@ == "User with that email already exists. Did you forgot the password?"@),
{
    match existing {
        None => Ok(()),
        Some(_) => Err(Error::BadRequestVerbose(
            String::from_str("User with that email already exists. Did you forgot the password?"),
        )),
    }
}

} // verus!
