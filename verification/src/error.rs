//! Error values of the service and the HTTP answer that each one gives.

use vstd::prelude::*;

verus! {

/// Which registration checks failed.
#[derive(Debug, Clone, Copy, PartialEq, Eq, Structural)]
pub struct RegistrationError {
    pub is_valid_email: bool,
    pub is_email_available: bool,
    pub is_password_at_least_8_chars: bool,
    pub passwords_match: bool,
}

/// Error responses.
#[derive(Debug)]
pub enum Error {
    Registration(RegistrationError),
    Dapr(String),
    GooglePublicKeys,
    Conversion(String),
    Unauthorized,
    UnauthorizedVerbose(String),
    BadRequest,
    BadRequestVerbose(String),
    Forbidden,
    NotFound,
    UnsupportedImageFormat,
    PayloadTooLarge(String),
    Internal,
    InternalVerbose(String),
}

/// The HTTP status code that answers an error.
pub open spec fn spec_status_code(e: Error) -> u16 {
    match e {
        Error::Registration(_) => 400,
        Error::Dapr(_) => 500,
        Error::GooglePublicKeys => 500,
        Error::Conversion(_) => 500,
        Error::Unauthorized => 401,
        Error::UnauthorizedVerbose(_) => 401,
        Error::BadRequest => 400,
        Error::BadRequestVerbose(_) => 400,
        Error::Forbidden => 403,
        Error::NotFound => 404,
        Error::UnsupportedImageFormat => 415,
        Error::PayloadTooLarge(_) => 413,
        Error::Internal => 500,
        Error::InternalVerbose(_) => 500,
    }
}

/// The text body that answers an error; `verbose` builds keep the details
/// that production builds hide. A registration error has no text body: it
/// is answered with its flags instead.
pub open spec fn spec_message(e: Error, verbose: bool) -> Option<Seq<char>> {
    match e {
        Error::Registration(_) => None,
        Error::Dapr(m) => Some(if verbose { m@ } else { "Internal server error"@ }),
        Error::GooglePublicKeys => Some(
            if verbose {
                "Failed to get Google's public keys"@
            } else {
                "Internal server error"@
            },
        ),
        Error::Conversion(m) => Some(if verbose { m@ } else { "Internal server error"@ }),
        Error::Unauthorized => Some("Unauthorized"@),
        Error::UnauthorizedVerbose(m) => Some(if verbose { m@ } else { "Unauthorized"@ }),
        Error::BadRequest => Some("Bad request"@),
        Error::BadRequestVerbose(m) => Some(if verbose { m@ } else { "Bad request"@ }),
        Error::Forbidden => Some("Forbidden"@),
        Error::NotFound => Some("Not found"@),
        Error::UnsupportedImageFormat => Some("Unsupported image format"@),
        Error::PayloadTooLarge(m) => Some(m@),
        Error::Internal => Some("Internal server error"@),
        Error::InternalVerbose(m) => Some(if verbose { m@ } else { "Internal server error"@ }),
    }
}

impl Error {
    /// The HTTP status code of the response for this error.
    pub fn status_code(&self) -> (code: u16)
        ensures
            code == spec_status_code(*self),
    {
        match self {
            Error::Registration(_) => 400,
            Error::Dapr(_) => 500,
            Error::GooglePublicKeys => 500,
            Error::Conversion(_) => 500,
            Error::Unauthorized => 401,
            Error::UnauthorizedVerbose(_) => 401,
            Error::BadRequest => 400,
            Error::BadRequestVerbose(_) => 400,
            Error::Forbidden => 403,
            Error::NotFound => 404,
            Error::UnsupportedImageFormat => 415,
            Error::PayloadTooLarge(_) => 413,
            Error::Internal => 500,
            Error::InternalVerbose(_) => 500,
        }
    }

    /// The text body of the response for this error.
    pub fn message(&self, verbose: bool) -> (msg: Option<String>)
        ensures
            match (msg, spec_message(*self, verbose)) {
                (Some(m), Some(s)) => m@ == s,
                (None, None) => true,
                _ => false,
            },
    {
        let hidden = String::from_str("Internal server error");
        match self {
            Error::Registration(_) => None,
            Error::Dapr(m) => Some(if verbose { m.clone() } else { hidden }),
            Error::GooglePublicKeys => Some(
                if verbose {
                    String::from_str("Failed to get Google's public keys")
                } else {
                    hidden
                },
            ),
            Error::Conversion(m) => Some(if verbose { m.clone() } else { hidden }),
            Error::Unauthorized => Some(String::from_str("Unauthorized")),
            Error::UnauthorizedVerbose(m) => Some(
                if verbose { m.clone() } else { String::from_str("Unauthorized") },
            ),
            Error::BadRequest => Some(String::from_str("Bad request")),
            Error::BadRequestVerbose(m) => Some(
                if verbose { m.clone() } else { String::from_str("Bad request") },
            ),
            Error::Forbidden => Some(String::from_str("Forbidden")),
            Error::NotFound => Some(String::from_str("Not found")),
            Error::UnsupportedImageFormat => Some(String::from_str("Unsupported image format")),
            Error::PayloadTooLarge(m) => Some(m.clone()),
            Error::Internal => Some(hidden),
            Error::InternalVerbose(m) => Some(if verbose { m.clone() } else { hidden }),
        }
    }
}

} // verus!
