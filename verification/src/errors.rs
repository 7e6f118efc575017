//! Errors that the service reports to its callers.

use vstd::prelude::*;

verus! {

#[derive(Clone, Copy, Debug, PartialEq, Eq, Structural)]
pub enum Error {
    MissingUserId,
    UserIdParse,
    ParseError,
    MissingPrice,
    InvalidRoute,
    Forbidden,
}

/// The HTTP status that answers each error.
pub open spec fn spec_status_code(e: Error) -> u16 {
    match e {
        Error::MissingUserId | Error::UserIdParse | Error::MissingPrice => 400,
        Error::ParseError => 422,
        Error::InvalidRoute => 404,
        Error::Forbidden => 403,
    }
}

/// The message of each error.
pub open spec fn spec_message(e: Error) -> Seq<char> {
    match e {
        Error::MissingUserId => "Missing user_id"@,
        Error::UserIdParse => "Failed to parse user_id"@,
        Error::ParseError => "Parse failure"@,
        Error::MissingPrice => "Missing price during order conversion"@,
        Error::InvalidRoute => "Invalid route"@,
        Error::Forbidden => "Server is refusing to fullfil the request"@,
    }
}

impl Error {
    /// HTTP status code of the error.
    pub fn code(&self) -> (r: u16)
        ensures
            r == spec_status_code(*self),
    {
        match self {
            Error::MissingUserId | Error::UserIdParse | Error::MissingPrice => 400,
            Error::ParseError => 422,
            Error::InvalidRoute => 404,
            Error::Forbidden => 403,
        }
    }

    /// Human readable message of the error.
    pub fn message(&self) -> (r: &'static str)
        ensures
            r@ == spec_message(*self),
    {
        match self {
            Error::MissingUserId => "Missing user_id",
            Error::UserIdParse => "Failed to parse user_id",
            Error::ParseError => "Parse failure",
            Error::MissingPrice => "Missing price during order conversion",
            Error::InvalidRoute => "Invalid route",
            Error::Forbidden => "Server is refusing to fullfil the request",
        }
    }
}

/// Every error of the service blames the request: its status is a client
/// error (4xx).
pub proof fn law_errors_are_client_errors(e: Error)
    ensures
        400 <= spec_status_code(e) < 500,
{
}

} // verus!
