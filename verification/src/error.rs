//! The closed set of user-facing error kinds, and the flat error record that
//! the transport layer turns into a response.
//!
//! Every failure inside the engine is translated to one of the five kinds
//! before it crosses the library boundary; no internal cause text leaks out.

use vstd::prelude::*;
use vstd::string::StringExecFns;
use crate::decimal::dec_of;

verus! {

/// The five user-facing error kinds of the engine.
#[derive(Clone, Copy, Debug, PartialEq, Eq, Structural)]
pub enum ApiErrorKind {
    InternalServerError,
    EmailAlreadyInUse,
    UsernameAlreadyInUse,
    InvalidCredentials,
    InvalidSession,
}

impl ApiErrorKind {
    /// The HTTP-equivalent status class of this kind, as a plain number.
    pub open spec fn spec_status(self) -> u16 {
        match self {
            ApiErrorKind::InternalServerError => 500,
            ApiErrorKind::EmailAlreadyInUse => 409,
            ApiErrorKind::UsernameAlreadyInUse => 409,
            ApiErrorKind::InvalidCredentials => 401,
            ApiErrorKind::InvalidSession => 401,
        }
    }

    /// The user-facing message of this kind.
    pub open spec fn spec_message(self) -> Seq<char> {
        match self {
            ApiErrorKind::InternalServerError => "Internal server error"@,
            ApiErrorKind::EmailAlreadyInUse => "Email is already in use"@,
            ApiErrorKind::UsernameAlreadyInUse => "Username is already in use"@,
            ApiErrorKind::InvalidCredentials => "Invalid email or password"@,
            ApiErrorKind::InvalidSession => "Session expired or invalid"@,
        }
    }

    pub fn to_status_code(&self) -> (r: u16)
        ensures
            r == self.spec_status(),
    {
        match self {
            ApiErrorKind::InternalServerError => 500,
            ApiErrorKind::EmailAlreadyInUse => 409,
            ApiErrorKind::UsernameAlreadyInUse => 409,
            ApiErrorKind::InvalidCredentials => 401,
            ApiErrorKind::InvalidSession => 401,
        }
    }

    pub fn message(&self) -> (r: &str)
        ensures
            r@ == self.spec_message(),
    {
        match self {
            ApiErrorKind::InternalServerError => "Internal server error",
            ApiErrorKind::EmailAlreadyInUse => "Email is already in use",
            ApiErrorKind::UsernameAlreadyInUse => "Username is already in use",
            ApiErrorKind::InvalidCredentials => "Invalid email or password",
            ApiErrorKind::InvalidSession => "Session expired or invalid",
        }
    }
}

/// A user-facing error: a status code and a message, nothing more.
#[derive(Debug)]
pub struct ApiError {
    pub code: u16,
    pub message: String,
}

impl ApiError {
    pub fn new(kind: ApiErrorKind) -> (r: ApiError)
        ensures
            r.code == kind.spec_status(),
            r.message@ == kind.spec_message(),
    {
        ApiError { code: kind.to_status_code(), message: kind.message().to_owned() }
    }

    /// The error, rendered for an internal log line.
    pub fn describe(&self) -> (r: String)
        ensures
            r@ == "ApiError { code: "@ + dec_of(self.code as nat) + ", message: "@ + self.message@
                + " }"@,
    {
        let mut s = "ApiError { code: ".to_owned();
        s.append(crate::decimal::u128_to_dec(self.code as u128).as_str());
        s.append(", message: ");
        s.append(self.message.as_str());
        s.append(" }");
        s
    }
}

} // verus!
