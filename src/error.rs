use vstd::prelude::*;
use crate::model::Role;

verus! {

/// Every way a request can fail, as seen by the caller.
#[derive(Debug, Clone, Copy, PartialEq, Eq, Structural)]
pub enum ApiError {
    /// A registration field is missing or empty.
    Validation,
    /// The email is already registered.
    DuplicateEmail,
    /// Bad credentials, or a missing, malformed, forged or expired token.
    AuthenticationFailure,
    /// The caller is known but lacks the role the endpoint asks for, given here.
    AuthorizationFailure(Role),
    /// The caller's account is no longer in the registry.
    NotFound,
    /// The password could not be hashed, or no identifier is left to assign.
    Internal,
}

impl ApiError {
    /// The HTTP status that stands for the error.
    pub fn status(&self) -> (r: u16)
        ensures
            r == spec_status(*self),
    {
        match self {
            ApiError::Validation => 400,
            ApiError::DuplicateEmail => 409,
            ApiError::AuthenticationFailure => 401,
            ApiError::AuthorizationFailure(_) => 403,
            ApiError::NotFound => 404,
            ApiError::Internal => 500,
        }
    }

    /// The message shown to the caller. Authentication failures share one message
    /// whatever their cause.
    pub fn message(&self) -> (r: &'static str)
        ensures
            *self == ApiError::Validation ==> r@ == "All fields are required"@,
            *self == ApiError::DuplicateEmail ==> r@ == "Email already registered"@,
            *self == ApiError::AuthenticationFailure ==> r@ == "Invalid credentials"@,
            *self == ApiError::AuthorizationFailure(Role::Admin) ==> r@ == "Admin access required"@,
            *self == ApiError::AuthorizationFailure(Role::User) ==> r@ == "User access required"@,
            *self == ApiError::NotFound ==> r@ == "User not found"@,
            *self == ApiError::Internal ==> r@ == "Internal error"@,
    {
        match self {
            ApiError::Validation => "All fields are required",
            ApiError::DuplicateEmail => "Email already registered",
            ApiError::AuthenticationFailure => "Invalid credentials",
            ApiError::AuthorizationFailure(Role::Admin) => "Admin access required",
            ApiError::AuthorizationFailure(Role::User) => "User access required",
            ApiError::NotFound => "User not found",
            ApiError::Internal => "Internal error",
        }
    }
}

pub open spec fn spec_status(e: ApiError) -> u16 {
    match e {
        ApiError::Validation => 400,
        ApiError::DuplicateEmail => 409,
        ApiError::AuthenticationFailure => 401,
        ApiError::AuthorizationFailure(_) => 403,
        ApiError::NotFound => 404,
        ApiError::Internal => 500,
    }
}

} // verus!
