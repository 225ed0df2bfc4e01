//! The failures a request can meet, how they reach the client, and the
//! backend query that lists wishes.
use vstd::prelude::*;
use vstd::string::StringExecFns;
use crate::auth::CredentialError;
use crate::guard::GuardResult;
use crate::store::StoreError;

verus! {

/// Every failure a request can end in.
#[derive(PartialEq, Eq, Structural, Clone, Copy, Debug)]
pub enum ServiceError {
    /// No bearer credential in the request.
    MissingCredential,
    /// The backend refused the credential (bad or expired).
    AuthenticationFailed,
    /// Login with an unknown name or a wrong password.
    InvalidCredentials,
    /// A name or record id is already taken.
    Conflict,
    /// The record is absent or the caller may not see it; the two are
    /// never told apart.
    NotFoundOrUnauthorized,
    /// The backend could not be reached or is unusable.
    BackendUnavailable,
    /// Clearing a binding failed after the operation.
    DeauthenticationFailed,
}

/// The HTTP status a failure is answered with.
pub open spec fn spec_status(e: ServiceError) -> u16 {
    match e {
        ServiceError::MissingCredential => 401,
        ServiceError::AuthenticationFailed => 401,
        ServiceError::InvalidCredentials => 401,
        ServiceError::Conflict => 409,
        ServiceError::NotFoundOrUnauthorized => 404,
        ServiceError::BackendUnavailable => 503,
        ServiceError::DeauthenticationFailed => 500,
    }
}

impl ServiceError {
    /// The HTTP status this failure is answered with.
    pub fn status_code(&self) -> (r: u16)
        ensures
            r == spec_status(*self),
    {
        match self {
            ServiceError::MissingCredential => 401,
            ServiceError::AuthenticationFailed => 401,
            ServiceError::InvalidCredentials => 401,
            ServiceError::Conflict => 409,
            ServiceError::NotFoundOrUnauthorized => 404,
            ServiceError::BackendUnavailable => 503,
            ServiceError::DeauthenticationFailed => 500,
        }
    }

    /// The failure of a request whose credential could not be extracted.
    pub fn from_credential(e: CredentialError) -> (r: ServiceError)
        ensures
            r == ServiceError::MissingCredential,
    {
        match e {
            CredentialError::MissingCredential => ServiceError::MissingCredential,
        }
    }

    /// The failure of a rejected store operation.
    pub fn from_store(e: StoreError) -> (r: ServiceError)
        ensures
            e == StoreError::Conflict ==> r == ServiceError::Conflict,
            e == StoreError::KeysExhausted ==> r == ServiceError::BackendUnavailable,
    {
        match e {
            StoreError::Conflict => ServiceError::Conflict,
            StoreError::KeysExhausted => ServiceError::BackendUnavailable,
        }
    }

    /// The failure the guard itself imposes on a request, if any: a refused
    /// credential. A failed release is reported apart and never replaces
    /// the operation's own result.
    pub fn from_guard(g: GuardResult) -> (r: Option<ServiceError>)
        ensures
            g == GuardResult::AuthenticationFailed ==> r == Some(
                ServiceError::AuthenticationFailed,
            ),
            g is Completed ==> r is None,
    {
        match g {
            GuardResult::AuthenticationFailed => Some(ServiceError::AuthenticationFailed),
            GuardResult::Completed { .. } => None,
        }
    }
}

/// The backend query that lists the visible wishes, with the creator's
/// name as `username` when asked for.
pub fn list_query(with_username: bool) -> (r: String)
    ensures
        with_username ==> r@ == "SELECT *, created_by.name AS username FROM wish"@,
        !with_username ==> r@ == "SELECT * FROM wish"@,
{
    if with_username {
        String::from_str("SELECT *, created_by.name AS username FROM wish")
    } else {
        String::from_str("SELECT * FROM wish")
    }
}

} // verus!
