use wishlist::auth::CredentialError;
use wishlist::guard::{GuardResult, Outcome};
use wishlist::service::{list_query, ServiceError};
use wishlist::store::StoreError;

#[test]
fn status_codes() {
    assert_eq!(ServiceError::MissingCredential.status_code(), 401);
    assert_eq!(ServiceError::AuthenticationFailed.status_code(), 401);
    assert_eq!(ServiceError::InvalidCredentials.status_code(), 401);
    assert_eq!(ServiceError::Conflict.status_code(), 409);
    assert_eq!(ServiceError::NotFoundOrUnauthorized.status_code(), 404);
    assert_eq!(ServiceError::BackendUnavailable.status_code(), 503);
    assert_eq!(ServiceError::DeauthenticationFailed.status_code(), 500);
}

#[test]
fn error_conversions() {
    assert_eq!(ServiceError::from_credential(CredentialError::MissingCredential), ServiceError::MissingCredential);
    assert_eq!(ServiceError::from_store(StoreError::Conflict), ServiceError::Conflict);
    assert_eq!(ServiceError::from_store(StoreError::KeysExhausted), ServiceError::BackendUnavailable);
    assert_eq!(
        ServiceError::from_guard(GuardResult::AuthenticationFailed),
        Some(ServiceError::AuthenticationFailed)
    );
    assert_eq!(
        ServiceError::from_guard(GuardResult::Completed { outcome: Outcome::Failed, released: false }),
        None
    );
}

#[test]
fn list_queries() {
    assert_eq!(list_query(true), "SELECT *, created_by.name AS username FROM wish");
    assert_eq!(list_query(false), "SELECT * FROM wish");
}
