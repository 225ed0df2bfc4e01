use wishlist::identity::{login_result, UserTable};
use wishlist::model::UserRole;
use wishlist::service::ServiceError;
use wishlist::store::StoreError;

#[test]
fn register_twice_conflicts_and_login_follows_password_check() {
    let mut t = UserTable::new();
    let alice = t.register("alice".to_string(), "hash-of-pw".to_string()).ok().unwrap();
    assert_eq!(alice.name, "alice");
    assert_eq!(alice.id.table, "user");
    assert_eq!(alice.id.key, "alice");
    assert_eq!(alice.roles, vec![UserRole::Default]);
    let again = t.register("alice".to_string(), "hash-of-pw2".to_string());
    assert!(matches!(again, Err(StoreError::Conflict)));
    assert_eq!(t.users.len(), 1);
    assert_eq!(t.users[0].pass, "hash-of-pw");

    let found = t.find_by_name(&"alice".to_string());
    assert_eq!(login_result(found, true).ok().unwrap().name, "alice");
    let found = t.find_by_name(&"alice".to_string());
    assert!(matches!(login_result(found, false), Err(ServiceError::InvalidCredentials)));
}

#[test]
fn login_with_unknown_name_is_invalid_credentials() {
    let t = UserTable::new();
    let found = t.find_by_name(&"bob".to_string());
    assert!(found.is_none());
    assert!(matches!(login_result(found, true), Err(ServiceError::InvalidCredentials)));
}

#[test]
fn distinct_names_register_independently() {
    let mut t = UserTable::new();
    assert!(t.register("alice".to_string(), "h1".to_string()).is_ok());
    assert!(t.register("bob".to_string(), "h2".to_string()).is_ok());
    assert_eq!(t.find_by_name(&"bob".to_string()).unwrap().pass, "h2");
    assert_eq!(t.users.len(), 2);
}
