use wishlist::model::{
    signup_roles, InfoResponse, RecordId, User, UserRole, WishContent, WishCreateRequest,
};

#[test]
fn new_identity_gets_default_role_only() {
    assert_eq!(signup_roles(), vec![UserRole::Default]);
}

#[test]
fn created_content_is_submitted() {
    let req = WishCreateRequest { content: "a kite".to_string() };
    let c = WishContent::submitted(&req);
    assert_eq!(c.content, "a kite");
    assert_eq!(c.status, wishlist::model::WishStatus::Submitted);
}

#[test]
fn admin_role_detection() {
    let mk = |roles| User {
        id: RecordId { table: "user".to_string(), key: "u".to_string() },
        name: "u".to_string(),
        pass: "h".to_string(),
        roles,
    };
    assert!(!mk(vec![]).has_admin_role());
    assert!(!mk(vec![UserRole::Default]).has_admin_role());
    assert!(mk(vec![UserRole::Default, UserRole::Admin]).has_admin_role());
}

#[test]
fn record_ids_compare_by_table_and_key() {
    let a = RecordId { table: "user".to_string(), key: "alice".to_string() };
    let b = RecordId { table: "user".to_string(), key: "alice".to_string() };
    let c = RecordId { table: "wish".to_string(), key: "alice".to_string() };
    assert!(a.same(&b));
    assert!(!a.same(&c));
    assert!(a.duplicate().same(&a));
}

#[test]
fn info_response_success() {
    let r = InfoResponse::success(None, Some("s".to_string()));
    assert_eq!(r.info, "Success!");
    assert!(r.user.is_none());
    assert_eq!(r.session.as_deref(), Some("s"));
}
