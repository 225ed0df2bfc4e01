use wishlist::model::{RecordId, User, UserRole, WishStatus};
use wishlist::store::{decimal_text, StoreError, WishTable};

fn user(key: &str, roles: Vec<UserRole>) -> User {
    User {
        id: RecordId { table: "user".to_string(), key: key.to_string() },
        name: key.to_string(),
        pass: "hash".to_string(),
        roles,
    }
}

#[test]
fn create_sets_owner_and_submitted() {
    let alice = user("alice", vec![UserRole::Default]);
    let mut t = WishTable::new();
    let w = t.create(&alice, Some("w1".to_string()), "a bike".to_string()).ok().unwrap();
    assert_eq!(w.id.table, "wish");
    assert_eq!(w.id.key, "w1");
    assert_eq!(w.content, "a bike");
    assert_eq!(w.status, WishStatus::Submitted);
    assert_eq!(w.created_by.unwrap().key, "alice");
    assert_eq!(t.rows.len(), 1);
}

#[test]
fn create_with_taken_id_conflicts() {
    let alice = user("alice", vec![UserRole::Default]);
    let bob = user("bob", vec![UserRole::Default]);
    let mut t = WishTable::new();
    assert!(t.create(&alice, Some("w1".to_string()), "a".to_string()).is_ok());
    let r = t.create(&bob, Some("w1".to_string()), "b".to_string());
    assert!(matches!(r, Err(StoreError::Conflict)));
    let r = t.create(&alice, Some("w1".to_string()), "c".to_string());
    assert!(matches!(r, Err(StoreError::Conflict)));
    assert_eq!(t.rows.len(), 1);
    assert_eq!(t.rows[0].content, "a");
}

#[test]
fn create_without_id_never_collides() {
    let alice = user("alice", vec![UserRole::Default]);
    let mut t = WishTable::new();
    // a caller takes the text the table would assign first
    assert!(t.create(&alice, Some("0".to_string()), "taken".to_string()).is_ok());
    let a = t.create(&alice, None, "x".to_string()).ok().unwrap();
    let b = t.create(&alice, None, "y".to_string()).ok().unwrap();
    assert_eq!(a.id.key, "1");
    assert_eq!(b.id.key, "2");
    let mut keys: Vec<String> = t.rows.iter().map(|w| w.id.key.clone()).collect();
    keys.sort();
    keys.dedup();
    assert_eq!(keys.len(), 3);
}

#[test]
fn create_without_id_when_numbers_run_out() {
    let alice = user("alice", vec![UserRole::Default]);
    let mut t = WishTable::new();
    t.next_number = u64::MAX;
    assert!(matches!(t.create(&alice, None, "x".to_string()), Err(StoreError::KeysExhausted)));
    assert_eq!(t.rows.len(), 0);
}

#[test]
fn read_is_owner_or_admin_only() {
    let alice = user("alice", vec![UserRole::Default]);
    let bob = user("bob", vec![UserRole::Default]);
    let root = user("root", vec![UserRole::Default, UserRole::Admin]);
    let mut t = WishTable::new();
    t.create(&alice, Some("w1".to_string()), "a bike".to_string()).ok().unwrap();
    assert!(t.read(&bob, &"w1".to_string()).is_none());
    assert_eq!(t.read(&alice, &"w1".to_string()).unwrap().content, "a bike");
    assert_eq!(t.read(&root, &"w1".to_string()).unwrap().content, "a bike");
    assert!(t.read(&alice, &"nope".to_string()).is_none());
}

#[test]
fn delete_by_stranger_changes_nothing() {
    let alice = user("alice", vec![UserRole::Default]);
    let bob = user("bob", vec![UserRole::Default]);
    let mut t = WishTable::new();
    t.create(&alice, Some("w1".to_string()), "a".to_string()).ok().unwrap();
    assert!(t.delete(&bob, &"w1".to_string()).is_none());
    assert_eq!(t.rows.len(), 1);
    let d = t.delete(&alice, &"w1".to_string()).unwrap();
    assert_eq!(d.id.key, "w1");
    assert_eq!(t.rows.len(), 0);
    assert!(t.delete(&alice, &"w1".to_string()).is_none());
}

#[test]
fn progress_four_times_through_table() {
    let alice = user("alice", vec![UserRole::Default]);
    let mut t = WishTable::new();
    let w = t.create(&alice, None, "a".to_string()).ok().unwrap();
    let k = w.id.key.clone();
    assert_eq!(t.progress(&alice, &k).unwrap().status, WishStatus::CreationInProgress);
    assert_eq!(t.progress(&alice, &k).unwrap().status, WishStatus::InDelivery);
    assert_eq!(t.progress(&alice, &k).unwrap().status, WishStatus::Delivered);
    assert!(t.progress(&alice, &k).is_none());
    assert_eq!(t.read(&alice, &k).unwrap().status, WishStatus::Delivered);
}

#[test]
fn progress_by_stranger_is_none_and_changes_nothing() {
    let alice = user("alice", vec![UserRole::Default]);
    let bob = user("bob", vec![UserRole::Default]);
    let mut t = WishTable::new();
    t.create(&alice, Some("w1".to_string()), "a".to_string()).ok().unwrap();
    assert!(t.progress(&bob, &"w1".to_string()).is_none());
    assert_eq!(t.rows[0].status, WishStatus::Submitted);
}

#[test]
fn list_shows_only_visible_in_order() {
    let alice = user("alice", vec![UserRole::Default]);
    let bob = user("bob", vec![UserRole::Default]);
    let root = user("root", vec![UserRole::Admin]);
    let mut t = WishTable::new();
    t.create(&alice, Some("a1".to_string()), "x".to_string()).ok().unwrap();
    t.create(&bob, Some("b1".to_string()), "y".to_string()).ok().unwrap();
    t.create(&alice, Some("a2".to_string()), "z".to_string()).ok().unwrap();
    let keys = |v: Vec<wishlist::model::Wish>| v.into_iter().map(|w| w.id.key).collect::<Vec<_>>();
    assert_eq!(keys(t.list(&alice)), vec!["a1", "a2"]);
    assert_eq!(keys(t.list(&bob)), vec!["b1"]);
    assert_eq!(keys(t.list(&root)), vec!["a1", "b1", "a2"]);
}

#[test]
fn decimal_text_values() {
    assert_eq!(decimal_text(0), "0");
    assert_eq!(decimal_text(7), "7");
    assert_eq!(decimal_text(42), "42");
    assert_eq!(decimal_text(u64::MAX), "18446744073709551615");
}

#[test]
fn list_with_usernames_attaches_visible_names() {
    let alice = user("alice", vec![UserRole::Default]);
    let bob = user("bob", vec![UserRole::Default]);
    let root = user("root", vec![UserRole::Admin]);
    let users = vec![user("alice", vec![UserRole::Default]), user("bob", vec![UserRole::Default])];
    let mut t = WishTable::new();
    t.create(&alice, Some("a1".to_string()), "x".to_string()).ok().unwrap();
    t.create(&bob, Some("b1".to_string()), "y".to_string()).ok().unwrap();
    let mine = t.list_with_usernames(&alice, &users);
    assert_eq!(mine.len(), 1);
    assert_eq!(mine[0].id.key, "a1");
    assert_eq!(mine[0].content, "x");
    assert_eq!(mine[0].username.as_deref(), Some("alice"));
    let all = t.list_with_usernames(&root, &users);
    let names: Vec<Option<String>> = all.into_iter().map(|w| w.username).collect();
    assert_eq!(names, vec![Some("alice".to_string()), Some("bob".to_string())]);
    // a creator missing from the directory has no name
    let none = t.list_with_usernames(&root, &Vec::new());
    assert!(none.iter().all(|w| w.username.is_none()));
    assert_eq!(none.len(), 2);
}
