use rust_websocket::users::{check_username, UserSet};

#[test]
fn free_name_can_be_claimed_once() {
    let mut users = UserSet::new();
    let alice = "alice".to_string();
    assert!(!users.contains(&alice));
    assert!(check_username(&mut users, &alice));
    assert!(users.contains(&alice));
    assert!(!check_username(&mut users, &alice));
    assert!(users.contains(&alice));
}

#[test]
fn names_are_case_sensitive() {
    let mut users = UserSet::new();
    assert!(check_username(&mut users, &"bob".to_string()));
    assert!(check_username(&mut users, &"Bob".to_string()));
}

#[test]
fn removed_name_is_free_again() {
    let mut users = UserSet::new();
    let carol = "carol".to_string();
    let dave = "dave".to_string();
    assert!(check_username(&mut users, &carol));
    assert!(check_username(&mut users, &dave));
    assert!(users.remove(&carol));
    assert!(!users.contains(&carol));
    assert!(users.contains(&dave));
    assert!(!users.remove(&carol));
    assert!(check_username(&mut users, &carol));
}

#[test]
fn removing_an_unknown_name_changes_nothing() {
    let mut users = UserSet::new();
    let erin = "erin".to_string();
    assert!(check_username(&mut users, &erin));
    assert!(!users.remove(&"frank".to_string()));
    assert!(users.contains(&erin));
}
