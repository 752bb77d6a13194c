use amp::sample::{calculate_hash, find_first, validate_email, Error, Repository, Status, User, UserRepository, Validator};

#[test]
fn test_user_creation() {
    let user = User::new(1, "Alice".to_string(), "alice@example.com".to_string());
    assert_eq!(user.id, 1);
    assert_eq!(user.name, "Alice");
    assert!(user.is_active());
}

#[test]
fn test_email_validation() {
    assert!(validate_email("test@example.com"));
    assert!(!validate_email("invalid-email"));
}

#[test]
fn email_needs_both_at_and_dot() {
    assert!(!validate_email("user@host"));
    assert!(!validate_email("user.host"));
    assert!(validate_email("a@b.c"));
}

#[test]
fn suspended_user_is_inactive() {
    let mut user = User::new(7, "Bob".to_string(), "bob@example.com".to_string());
    user.suspend("spam".to_string());
    assert!(!user.is_active());
    assert_eq!(user.status.to_display_string(), "Suspended: spam");
}

#[test]
fn validation_errors_name_the_field() {
    let nameless = User::new(1, String::new(), "a@b.c".to_string());
    match nameless.validate() {
        Err(Error::InvalidInput(m)) => assert_eq!(m, "Name cannot be empty"),
        _ => panic!("expected an invalid input error"),
    }
    let bad_email = User::new(1, "Ann".to_string(), "nope".to_string());
    match bad_email.validate() {
        Err(Error::InvalidInput(m)) => assert_eq!(m, "Invalid email format"),
        _ => panic!("expected an invalid input error"),
    }
}

#[test]
fn created_user_is_found_and_deleted() {
    let mut repo = UserRepository::new();
    let u = repo.create_user("Alice".to_string(), "alice@example.com".to_string()).ok().unwrap();
    assert_eq!(u.id, 1);
    let found = repo.find_by_id(1).ok().unwrap().unwrap();
    assert_eq!(found.name, "Alice");
    assert_eq!(repo.delete(1).ok().unwrap(), true);
    assert!(repo.find_by_id(1).ok().unwrap().is_none());
    assert_eq!(repo.delete(1).ok().unwrap(), false);
}

#[test]
fn failed_creation_still_consumes_an_id() {
    let mut repo = UserRepository::new();
    assert!(repo.create_user(String::new(), "x@y.z".to_string()).is_err());
    let u = repo.create_user("Carl".to_string(), "carl@example.com".to_string()).ok().unwrap();
    assert_eq!(u.id, 2);
    assert!(repo.find_by_id(1).ok().unwrap().is_none());
}

#[test]
fn active_users_exclude_suspended_ones() {
    let mut repo = UserRepository::new();
    repo.create_user("A".to_string(), "a@x.y".to_string()).ok().unwrap();
    let mut b = repo.create_user("B".to_string(), "b@x.y".to_string()).ok().unwrap();
    b.suspend("left".to_string());
    repo.save(b).ok().unwrap();
    let active = repo.get_active_users();
    assert_eq!(active.len(), 1);
    assert_eq!(active[0].name, "A");
    assert!(active[0].status == Status::Active);
}

#[test]
fn suspending_a_returned_copy_leaves_the_stored_user_active() {
    let mut repo = UserRepository::new();
    let mut u = repo.create_user("Bob".to_string(), "bob@x.io".to_string()).ok().unwrap();
    u.suspend("spam".to_string());
    let active = repo.get_active_users();
    assert_eq!(active.len(), 1);
    assert_eq!(active[0].id, 1);
    assert_eq!(u.id, 1);
    assert!(active[0].status == Status::Active);
}

#[test]
fn creation_errors_name_the_field() {
    let mut repo = UserRepository::new();
    match repo.create_user(String::new(), "nope".to_string()) {
        Err(Error::InvalidInput(m)) => assert_eq!(m, "Name cannot be empty"),
        _ => panic!("expected an invalid input error"),
    }
    match repo.create_user("Dora".to_string(), "nope".to_string()) {
        Err(Error::InvalidInput(m)) => assert_eq!(m, "Invalid email format"),
        _ => panic!("expected an invalid input error"),
    }
    let u = repo.create_user("Dora".to_string(), "dora@x.io".to_string()).ok().unwrap();
    assert_eq!(u.id, 3);
}

#[test]
fn ids_grow_across_creates_saves_and_deletes() {
    let mut repo = UserRepository::new();
    let a = repo.create_user("A".to_string(), "a@x.y".to_string()).ok().unwrap();
    repo.delete(a.id).ok().unwrap();
    repo.save(a.clone()).ok().unwrap();
    let b = repo.create_user("B".to_string(), "b@x.y".to_string()).ok().unwrap();
    assert!(b.id > a.id);
}

#[test]
fn hash_is_stable_for_equal_input() {
    assert_eq!(calculate_hash("abc"), calculate_hash("abc"));
    assert_ne!(calculate_hash("abc"), calculate_hash("abd"));
    let mut hasher = std::collections::hash_map::DefaultHasher::new();
    std::hash::Hash::hash("abc", &mut hasher);
    assert_eq!(calculate_hash("abc"), std::hash::Hasher::finish(&hasher));
}

#[test]
fn find_first_returns_earliest_match() {
    let items = vec![1, 4, 6, 8];
    assert_eq!(find_first(&items, |x: &i32| *x % 2 == 0), Some(&4));
    assert_eq!(find_first(&items, |x: &i32| *x > 10), None);
}
