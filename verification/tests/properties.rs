//! Concrete scenarios for the properties the library states: idempotent
//! schema initialization, silent success on absent names, non-unique match
//! semantics, and the empty listing.

use userdb::store::Store;

fn setup_test_db() -> Store {
    let mut conn = Store::open_in_memory().unwrap();
    conn.create_table().unwrap();
    conn
}

#[test]
fn schema_init_twice_no_error_keeps_rows() {
    let mut conn = setup_test_db();
    conn.insert_user("Alice", 30).unwrap();
    assert!(conn.create_table().is_ok());
    let users = conn.read_users().unwrap();
    assert_eq!(users.len(), 1);
    assert_eq!(users[0].name, "Alice");
    assert_eq!(users[0].age, 30);
}

#[test]
fn update_absent_name_succeeds_and_changes_nothing() {
    let mut conn = setup_test_db();
    conn.insert_user("Alice", 30).unwrap();
    assert!(conn.update_user("Bob", 99).is_ok());
    let users = conn.read_users().unwrap();
    assert_eq!(users.len(), 1);
    assert_eq!(users[0].name, "Alice");
    assert_eq!(users[0].age, 30);
}

#[test]
fn delete_absent_name_succeeds_and_changes_nothing() {
    let mut conn = setup_test_db();
    conn.insert_user("Alice", 30).unwrap();
    assert!(conn.delete_user("Bob").is_ok());
    let users = conn.read_users().unwrap();
    assert_eq!(users.len(), 1);
    assert_eq!(users[0].name, "Alice");
    assert_eq!(users[0].age, 30);
}

#[test]
fn update_affects_every_row_with_the_name() {
    let mut conn = setup_test_db();
    conn.insert_user("Alice", 30).unwrap();
    conn.insert_user("Alice", 40).unwrap();
    conn.insert_user("Bob", 50).unwrap();
    conn.update_user("Alice", 35).unwrap();
    let users = conn.read_users().unwrap();
    assert_eq!(users.len(), 3);
    for user in &users {
        if user.name == "Alice" {
            assert_eq!(user.age, 35);
        } else {
            assert_eq!(user.name, "Bob");
            assert_eq!(user.age, 50);
        }
    }
    assert_eq!(users.iter().filter(|u| u.name == "Alice").count(), 2);
}

#[test]
fn delete_affects_every_row_with_the_name() {
    let mut conn = setup_test_db();
    conn.insert_user("Alice", 30).unwrap();
    conn.insert_user("Alice", 40).unwrap();
    conn.insert_user("Bob", 50).unwrap();
    conn.delete_user("Alice").unwrap();
    let users = conn.read_users().unwrap();
    assert_eq!(users.len(), 1);
    assert_eq!(users[0].name, "Bob");
    assert_eq!(users[0].age, 50);
}

#[test]
fn list_on_empty_store_is_empty_not_an_error() {
    let conn = setup_test_db();
    let users = conn.read_users().unwrap();
    assert!(users.is_empty());
}

#[test]
fn insert_assigns_distinct_ids() {
    let mut conn = setup_test_db();
    conn.insert_user("Alice", 30).unwrap();
    conn.insert_user("Alice", 30).unwrap();
    let users = conn.read_users().unwrap();
    assert_eq!(users.len(), 2);
    assert_ne!(users[0].id, users[1].id);
}

#[test]
fn operation_without_table_reports_error() {
    let mut conn = Store::open_in_memory().unwrap();
    let err = conn.insert_user("Alice", 30).unwrap_err();
    assert!(!err.message.is_empty());
    assert!(conn.read_users().is_err());
    assert!(conn.update_user("Alice", 31).is_err());
    assert!(conn.delete_user("Alice").is_err());
}
