//! The record operations against a fresh in-memory store.

use userdb::store::Store;

fn setup_test_db() -> Store {
    let mut conn = Store::open_in_memory().unwrap();
    conn.create_table().unwrap();
    conn
}

#[test]
fn test_create_table() {
    let mut conn = setup_test_db();
    assert!(conn.create_table().is_ok());
}

#[test]
fn test_insert_user() {
    let mut conn = setup_test_db();
    assert!(conn.insert_user("Alice", 30).is_ok());
}

#[test]
fn test_read_users() {
    let mut conn = setup_test_db();
    conn.insert_user("Alice", 30).unwrap();
    let users = conn.read_users().unwrap();
    assert_eq!(users.len(), 1);
    assert_eq!(users[0].name, "Alice");
    assert_eq!(users[0].age, 30);
}

#[test]
fn test_update_user() {
    let mut conn = setup_test_db();
    conn.insert_user("Alice", 30).unwrap();
    conn.update_user("Alice", 35).unwrap();
    let users = conn.read_users().unwrap();
    assert_eq!(users.len(), 1);
    assert_eq!(users[0].age, 35);
}

#[test]
fn test_delete_user() {
    let mut conn = setup_test_db();
    conn.insert_user("Alice", 30).unwrap();
    conn.delete_user("Alice").unwrap();
    let users = conn.read_users().unwrap();
    assert!(users.is_empty());
}
