//! The command dispatcher end to end: each command runs its operation and
//! returns the lines to print.

use userdb::cli::{run_command, Command};
use userdb::store::Store;

fn setup_test_db() -> Store {
    let mut conn = Store::open_in_memory().unwrap();
    conn.create_table().unwrap();
    conn
}

#[test]
fn create_then_read() {
    let mut conn = setup_test_db();
    let created = run_command(
        &mut conn,
        &Command::Create { name: String::from("Alice"), age: 30 },
    )
    .unwrap();
    assert_eq!(created, vec!["User created: Alice with age 30"]);
    let listed = run_command(&mut conn, &Command::Read).unwrap();
    assert_eq!(listed.len(), 1);
    assert!(listed[0].starts_with("ID: "));
    assert!(listed[0].ends_with(", Name: Alice, Age: 30"));
}

#[test]
fn update_then_read() {
    let mut conn = setup_test_db();
    conn.insert_user("Alice", 30).unwrap();
    let updated = run_command(
        &mut conn,
        &Command::Update { name: String::from("Alice"), age: 35 },
    )
    .unwrap();
    assert_eq!(updated, vec!["User updated: Alice with new age 35"]);
    let listed = run_command(&mut conn, &Command::Read).unwrap();
    assert_eq!(listed.len(), 1);
    assert!(listed[0].ends_with(", Name: Alice, Age: 35"));
}

#[test]
fn delete_then_read() {
    let mut conn = setup_test_db();
    conn.insert_user("Alice", 30).unwrap();
    let deleted = run_command(&mut conn, &Command::Delete { name: String::from("Alice") }).unwrap();
    assert_eq!(deleted, vec!["User deleted: Alice"]);
    let listed = run_command(&mut conn, &Command::Read).unwrap();
    assert!(listed.is_empty());
}

#[test]
fn read_on_empty_store_prints_nothing() {
    let mut conn = setup_test_db();
    let listed = run_command(&mut conn, &Command::Read).unwrap();
    assert!(listed.is_empty());
}

#[test]
fn failed_command_reports_error() {
    let mut conn = Store::open_in_memory().unwrap();
    let err = run_command(
        &mut conn,
        &Command::Create { name: String::from("Alice"), age: 30 },
    )
    .unwrap_err();
    assert!(!err.message.is_empty());
}
