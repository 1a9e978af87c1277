//! Exact expected text for the rendering functions.

use userdb::model::User;
use userdb::render::{
    created_message, deleted_message, i32_to_string, render_user_line, u64_to_string,
    updated_message,
};

#[test]
fn unsigned_decimal_text() {
    assert_eq!(u64_to_string(0), "0");
    assert_eq!(u64_to_string(7), "7");
    assert_eq!(u64_to_string(30), "30");
    assert_eq!(u64_to_string(1234567890), "1234567890");
    assert_eq!(u64_to_string(u64::MAX), "18446744073709551615");
}

#[test]
fn signed_decimal_text() {
    assert_eq!(i32_to_string(0), "0");
    assert_eq!(i32_to_string(35), "35");
    assert_eq!(i32_to_string(-17), "-17");
    assert_eq!(i32_to_string(i32::MAX), "2147483647");
    assert_eq!(i32_to_string(i32::MIN), "-2147483648");
}

#[test]
fn confirmation_lines() {
    assert_eq!(created_message("Alice", 30), "User created: Alice with age 30");
    assert_eq!(updated_message("Alice", 35), "User updated: Alice with new age 35");
    assert_eq!(deleted_message("Alice"), "User deleted: Alice");
}

#[test]
fn listing_line() {
    let u = User { id: 1, name: String::from("Alice"), age: 30 };
    assert_eq!(render_user_line(&u), "ID: 1, Name: Alice, Age: 30");
    let v = User { id: 12, name: String::from("Bob"), age: -3 };
    assert_eq!(render_user_line(&v), "ID: 12, Name: Bob, Age: -3");
}
