//! The text the command-line surface prints: decimal rendering of integers and
//! the confirmation and listing lines, each proved equal to its specification.

use vstd::prelude::*;

use crate::model::User;

verus! {

/// The decimal digit character for a value between 0 and 9.
pub open spec fn digit_char(d: int) -> char {
    if d == 0 {
        '0'
    } else if d == 1 {
        '1'
    } else if d == 2 {
        '2'
    } else if d == 3 {
        '3'
    } else if d == 4 {
        '4'
    } else if d == 5 {
        '5'
    } else if d == 6 {
        '6'
    } else if d == 7 {
        '7'
    } else if d == 8 {
        '8'
    } else {
        '9'
    }
}

/// The decimal digits of a natural number, most significant first, with no
/// leading zero except for the number zero itself.
pub open spec fn dec_digits(n: nat) -> Seq<char>
    decreases n,
{
    if n < 10 {
        seq![digit_char(n as int)]
    } else {
        dec_digits(n / 10) + seq![digit_char((n % 10) as int)]
    }
}

/// The decimal text of an integer: a minus sign before the digits of the
/// magnitude when negative.
pub open spec fn int_text(n: int) -> Seq<char> {
    if n < 0 {
        seq!['-'] + dec_digits((-n) as nat)
    } else {
        dec_digits(n as nat)
    }
}

/// The confirmation line printed after an insertion.
pub open spec fn created_line(name: Seq<char>, age: int) -> Seq<char> {
    "User created: "@ + name + " with age "@ + int_text(age)
}

/// The confirmation line printed after an update.
pub open spec fn updated_line(name: Seq<char>, age: int) -> Seq<char> {
    "User updated: "@ + name + " with new age "@ + int_text(age)
}

/// The confirmation line printed after a deletion.
pub open spec fn deleted_line(name: Seq<char>) -> Seq<char> {
    "User deleted: "@ + name
}

/// The listing line printed for one stored user row.
pub open spec fn user_line(u: User) -> Seq<char> {
    "ID: "@ + int_text(u.id as int) + ", Name: "@ + u.name@ + ", Age: "@ + int_text(u.age as int)
}

/// The one-character string for a decimal digit.
fn digit_str(d: u8) -> (r: &'static str)
    requires
        d < 10,
    ensures
        r@ == seq![digit_char(d as int)],
{
    proof {
        reveal_strlit("0");
        reveal_strlit("1");
        reveal_strlit("2");
        reveal_strlit("3");
        reveal_strlit("4");
        reveal_strlit("5");
        reveal_strlit("6");
        reveal_strlit("7");
        reveal_strlit("8");
        reveal_strlit("9");
        assert("0"@ =~= seq!['0']);
        assert("1"@ =~= seq!['1']);
        assert("2"@ =~= seq!['2']);
        assert("3"@ =~= seq!['3']);
        assert("4"@ =~= seq!['4']);
        assert("5"@ =~= seq!['5']);
        assert("6"@ =~= seq!['6']);
        assert("7"@ =~= seq!['7']);
        assert("8"@ =~= seq!['8']);
        assert("9"@ =~= seq!['9']);
    }
    match d {
        0 => "0",
        1 => "1",
        2 => "2",
        3 => "3",
        4 => "4",
        5 => "5",
        6 => "6",
        7 => "7",
        8 => "8",
        _ => "9",
    }
}

/// The decimal text of an unsigned number.
pub fn u64_to_string(n: u64) -> (r: String)
    ensures
        r@ == dec_digits(n as nat),
    decreases n,
{
    if n < 10 {
        digit_str(n as u8).to_owned()
    } else {
        let mut s = u64_to_string(n / 10);
        s.append(digit_str((n % 10) as u8));
        s
    }
}

/// The decimal text of a signed number.
pub fn i32_to_string(n: i32) -> (r: String)
    ensures
        r@ == int_text(n as int),
{
    if n < 0 {
        let magnitude: u64 = (-(n as i64)) as u64;
        assert(magnitude as nat == (-(n as int)) as nat);
        let mut s = "-".to_owned();
        proof {
            reveal_strlit("-");
            assert("-"@ =~= seq!['-']);
        }
        s.append(u64_to_string(magnitude).as_str());
        s
    } else {
        u64_to_string(n as u64)
    }
}

/// Render the confirmation line for an insertion.
pub fn created_message(name: &str, age: i32) -> (r: String)
    ensures
        r@ == created_line(name@, age as int),
{
    let mut s = "User created: ".to_owned();
    s.append(name);
    s.append(" with age ");
    s.append(i32_to_string(age).as_str());
    s
}

/// Render the confirmation line for an update.
pub fn updated_message(name: &str, age: i32) -> (r: String)
    ensures
        r@ == updated_line(name@, age as int),
{
    let mut s = "User updated: ".to_owned();
    s.append(name);
    s.append(" with new age ");
    s.append(i32_to_string(age).as_str());
    s
}

/// Render the confirmation line for a deletion.
pub fn deleted_message(name: &str) -> (r: String)
    ensures
        r@ == deleted_line(name@),
{
    let mut s = "User deleted: ".to_owned();
    s.append(name);
    s
}

/// Render the listing line for one stored user row.
pub fn render_user_line(u: &User) -> (r: String)
    ensures
        r@ == user_line(*u),
{
    let mut s = "ID: ".to_owned();
    s.append(i32_to_string(u.id).as_str());
    s.append(", Name: ");
    s.append(u.name.as_str());
    s.append(", Age: ");
    s.append(i32_to_string(u.age).as_str());
    s
}

} // verus!
