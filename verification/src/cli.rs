//! The command dispatcher: one parsed command maps to exactly one record
//! operation, and the lines to print on success are returned to the caller.

use vstd::prelude::*;

use crate::model::{delete_rows, insert_row, listing_matches, update_rows};
use crate::render::{
    created_line, created_message, deleted_line, deleted_message, render_user_line, updated_line,
    updated_message, user_line,
};
use crate::store::{store_has_table, store_rows, Store, StoreError};

verus! {

/// One parsed command of the command-line surface.
pub enum Command {
    /// Insert one row with the given name and age.
    Create { name: String, age: i32 },
    /// List every stored row.
    Read,
    /// Set the age of every row whose name matches.
    Update { name: String, age: i32 },
    /// Remove every row whose name matches.
    Delete { name: String },
}

/// Run exactly one record operation for the given command and return the lines
/// to print on standard output: one confirmation line for a write, one line
/// per stored row for a listing. Any failure of the storage engine is handed
/// back unchanged, to abort the invocation, and leaves the store unchanged; a
/// listing never changes the store at all.
pub fn run_command(store: &mut Store, cmd: &Command) -> (r: Result<Vec<String>, StoreError>)
    ensures
        r is Err ==> store_rows(*final(store)) == store_rows(*old(store)) && store_has_table(
            *final(store),
        ) == store_has_table(*old(store)),
        *cmd matches Command::Read ==> *final(store) == *old(store),
        r matches Ok(lines) ==> match *cmd {
            Command::Create { name, age } => {
                &&& exists|id: int|
                    store_rows(*final(store)) == #[trigger] insert_row(
                        store_rows(*old(store)),
                        id,
                        name@,
                        age as int,
                    ) && !store_rows(*old(store)).dom().contains(id)
                &&& lines@.len() == 1
                &&& lines@[0]@ == created_line(name@, age as int)
            },
            Command::Read => {
                &&& *final(store) == *old(store)
                &&& exists|users: Seq<crate::model::User>|
                    {
                        &&& #[trigger] listing_matches(users, store_rows(*final(store)))
                        &&& lines@.len() == users.len()
                        &&& forall|i: int|
                            0 <= i < users.len() ==> (#[trigger] lines@[i])@ == user_line(users[i])
                    }
            },
            Command::Update { name, age } => {
                &&& store_rows(*final(store)) == update_rows(
                    store_rows(*old(store)),
                    name@,
                    age as int,
                )
                &&& lines@.len() == 1
                &&& lines@[0]@ == updated_line(name@, age as int)
            },
            Command::Delete { name } => {
                &&& store_rows(*final(store)) == delete_rows(store_rows(*old(store)), name@)
                &&& lines@.len() == 1
                &&& lines@[0]@ == deleted_line(name@)
            },
        },
{
    match cmd {
        Command::Create { name, age } => {
            match store.insert_user(name.as_str(), *age) {
                Ok(()) => {
                    let mut lines: Vec<String> = Vec::new();
                    lines.push(created_message(name.as_str(), *age));
                    Ok(lines)
                },
                Err(e) => Err(e),
            }
        },
        Command::Read => {
            match store.read_users() {
                Ok(users) => {
                    let mut lines: Vec<String> = Vec::new();
                    let mut i: usize = 0;
                    while i < users.len()
                        invariant
                            i <= users.len(),
                            lines@.len() == i,
                            forall|j: int|
                                0 <= j < i ==> (#[trigger] lines@[j])@ == user_line(users@[j]),
                        decreases users.len() - i,
                    {
                        lines.push(render_user_line(&users[i]));
                        i += 1;
                    }
                    Ok(lines)
                },
                Err(e) => Err(e),
            }
        },
        Command::Update { name, age } => {
            match store.update_user(name.as_str(), *age) {
                Ok(()) => {
                    let mut lines: Vec<String> = Vec::new();
                    lines.push(updated_message(name.as_str(), *age));
                    Ok(lines)
                },
                Err(e) => Err(e),
            }
        },
        Command::Delete { name } => {
            match store.delete_user(name.as_str()) {
                Ok(()) => {
                    let mut lines: Vec<String> = Vec::new();
                    lines.push(deleted_message(name.as_str()));
                    Ok(lines)
                },
                Err(e) => Err(e),
            }
        },
    }
}

} // verus!
