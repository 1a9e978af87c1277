//! The storage handle and the trusted boundary to the database engine: an
//! opaque connection, two names for the abstract state reachable through it,
//! and one wrapper per engine call that the record operations make.
//!
//! The contracts here describe the state of the database as seen through a
//! single handle. They rely on two assumptions about how the handle is used,
//! both of which hold for every use in this library: the handle is the only
//! writer while it is open, and the database behind it is one whose `users`
//! table this program created — the schema declared below, with no foreign
//! triggers or views of that name that could change what the fixed statements
//! do.
//!
//! The write wrappers also state that a failed call leaves the contents
//! unchanged: each runs a single statement in autocommit mode, and the engine
//! documents that a failed statement backs out its own partial changes.

use vstd::prelude::*;

use crate::model::{Rows, User};

verus! {

/// Storage handle: an open connection to one database. All record operations
/// go through a handle; the connection is released when the handle is dropped.
#[verifier::external_body]
pub struct Store {
    conn: rusqlite::Connection,
}

/// The rows of the user table behind a handle, keyed by identifier; the empty
/// map when the table does not exist.
pub uninterp spec fn store_rows(s: Store) -> Rows;

/// Whether the user table exists in the database behind a handle.
pub uninterp spec fn store_has_table(s: Store) -> bool;

/// The error type of the storage engine, carried opaquely until the verified
/// layer turns it into a [`StoreError`].
#[verifier::external_type_specification]
#[verifier::external_body]
pub struct ExSqliteError(rusqlite::Error);

/// An error reported by a record operation, with the storage engine's own
/// description. Every operation propagates such errors unchanged to its
/// caller; none recovers locally.
#[derive(Debug)]
pub struct StoreError {
    pub message: String,
}

impl Store {
    /// Relies on `rusqlite::Connection::open_in_memory`: a freshly created
    /// in-memory database contains no tables at all, so no user table and no
    /// rows.
    #[verifier::external_body]
    pub(crate) fn conn_open_in_memory() -> (r: Result<Store, rusqlite::Error>)
        ensures
            r matches Ok(s) ==> !store_has_table(s) && store_rows(s) == Rows::empty(),
    {
        Ok(Store { conn: rusqlite::Connection::open_in_memory()? })
    }

    /// Relies on `rusqlite::Connection::open`: opens the database file at
    /// `path`, creating it when absent. What the file already holds is not
    /// known here, so nothing is claimed of the state behind the handle.
    #[verifier::external_body]
    pub(crate) fn conn_open(path: &str) -> (r: Result<Store, rusqlite::Error>) {
        Ok(Store { conn: rusqlite::Connection::open(path)? })
    }

    /// Relies on `rusqlite::Connection::execute` with the statement
    /// `CREATE TABLE IF NOT EXISTS users (...)`: on success the user table
    /// exists, an already existing table keeps its rows untouched, and a
    /// freshly created table is empty. A failed statement is backed out by the
    /// engine, leaving the database unchanged.
    #[verifier::external_body]
    pub(crate) fn exec_create_table(&mut self) -> (r: Result<(), rusqlite::Error>)
        ensures
            r is Ok ==> store_has_table(*final(self)),
            r is Ok && store_has_table(*old(self)) ==> store_rows(*final(self)) == store_rows(
                *old(self),
            ),
            r is Ok && !store_has_table(*old(self)) ==> store_rows(*final(self)) == Rows::empty(),
            r is Err ==> store_rows(*final(self)) == store_rows(*old(self)) && store_has_table(
                *final(self),
            ) == store_has_table(*old(self)),
    {
        self.conn.execute(
            "CREATE TABLE IF NOT EXISTS users (
                id INTEGER PRIMARY KEY,
                name TEXT NOT NULL,
                age INTEGER
            )",
            (),
        )?;
        Ok(())
    }

    /// Relies on `rusqlite::Connection::execute` with the statement
    /// `INSERT INTO users (name, age) VALUES (?1, ?2)`: on success exactly one
    /// row was appended, under an identifier the engine assigned fresh (the
    /// `INTEGER PRIMARY KEY` column is unique), and the table still exists.
    /// A failed statement is backed out by the engine, leaving the database
    /// unchanged.
    #[verifier::external_body]
    pub(crate) fn exec_insert(&mut self, name: &str, age: i32) -> (r: Result<
        (),
        rusqlite::Error,
    >)
        ensures
            r is Ok ==> exists|id: int|
                store_rows(*final(self)) == #[trigger] store_rows(*old(self)).insert(
                    id,
                    (name@, age as int),
                ) && !store_rows(*old(self)).dom().contains(id),
            r is Ok ==> store_has_table(*final(self)) == store_has_table(*old(self)),
            r is Err ==> store_rows(*final(self)) == store_rows(*old(self)) && store_has_table(
                *final(self),
            ) == store_has_table(*old(self)),
    {
        self.conn.execute("INSERT INTO users (name, age) VALUES (?1, ?2)", (name, age))?;
        Ok(())
    }

    /// Relies on `rusqlite::Connection::execute` with the statement
    /// `UPDATE users SET age = ?1 WHERE name = ?2`: on success the set of
    /// stored identifiers is unchanged, every row whose name equals `name`
    /// (the engine's default text comparison is an exact, case-sensitive
    /// match) carries the new age, and every other row is unchanged. A failed
    /// statement is backed out by the engine, leaving the database unchanged.
    #[verifier::external_body]
    pub(crate) fn exec_update(&mut self, name: &str, new_age: i32) -> (r: Result<
        (),
        rusqlite::Error,
    >)
        ensures
            r is Ok ==> store_rows(*final(self)).dom() == store_rows(*old(self)).dom(),
            r is Ok ==> forall|id: int|
                store_rows(*old(self)).dom().contains(id) ==> #[trigger] store_rows(
                    *final(self),
                )[id] == (if store_rows(*old(self))[id].0 == name@ {
                    (name@, new_age as int)
                } else {
                    store_rows(*old(self))[id]
                }),
            r is Ok ==> store_has_table(*final(self)) == store_has_table(*old(self)),
            r is Err ==> store_rows(*final(self)) == store_rows(*old(self)) && store_has_table(
                *final(self),
            ) == store_has_table(*old(self)),
    {
        self.conn.execute("UPDATE users SET age = ?1 WHERE name = ?2", (new_age, name))?;
        Ok(())
    }

    /// Relies on `rusqlite::Connection::execute` with the statement
    /// `DELETE FROM users WHERE name = ?1`: on success exactly the rows whose
    /// name equals `name` are gone and every other row is unchanged. A failed
    /// statement is backed out by the engine, leaving the database unchanged.
    #[verifier::external_body]
    pub(crate) fn exec_delete(&mut self, name: &str) -> (r: Result<(), rusqlite::Error>)
        ensures
            r is Ok ==> forall|id: int| #[trigger]
                store_rows(*final(self)).dom().contains(id) <==> (store_rows(
                    *old(self),
                ).dom().contains(id) && store_rows(*old(self))[id].0 != name@),
            r is Ok ==> forall|id: int|
                store_rows(*final(self)).dom().contains(id) ==> #[trigger] store_rows(
                    *final(self),
                )[id] == store_rows(*old(self))[id],
            r is Ok ==> store_has_table(*final(self)) == store_has_table(*old(self)),
            r is Err ==> store_rows(*final(self)) == store_rows(*old(self)) && store_has_table(
                *final(self),
            ) == store_has_table(*old(self)),
    {
        self.conn.execute("DELETE FROM users WHERE name = ?1", (name,))?;
        Ok(())
    }

    /// Relies on `rusqlite::Connection::prepare` and
    /// `rusqlite::Statement::query_map` with the statement
    /// `SELECT id, name, age FROM users`: on success every stored row is
    /// yielded exactly once, in an order the engine does not guarantee. A row
    /// whose identifier or age does not fit the column's Rust type makes the
    /// call fail instead.
    #[verifier::external_body]
    pub(crate) fn query_all(&self) -> (r: Result<Vec<User>, rusqlite::Error>)
        ensures
            r matches Ok(users) ==> {
                &&& forall|i: int|
                    0 <= i < users@.len() ==> store_rows(*self).contains_pair(
                        (#[trigger] users@[i]).id as int,
                        (users@[i].name@, users@[i].age as int),
                    )
                &&& forall|i: int, j: int|
                    0 <= i < users@.len() && 0 <= j < users@.len() && i != j ==> (
                    #[trigger] users@[i]).id != (#[trigger] users@[j]).id
                &&& forall|id: int| #[trigger]
                    store_rows(*self).dom().contains(id) ==> exists|i: int|
                        0 <= i < users@.len() && (#[trigger] users@[i]).id as int == id
            },
    {
        let mut stmt = self.conn.prepare("SELECT id, name, age FROM users")?;
        let iter = stmt.query_map(
            (),
            |row| Ok(User { id: row.get(0)?, name: row.get(1)?, age: row.get(2)? }),
        )?;
        let mut users = Vec::new();
        for user in iter {
            users.push(user?);
        }
        Ok(users)
    }
}

impl StoreError {
    /// Relies on the `Display` implementation of `rusqlite::Error` for the
    /// human-readable description that is propagated to the caller.
    #[verifier::external_body]
    pub(crate) fn from_sqlite(e: rusqlite::Error) -> (r: StoreError) {
        StoreError { message: e.to_string() }
    }
}

} // verus!
