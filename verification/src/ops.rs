//! The record operations, verified against the model in [`crate::model`]:
//! opening a store, initializing the schema, and insert, list, update and
//! delete on user rows.

use vstd::prelude::*;

use crate::model::{
    delete_rows, init_rows, insert_row, listing_matches, update_rows, Rows, User,
};
use crate::store::{store_has_table, store_rows, Store, StoreError};

verus! {

impl Store {
    /// Open a storage handle over a fresh, empty in-memory database: no user
    /// table exists yet and no rows are stored.
    pub fn open_in_memory() -> (r: Result<Store, StoreError>)
        ensures
            r matches Ok(s) ==> !store_has_table(s) && store_rows(s) == Rows::empty(),
    {
        match Self::conn_open_in_memory() {
            Ok(s) => Ok(s),
            Err(e) => Err(StoreError::from_sqlite(e)),
        }
    }

    /// Open a storage handle over the database file at `path`, creating the
    /// file when it is absent. The file may already hold a user table with
    /// rows, so nothing is known of the state behind the handle until the
    /// schema initializer runs.
    pub fn open(path: &str) -> (r: Result<Store, StoreError>) {
        match Self::conn_open(path) {
            Ok(s) => Ok(s),
            Err(e) => Err(StoreError::from_sqlite(e)),
        }
    }

    /// Schema initializer: ensure the user table exists. Safe to run on every
    /// startup: an existing table keeps all its rows, a missing one is created
    /// empty. On failure the store is unchanged and the engine's error is
    /// propagated.
    pub fn create_table(&mut self) -> (r: Result<(), StoreError>)
        ensures
            r is Ok ==> store_has_table(*final(self)),
            r is Ok ==> store_rows(*final(self)) == init_rows(
                store_has_table(*old(self)),
                store_rows(*old(self)),
            ),
            r is Err ==> store_rows(*final(self)) == store_rows(*old(self)) && store_has_table(
                *final(self),
            ) == store_has_table(*old(self)),
    {
        match self.exec_create_table() {
            Ok(()) => Ok(()),
            Err(e) => Err(StoreError::from_sqlite(e)),
        }
    }

    /// Insert one user row. On success the contents grow by exactly one row
    /// with the given name and age, under an identifier that was not in use
    /// before; no other row changes. On failure the store is unchanged and the
    /// engine's error is propagated.
    pub fn insert_user(&mut self, name: &str, age: i32) -> (r: Result<(), StoreError>)
        ensures
            r is Ok ==> exists|id: int|
                store_rows(*final(self)) == #[trigger] insert_row(
                    store_rows(*old(self)),
                    id,
                    name@,
                    age as int,
                ) && !store_rows(*old(self)).dom().contains(id),
            r is Ok ==> store_has_table(*final(self)) == store_has_table(*old(self)),
            r is Err ==> store_rows(*final(self)) == store_rows(*old(self)) && store_has_table(
                *final(self),
            ) == store_has_table(*old(self)),
    {
        match self.exec_insert(name, age) {
            Ok(()) => {
                proof {
                    let id = choose|id: int|
                        store_rows(*final(self)) == #[trigger] store_rows(*old(self)).insert(
                            id,
                            (name@, age as int),
                        ) && !store_rows(*old(self)).dom().contains(id);
                    assert(store_rows(*final(self)) == insert_row(
                        store_rows(*old(self)),
                        id,
                        name@,
                        age as int,
                    ));
                }
                Ok(())
            },
            Err(e) => Err(StoreError::from_sqlite(e)),
        }
    }

    /// List all user rows. On success the returned vector agrees with the
    /// stored contents: every returned user is a stored row, none is repeated,
    /// and nothing stored is missing. In particular, an empty store yields an
    /// empty vector.
    pub fn read_users(&self) -> (r: Result<Vec<User>, StoreError>)
        ensures
            r matches Ok(users) ==> listing_matches(users@, store_rows(*self)),
            r matches Ok(users) ==> (store_rows(*self) == Rows::empty() ==> users@.len() == 0),
    {
        match self.query_all() {
            Ok(users) => {
                proof {
                    if store_rows(*self) == Rows::empty() {
                        crate::laws::lemma_listing_of_empty(users@);
                    }
                }
                Ok(users)
            },
            Err(e) => Err(StoreError::from_sqlite(e)),
        }
    }

    /// Set the age of every stored row whose name equals `name`; rows with
    /// any other name are unchanged, and no row appears or disappears. A name
    /// that matches nothing changes nothing. On failure the store is unchanged
    /// and the engine's error is propagated.
    pub fn update_user(&mut self, name: &str, new_age: i32) -> (r: Result<(), StoreError>)
        ensures
            r is Ok ==> store_rows(*final(self)) == update_rows(
                store_rows(*old(self)),
                name@,
                new_age as int,
            ),
            r is Ok ==> store_has_table(*final(self)) == store_has_table(*old(self)),
            r is Err ==> store_rows(*final(self)) == store_rows(*old(self)) && store_has_table(
                *final(self),
            ) == store_has_table(*old(self)),
    {
        match self.exec_update(name, new_age) {
            Ok(()) => {
                proof {
                    assert(store_rows(*final(self)) =~= update_rows(
                        store_rows(*old(self)),
                        name@,
                        new_age as int,
                    ));
                }
                Ok(())
            },
            Err(e) => Err(StoreError::from_sqlite(e)),
        }
    }

    /// Remove every stored row whose name equals `name`; rows with any other
    /// name are unchanged. A name that matches nothing changes nothing. On
    /// failure the store is unchanged and the engine's error is propagated.
    pub fn delete_user(&mut self, name: &str) -> (r: Result<(), StoreError>)
        ensures
            r is Ok ==> store_rows(*final(self)) == delete_rows(store_rows(*old(self)), name@),
            r is Ok ==> store_has_table(*final(self)) == store_has_table(*old(self)),
            r is Err ==> store_rows(*final(self)) == store_rows(*old(self)) && store_has_table(
                *final(self),
            ) == store_has_table(*old(self)),
    {
        match self.exec_delete(name) {
            Ok(()) => {
                proof {
                    assert(store_rows(*final(self)) =~= delete_rows(
                        store_rows(*old(self)),
                        name@,
                    ));
                }
                Ok(())
            },
            Err(e) => Err(StoreError::from_sqlite(e)),
        }
    }
}

} // verus!
