//! Laws of the record operations, stated over the model in [`crate::model`]
//! and proved once for all contents, names and ages.

use vstd::prelude::*;

use crate::model::{
    delete_rows, has_name, init_rows, insert_row, listing_matches, update_rows, Rows, User,
};

verus! {

/// The schema initializer is idempotent: running it a second time, on a store
/// where the table now exists, neither drops nor duplicates anything — the
/// contents are exactly those after the first run.
pub proof fn lemma_init_idempotent(had_table: bool, rows: Rows)
    ensures
        init_rows(true, init_rows(had_table, rows)) == init_rows(had_table, rows),
{
}

/// Updating never invents or drops a row, and never renames one: the stored
/// identifiers are exactly those of before, and every row keeps its name.
pub proof fn lemma_update_preserves_ids_and_names(rows: Rows, name: Seq<char>, age: int)
    ensures
        update_rows(rows, name, age).dom() == rows.dom(),
        forall|id: int|
            rows.dom().contains(id) ==> #[trigger] update_rows(rows, name, age)[id].0
                == rows[id].0,
{
    assert(update_rows(rows, name, age).dom() =~= rows.dom());
}

/// Updating a name that no stored row carries changes nothing.
pub proof fn lemma_update_no_match(rows: Rows, name: Seq<char>, age: int)
    requires
        !has_name(rows, name),
    ensures
        update_rows(rows, name, age) == rows,
{
    assert(update_rows(rows, name, age) =~= rows);
}

/// Deleting a name that no stored row carries changes nothing.
pub proof fn lemma_delete_no_match(rows: Rows, name: Seq<char>)
    requires
        !has_name(rows, name),
    ensures
        delete_rows(rows, name) == rows,
{
    assert(delete_rows(rows, name) =~= rows);
}

/// After a deletion, no stored row carries the deleted name, and every row
/// with another name is still stored, unchanged.
pub proof fn lemma_delete_removes_exactly_name(rows: Rows, name: Seq<char>)
    ensures
        !has_name(delete_rows(rows, name), name),
        forall|id: int|
            rows.dom().contains(id) && rows[id].0 != name ==> #[trigger] delete_rows(
                rows,
                name,
            )[id] == rows[id],
{
}

/// The name is a non-unique match key: after inserting two rows with the same
/// name (under distinct fresh identifiers), an update by that name sets the
/// age of both rows, and a deletion by that name removes both.
pub proof fn lemma_same_name_rows_share_fate(
    rows: Rows,
    id1: int,
    id2: int,
    name: Seq<char>,
    age1: int,
    age2: int,
    new_age: int,
)
    requires
        id1 != id2,
        !rows.dom().contains(id1),
        !rows.dom().contains(id2),
    ensures
        ({
            let both = insert_row(insert_row(rows, id1, name, age1), id2, name, age2);
            &&& update_rows(both, name, new_age)[id1] == (name, new_age)
            &&& update_rows(both, name, new_age)[id2] == (name, new_age)
            &&& !delete_rows(both, name).dom().contains(id1)
            &&& !delete_rows(both, name).dom().contains(id2)
        }),
{
}

/// A listing that agrees with empty contents is itself empty: an empty store
/// yields zero rows.
pub proof fn lemma_listing_of_empty(users: Seq<User>)
    requires
        listing_matches(users, Rows::empty()),
    ensures
        users.len() == 0,
{
    if users.len() > 0 {
        assert(Rows::empty().contains_pair(
            users[0].id as int,
            (users[0].name@, users[0].age as int),
        ));
        assert(Rows::empty().dom().contains(users[0].id as int));
    }
}

} // verus!
