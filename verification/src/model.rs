//! The mathematical model of the user table: its contents as a map from the
//! engine-assigned identifier to the stored name and age, and the effect of
//! each record operation on those contents.

use vstd::prelude::*;

verus! {

/// One stored user row. The identifier is assigned by the storage engine at
/// insertion and never reused by the application; the name is the (non-unique)
/// match key for updates and deletions.
#[derive(Debug)]
pub struct User {
    pub id: i32,
    pub name: String,
    pub age: i32,
}

/// The abstract contents of the user table: each row keyed by its unique
/// identifier, carrying its name and age.
pub type Rows = Map<int, (Seq<char>, int)>;

/// Contents of the table after the schema initializer ran: an existing table
/// keeps its rows, a freshly created one is empty.
pub open spec fn init_rows(had_table: bool, rows: Rows) -> Rows {
    if had_table {
        rows
    } else {
        Map::empty()
    }
}

/// Contents after inserting one row under the identifier `id`.
pub open spec fn insert_row(rows: Rows, id: int, name: Seq<char>, age: int) -> Rows {
    rows.insert(id, (name, age))
}

/// Contents after setting the age of every row whose name equals `name`;
/// all other rows are unchanged.
pub open spec fn update_rows(rows: Rows, name: Seq<char>, age: int) -> Rows {
    Map::new(
        |id: int| rows.dom().contains(id),
        |id: int| if rows[id].0 == name {
            (name, age)
        } else {
            rows[id]
        },
    )
}

/// Contents after removing every row whose name equals `name`.
pub open spec fn delete_rows(rows: Rows, name: Seq<char>) -> Rows {
    Map::new(|id: int| rows.dom().contains(id) && rows[id].0 != name, |id: int| rows[id])
}

/// Whether some stored row carries the given name.
pub open spec fn has_name(rows: Rows, name: Seq<char>) -> bool {
    exists|id: int| #[trigger] rows.dom().contains(id) && rows[id].0 == name
}

/// An executable listing agrees with the abstract contents: every listed user
/// is a stored row, no identifier is listed twice, and every stored row is
/// listed. The order of the listing is not constrained.
pub open spec fn listing_matches(users: Seq<User>, rows: Rows) -> bool {
    &&& forall|i: int|
        0 <= i < users.len() ==> rows.contains_pair(
            (#[trigger] users[i]).id as int,
            (users[i].name@, users[i].age as int),
        )
    &&& forall|i: int, j: int|
        0 <= i < users.len() && 0 <= j < users.len() && i != j ==> (#[trigger] users[i]).id != (
        #[trigger] users[j]).id
    &&& forall|id: int| #[trigger]
        rows.dom().contains(id) ==> exists|i: int|
            0 <= i < users.len() && (#[trigger] users[i]).id as int == id
}

} // verus!
