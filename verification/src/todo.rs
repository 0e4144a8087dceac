//! The todo record and the spec-level vocabulary that the table contracts
//! are written in: id lookup, well-formedness, and the listing order.

use vstd::prelude::*;

verus! {

/// One todo item. `id` is absent on creation and assigned by the table;
/// `name`, `ordering` and `checked` are overwritten whole by an update.
#[derive(Debug)]
pub struct Todo {
    pub id: Option<u64>,
    pub name: String,
    pub ordering: usize,
    pub checked: bool,
}

impl Todo {
    /// A field-for-field copy, equal to the original.
    pub fn duplicate(&self) -> (r: Todo)
        ensures
            r == *self,
    {
        Todo {
            id: self.id,
            name: self.name.clone(),
            ordering: self.ordering,
            checked: self.checked,
        }
    }
}

/// Whether some row carries the id.
pub open spec fn has_id(rows: Seq<Todo>, id: u64) -> bool {
    exists|i: int| 0 <= i < rows.len() && rows[i].id == Some(id)
}

/// The index of the row carrying the id; meaningful only when `has_id`
/// holds, and unique under `wf_rows`.
pub open spec fn idx_of(rows: Seq<Todo>, id: u64) -> int {
    choose|i: int| 0 <= i < rows.len() && rows[i].id == Some(id)
}

/// Rows come out of a listing sorted by `ordering`, ascending.
pub open spec fn sorted_by_ordering(rows: Seq<Todo>) -> bool {
    forall|i: int, j: int| 0 <= i <= j < rows.len() ==> rows[i].ordering <= rows[j].ordering
}

/// Well-formedness of the stored rows against the id counter: every row has
/// an id, every id was assigned below the counter, and no id repeats.
pub open spec fn wf_rows(rows: Seq<Todo>, next_id: u64) -> bool {
    &&& forall|i: int| 0 <= i < rows.len() ==> #[trigger] rows[i].id is Some
    &&& forall|i: int| 0 <= i < rows.len() ==> (#[trigger] rows[i].id)->0 < next_id
    &&& forall|i: int, j: int|
        0 <= i < rows.len() && 0 <= j < rows.len() && i != j ==> #[trigger] rows[i].id != #[trigger] rows[j].id
}

} // verus!
