//! The service-level laws, proved over the same spec vocabulary that the
//! table contracts are written in.

use vstd::prelude::*;

use crate::todo::{has_id, idx_of, wf_rows, Todo};

verus! {

broadcast use {vstd::seq_lib::group_to_multiset_ensures, vstd::multiset::group_multiset_axioms};

/// No two rows of a well-formed table share an id: every record a create
/// hands out keeps an id distinct from every other record's.
pub proof fn law_ids_unique(rows: Seq<Todo>, next_id: u64, i: int, j: int)
    requires
        wf_rows(rows, next_id),
        0 <= i < rows.len(),
        0 <= j < rows.len(),
        i != j,
    ensures
        rows[i].id != rows[j].id,
{
}

/// The id a create is about to assign is fresh: no existing row carries the
/// counter's value, so concurrent creates, each bumping the counter once,
/// receive pairwise distinct ids.
pub proof fn law_next_id_fresh(rows: Seq<Todo>, next_id: u64)
    requires
        wf_rows(rows, next_id),
    ensures
        !has_id(rows, next_id),
{
    assert forall|i: int| 0 <= i < rows.len() implies rows[i].id != Some(next_id) by {
        assert(rows[i].id is Some);
        assert(rows[i].id->0 < next_id);
    }
}

/// After a delete removes the row carrying `id`, no row carries it any
/// more: removal is complete, and a second delete of the same id is owed
/// `NotFound` by the delete contract.
pub proof fn law_deleted_id_gone(rows: Seq<Todo>, next_id: u64, id: u64)
    requires
        wf_rows(rows, next_id),
        has_id(rows, id),
    ensures
        !has_id(rows.remove(idx_of(rows, id)), id),
{
    let k = idx_of(rows, id);
    assert(0 <= k < rows.len() && rows[k].id == Some(id));
    let rest = rows.remove(k);
    if has_id(rest, id) {
        let i = choose|i: int| 0 <= i < rest.len() && rest[i].id == Some(id);
        if i < k {
            assert(rest[i] == rows[i]);
            assert(rows[i].id == rows[k].id);
            assert(false);
        } else {
            assert(rest[i] == rows[i + 1]);
            assert(rows[i + 1].id == rows[k].id);
            assert(false);
        }
    }
}

/// An id absent from the table is absent from every listing of it: a
/// listing is a reordering of the rows and can include nothing else.
pub proof fn law_absent_id_not_listed(rows: Seq<Todo>, listing: Seq<Todo>, id: u64)
    requires
        !has_id(rows, id),
        listing.to_multiset() == rows.to_multiset(),
    ensures
        !has_id(listing, id),
{
    if has_id(listing, id) {
        let i = choose|i: int| 0 <= i < listing.len() && listing[i].id == Some(id);
        let t = listing[i];
        assert(listing.contains(t));
        assert(listing.to_multiset().count(t) > 0);
        assert(rows.to_multiset().count(t) > 0);
        assert(rows.contains(t));
        let j = choose|j: int| 0 <= j < rows.len() && rows[j] == t;
        assert(rows[j].id == Some(id));
        assert(false);
    }
}

/// Round trip: the record a create stores appears verbatim in every listing
/// taken from the table it left behind.
pub proof fn law_created_record_listed(rows: Seq<Todo>, created: Todo, listing: Seq<Todo>)
    requires
        listing.to_multiset() == rows.push(created).to_multiset(),
    ensures
        listing.contains(created),
{
    assert(rows.push(created).to_multiset() == rows.to_multiset().insert(created));
    assert(listing.to_multiset().count(created) > 0);
}

} // verus!
