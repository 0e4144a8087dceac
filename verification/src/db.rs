//! The verified model of the todo table and its four data-access
//! operations. The model is the semantics of the SQL statements the service
//! issues: an insertion-ordered sequence of rows plus the auto-increment
//! counter that assigns ids.

use vstd::multiset::Multiset;
use vstd::prelude::*;

use crate::error::Error;
use crate::todo::{has_id, idx_of, sorted_by_ordering, wf_rows, Todo};

verus! {

broadcast use {vstd::seq_lib::group_to_multiset_ensures, vstd::multiset::group_multiset_axioms};

/// The todo table: its rows in insertion order, and the id the next insert
/// will be assigned.
pub struct TodoTable {
    rows: Vec<Todo>,
    next_id: u64,
}

impl TodoTable {
    /// The stored rows, in insertion order.
    pub closed spec fn spec_rows(&self) -> Seq<Todo> {
        self.rows@
    }

    /// The id the next successful create will assign.
    pub closed spec fn spec_next_id(&self) -> u64 {
        self.next_id
    }

    /// Table invariant: every row has an id, ids never repeat, and every
    /// assigned id lies below the counter.
    pub open spec fn wf(&self) -> bool {
        wf_rows(self.spec_rows(), self.spec_next_id())
    }

    /// An empty table, ids starting at 1.
    pub fn new() -> (t: TodoTable)
        ensures
            t.wf(),
            t.spec_rows().len() == 0,
            t.spec_next_id() == 1,
    {
        TodoTable { rows: Vec::new(), next_id: 1 }
    }

    /// Inserts a row with the given fields, ignoring any id the caller set,
    /// and returns the record as stored, carrying the assigned id. Fails
    /// only when the id space is exhausted, which the database surfaces as
    /// a query error.
    pub fn create_todo(&mut self, new: Todo) -> (r: Result<Todo, Error>)
        requires
            old(self).wf(),
        ensures
            final(self).wf(),
            ({
                let created = (Todo {
                    id: Some(old(self).spec_next_id()),
                    name: new.name,
                    ordering: new.ordering,
                    checked: new.checked,
                });
                if old(self).spec_next_id() < u64::MAX {
                    &&& r == Ok::<Todo, Error>(created)
                    &&& final(self).spec_rows() == old(self).spec_rows().push(created)
                    &&& final(self).spec_next_id() == old(self).spec_next_id() + 1
                } else {
                    &&& r == Err::<Todo, Error>(Error::Query)
                    &&& *final(self) == *old(self)
                }
            }),
    {
        if self.next_id == u64::MAX {
            return Err(Error::Query);
        }
        let id = self.next_id;
        self.next_id = id + 1;
        let stored = Todo {
            id: Some(id),
            name: new.name.clone(),
            ordering: new.ordering,
            checked: new.checked,
        };
        let returned = Todo {
            id: Some(id),
            name: new.name,
            ordering: new.ordering,
            checked: new.checked,
        };
        self.rows.push(stored);
        Ok(returned)
    }

    /// Returns every row, sorted by `ordering` ascending: the result of the
    /// select statement with its ORDER BY clause. The listing is a
    /// reordering of the stored rows and nothing else.
    pub fn fetch_todos(&self) -> (r: Vec<Todo>)
        ensures
            r@.to_multiset() == self.spec_rows().to_multiset(),
            r@.len() == self.spec_rows().len(),
            sorted_by_ordering(r@),
    {
        let mut rest: Vec<Todo> = Vec::new();
        let n = self.rows.len();
        let mut i: usize = 0;
        while i < n
            invariant
                n == self.rows.len(),
                i <= n,
                rest@ =~= self.rows@.subrange(0, i as int),
            decreases n - i,
        {
            rest.push(self.rows[i].duplicate());
            i += 1;
        }
        proof {
            assert(rest@ =~= self.spec_rows());
        }
        let mut out: Vec<Todo> = Vec::new();
        proof {
            assert forall|t: Todo| out@.to_multiset().count(t) == 0 by {
                assert(!out@.contains(t));
            }
            assert(out@.to_multiset().add(rest@.to_multiset()) =~= rest@.to_multiset());
        }
        while rest.len() > 0
            invariant
                out@.to_multiset().add(rest@.to_multiset()) == self.spec_rows().to_multiset(),
                out@.len() + rest@.len() == self.spec_rows().len(),
                sorted_by_ordering(out@),
                forall|a: int, b: int|
                    0 <= a < out@.len() && 0 <= b < rest@.len() ==> out@[a].ordering <= rest@[b].ordering,
            decreases rest.len(),
        {
            let mut m: usize = 0;
            let mut k: usize = 1;
            while k < rest.len()
                invariant
                    0 < rest@.len(),
                    m < k,
                    k <= rest@.len(),
                    forall|t: int| 0 <= t < k ==> rest@[m as int].ordering <= rest@[t].ordering,
                decreases rest@.len() - k,
            {
                if rest[k].ordering < rest[m].ordering {
                    m = k;
                }
                k += 1;
            }
            let ghost rest0 = rest@;
            let ghost out0 = out@;
            let picked = rest.remove(m);
            out.push(picked);
            proof {
                assert(picked == rest0[m as int]);
                assert(rest0.contains(picked));
                assert(out@ == out0.push(picked));
                assert(out0.push(picked).to_multiset() == out0.to_multiset().insert(picked));
                assert(rest@ == rest0.remove(m as int));
                assert(rest0.remove(m as int).to_multiset() == rest0.to_multiset().remove(
                    rest0[m as int],
                ));
                assert(rest0.to_multiset().count(picked) > 0);
                assert(out@.to_multiset().add(rest@.to_multiset()) =~= out0.to_multiset().add(
                    rest0.to_multiset(),
                ));
            }
        }
        proof {
            assert forall|t: Todo| rest@.to_multiset().count(t) == 0 by {
                assert(!rest@.contains(t));
            }
            assert(rest@.to_multiset() =~= Multiset::<Todo>::empty());
            assert(out@.to_multiset() =~= out@.to_multiset().add(rest@.to_multiset()));
        }
        out
    }

    /// Overwrites the mutable fields of the row carrying `id` and returns
    /// the row as stored; reports `NotFound` and leaves the table unchanged
    /// when no row carries it.
    pub fn update_todo(&mut self, id: u64, new: Todo) -> (r: Result<Todo, Error>)
        requires
            old(self).wf(),
        ensures
            final(self).wf(),
            final(self).spec_next_id() == old(self).spec_next_id(),
            ({
                let rows0 = old(self).spec_rows();
                let updated = (Todo {
                    id: Some(id),
                    name: new.name,
                    ordering: new.ordering,
                    checked: new.checked,
                });
                if has_id(rows0, id) {
                    &&& r == Ok::<Todo, Error>(updated)
                    &&& final(self).spec_rows() == rows0.update(idx_of(rows0, id), updated)
                } else {
                    &&& r == Err::<Todo, Error>(Error::NotFound)
                    &&& *final(self) == *old(self)
                }
            }),
    {
        let n = self.rows.len();
        let mut i: usize = 0;
        while i < n
            invariant
                old(self).wf(),
                n == self.rows.len(),
                i <= n,
                forall|k: int| 0 <= k < i ==> self.rows@[k].id != Some(id),
                *self == *old(self),
            decreases n - i,
        {
            let hit = match self.rows[i].id {
                Some(x) => x == id,
                None => false,
            };
            if hit {
                proof {
                    let rows0 = old(self).spec_rows();
                    assert(rows0[i as int].id == Some(id));
                    assert(has_id(rows0, id));
                    let j = idx_of(rows0, id);
                    assert(0 <= j < rows0.len() && rows0[j].id == Some(id));
                    assert(j == i);
                }
                let updated = Todo {
                    id: Some(id),
                    name: new.name,
                    ordering: new.ordering,
                    checked: new.checked,
                };
                let returned = updated.duplicate();
                let _ = self.rows.remove(i);
                self.rows.insert(i, updated);
                proof {
                    assert(self.rows@ =~= old(self).spec_rows().update(i as int, (Todo {
                        id: Some(id),
                        name: new.name,
                        ordering: new.ordering,
                        checked: new.checked,
                    })));
                }
                return Ok(returned);
            }
            i += 1;
        }
        proof {
            assert(!has_id(old(self).spec_rows(), id));
        }
        Err(Error::NotFound)
    }

    /// Removes the row carrying `id`; reports `NotFound` and leaves the
    /// table unchanged when no row carries it.
    pub fn delete_todo(&mut self, id: u64) -> (r: Result<(), Error>)
        requires
            old(self).wf(),
        ensures
            final(self).wf(),
            final(self).spec_next_id() == old(self).spec_next_id(),
            ({
                let rows0 = old(self).spec_rows();
                if has_id(rows0, id) {
                    &&& r == Ok::<(), Error>(())
                    &&& final(self).spec_rows() == rows0.remove(idx_of(rows0, id))
                } else {
                    &&& r == Err::<(), Error>(Error::NotFound)
                    &&& *final(self) == *old(self)
                }
            }),
    {
        let n = self.rows.len();
        let mut i: usize = 0;
        while i < n
            invariant
                old(self).wf(),
                n == self.rows.len(),
                i <= n,
                forall|k: int| 0 <= k < i ==> self.rows@[k].id != Some(id),
                *self == *old(self),
            decreases n - i,
        {
            let hit = match self.rows[i].id {
                Some(x) => x == id,
                None => false,
            };
            if hit {
                proof {
                    let rows0 = old(self).spec_rows();
                    assert(rows0[i as int].id == Some(id));
                    assert(has_id(rows0, id));
                    let j = idx_of(rows0, id);
                    assert(0 <= j < rows0.len() && rows0[j].id == Some(id));
                    assert(j == i);
                }
                let _ = self.rows.remove(i);
                return Ok(());
            }
            i += 1;
        }
        proof {
            assert(!has_id(old(self).spec_rows(), id));
        }
        Err(Error::NotFound)
    }
}

/// The idempotent statement the schema initializer runs at startup.
pub fn create_table_sql() -> (s: &'static str)
    ensures
        s@ == "CREATE TABLE IF NOT EXISTS todo (id BIGSERIAL PRIMARY KEY, name TEXT NOT NULL, ordering INTEGER DEFAULT 0, checked BOOLEAN DEFAULT false)"@,
{
    "CREATE TABLE IF NOT EXISTS todo (id BIGSERIAL PRIMARY KEY, name TEXT NOT NULL, ordering INTEGER DEFAULT 0, checked BOOLEAN DEFAULT false)"
}

/// The select statement behind `fetch_todos`, ordering by `ordering`.
pub fn select_todos_sql() -> (s: &'static str)
    ensures
        s@ == "SELECT id, name, ordering, checked FROM todo ORDER BY ordering ASC"@,
{
    "SELECT id, name, ordering, checked FROM todo ORDER BY ordering ASC"
}

/// The parameterized insert behind `create_todo`, returning the stored row.
pub fn insert_todo_sql() -> (s: &'static str)
    ensures
        s@ == "INSERT INTO todo (name, ordering, checked) VALUES ($1, $2, $3) RETURNING id, name, ordering, checked"@,
{
    "INSERT INTO todo (name, ordering, checked) VALUES ($1, $2, $3) RETURNING id, name, ordering, checked"
}

/// The parameterized update behind `update_todo`, returning the stored row.
pub fn update_todo_sql() -> (s: &'static str)
    ensures
        s@ == "UPDATE todo SET name = $1, ordering = $2, checked = $3 WHERE id = $4 RETURNING id, name, ordering, checked"@,
{
    "UPDATE todo SET name = $1, ordering = $2, checked = $3 WHERE id = $4 RETURNING id, name, ordering, checked"
}

/// The parameterized delete behind `delete_todo`.
pub fn delete_todo_sql() -> (s: &'static str)
    ensures
        s@ == "DELETE FROM todo WHERE id = $1"@,
{
    "DELETE FROM todo WHERE id = $1"
}

} // verus!
