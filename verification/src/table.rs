//! The todo table and its four transitions.
//!
//! The table is the sole state of the service: a sequence of records in
//! insertion order, plus the next id the store will assign. Create appends a
//! record with a fresh id, update overwrites description and status of the
//! matching record in full, delete removes the matching record, and list
//! returns every record. Update and delete on an id no record carries report
//! not-found and leave the table untouched.

use vstd::prelude::*;

use crate::service::ServiceError;
use crate::todo::{CreateTodo, Todo, TodoView};

verus! {

/// No two records in `s` share an id.
pub open spec fn ids_unique(s: Seq<TodoView>) -> bool {
    forall|i: int, j: int|
        0 <= i < s.len() && 0 <= j < s.len() && i != j ==> #[trigger] s[i].id != #[trigger] s[j].id
}

/// Some record in `s` carries the id `id`.
pub open spec fn contains_id(s: Seq<TodoView>, id: int) -> bool {
    exists|i: int| 0 <= i < s.len() && #[trigger] s[i].id == id
}

/// The todo table: every record the service has stored, in insertion order,
/// together with the next id the store will assign.
pub struct TodoTable {
    todos: Vec<Todo>,
    next_id: i64,
}

impl View for TodoTable {
    type V = Seq<TodoView>;

    closed spec fn view(&self) -> Seq<TodoView> {
        Seq::new(self.todos@.len() as nat, |i: int| self.todos@[i]@)
    }
}

impl TodoTable {
    /// The id the store will assign to the next created record.
    pub closed spec fn spec_next_id(self) -> int {
        self.next_id as int
    }

    /// Well-formedness: every id is positive, below the next id, and unique,
    /// so the id of a created record is always fresh and never reused.
    pub closed spec fn wf(self) -> bool {
        &&& 1 <= self.next_id
        &&& ids_unique(self@)
        &&& forall|i: int| 0 <= i < self@.len() ==> 1 <= #[trigger] self@[i].id
            < self.next_id as int
    }

    /// A well-formed table never holds two records with the same id.
    pub proof fn lemma_wf_ids_unique(self)
        requires
            self.wf(),
        ensures
            ids_unique(self@),
    {
    }

    /// An empty table, about to assign id 1.
    pub fn new() -> (t: TodoTable)
        ensures
            t.wf(),
            t@ == Seq::<TodoView>::empty(),
            t.spec_next_id() == 1,
    {
        let t = TodoTable { todos: Vec::new(), next_id: 1 };
        proof {
            assert(t@ =~= Seq::<TodoView>::empty());
        }
        t
    }

    /// Returns every stored record, in insertion order. On an empty table
    /// this is the empty vector, not an error.
    pub fn list(&self) -> (r: Vec<Todo>)
        ensures
            r@.len() == self@.len(),
            forall|i: int| 0 <= i < self@.len() ==> #[trigger] r@[i]@ == self@[i],
    {
        let mut out: Vec<Todo> = Vec::new();
        let mut i: usize = 0;
        while i < self.todos.len()
            invariant
                i <= self.todos.len(),
                out@.len() == i,
                forall|j: int| 0 <= j < i ==> #[trigger] out@[j]@ == self@[j],
            decreases self.todos.len() - i,
        {
            let t = &self.todos[i];
            out.push(Todo { id: t.id, description: t.description.clone(), status: t.status });
            i = i + 1;
        }
        out
    }

    /// Inserts a record with the given description, a fresh id, and status
    /// false, and returns the created record.
    pub fn create(&mut self, input: CreateTodo) -> (t: Todo)
        requires
            old(self).wf(),
            old(self).spec_next_id() < i64::MAX,
        ensures
            final(self).wf(),
            t@.id == old(self).spec_next_id(),
            t@.description == input@,
            t@.status == false,
            !contains_id(old(self)@, t@.id),
            final(self)@ == old(self)@.push(t@),
            final(self).spec_next_id() == old(self).spec_next_id() + 1,
    {
        let id = self.next_id;
        self.next_id = self.next_id + 1;
        let stored = Todo { id, description: input.description.clone(), status: false };
        self.todos.push(stored);
        let t = Todo { id, description: input.description, status: false };
        proof {
            assert(self@ =~= old(self)@.push(t@));
        }
        t
    }

    /// The index of the record carrying `id`, if any record does.
    fn position_of(&self, id: i64) -> (r: Option<usize>)
        ensures
            match r {
                Some(i) => i < self@.len() && self@[i as int].id == id as int,
                None => !contains_id(self@, id as int),
            },
    {
        let mut i: usize = 0;
        while i < self.todos.len()
            invariant
                i <= self.todos.len(),
                forall|j: int| 0 <= j < i ==> #[trigger] self@[j].id != id as int,
            decreases self.todos.len() - i,
        {
            if self.todos[i].id == id {
                return Some(i);
            }
            i = i + 1;
        }
        None
    }

    /// Overwrites description and status — the full payload, not a merge —
    /// of the record matching `id`. If no record matches, reports not-found
    /// and leaves the table exactly as it was.
    pub fn update(&mut self, id: i64, description: String, status: bool) -> (r: Result<
        (),
        ServiceError,
    >)
        requires
            old(self).wf(),
        ensures
            final(self).wf(),
            final(self).spec_next_id() == old(self).spec_next_id(),
            contains_id(old(self)@, id as int) ==> {
                &&& r == Ok::<(), ServiceError>(())
                &&& exists|i: int|
                    0 <= i < old(self)@.len() && #[trigger] old(self)@[i].id == id as int
                        && final(self)@ == old(self)@.update(
                        i,
                        TodoView { id: id as int, description: description@, status },
                    )
            },
            !contains_id(old(self)@, id as int) ==> {
                &&& r == Err::<(), ServiceError>(ServiceError::NotFound)
                &&& final(self)@ == old(self)@
            },
    {
        match self.position_of(id) {
            Some(i) => {
                let replaced = Todo { id, description, status };
                self.todos.remove(i);
                self.todos.insert(i, replaced);
                proof {
                    let v = TodoView { id: id as int, description: description@, status };
                    assert(self@ =~= old(self)@.update(i as int, v));
                }
                Ok(())
            },
            None => Err(ServiceError::NotFound),
        }
    }

    /// Removes the record matching `id`: exactly one row, and no record with
    /// that id remains. If no record matches, reports not-found and leaves
    /// the table exactly as it was.
    pub fn delete(&mut self, id: i64) -> (r: Result<(), ServiceError>)
        requires
            old(self).wf(),
        ensures
            final(self).wf(),
            final(self).spec_next_id() == old(self).spec_next_id(),
            contains_id(old(self)@, id as int) ==> {
                &&& r == Ok::<(), ServiceError>(())
                &&& exists|i: int|
                    0 <= i < old(self)@.len() && #[trigger] old(self)@[i].id == id as int
                        && final(self)@ == old(self)@.remove(i)
                &&& final(self)@.len() == old(self)@.len() - 1
                &&& !contains_id(final(self)@, id as int)
            },
            !contains_id(old(self)@, id as int) ==> {
                &&& r == Err::<(), ServiceError>(ServiceError::NotFound)
                &&& final(self)@ == old(self)@
            },
    {
        match self.position_of(id) {
            Some(i) => {
                self.todos.remove(i);
                proof {
                    assert(self@ =~= old(self)@.remove(i as int));
                    lemma_delete_removes_id(old(self)@, i as int);
                }
                Ok(())
            },
            None => Err(ServiceError::NotFound),
        }
    }
}

/// Law: overwriting the record at a matched index leaves the table with
/// exactly one record carrying that id — it holds the new description and
/// status in full — while every other record is unchanged.
pub proof fn lemma_update_exactly_one(s: Seq<TodoView>, i: int, description: Seq<char>, status: bool)
    requires
        ids_unique(s),
        0 <= i < s.len(),
    ensures
        ({
            let p = s.update(i, TodoView { id: s[i].id, description, status });
            &&& p.len() == s.len()
            &&& p[i].id == s[i].id && p[i].description == description && p[i].status == status
            &&& forall|j: int| 0 <= j < p.len() && #[trigger] p[j].id == s[i].id ==> j == i
            &&& forall|j: int| 0 <= j < p.len() && j != i ==> p[j] == s[j]
            &&& ids_unique(p)
        }),
{
}

/// Law: removing the record at a matched index removes exactly one row, no
/// record with that id remains, and every other record is kept in order.
pub proof fn lemma_delete_removes_id(s: Seq<TodoView>, i: int)
    requires
        ids_unique(s),
        0 <= i < s.len(),
    ensures
        s.remove(i).len() == s.len() - 1,
        !contains_id(s.remove(i), s[i].id),
        ids_unique(s.remove(i)),
        forall|j: int| 0 <= j < i ==> #[trigger] s.remove(i)[j] == s[j],
        forall|j: int| i <= j < s.len() - 1 ==> #[trigger] s.remove(i)[j] == s[j + 1],
{
    assert forall|j: int| 0 <= j < s.remove(i).len() implies #[trigger] s.remove(i)[j].id
        != s[i].id by {
        if j < i {
            assert(s.remove(i)[j] == s[j]);
        } else {
            assert(s.remove(i)[j] == s[j + 1]);
        }
    }
}

} // verus!

