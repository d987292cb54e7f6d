//! The todo record types and their mathematical views.

use vstd::prelude::*;

verus! {

/// The mathematical value of a todo record: its id, the characters of its
/// description, and its done/not-done status.
pub ghost struct TodoView {
    pub id: int,
    pub description: Seq<char>,
    pub status: bool,
}

/// A todo record as the service stores and returns it.
///
/// `id` is assigned by the store at creation and never reused;
/// `description` is user-supplied text; `status` defaults to false
/// ("not done") at creation.
pub struct Todo {
    pub id: i64,
    pub description: String,
    pub status: bool,
}

impl View for Todo {
    type V = TodoView;

    open spec fn view(&self) -> TodoView {
        TodoView { id: self.id as int, description: self.description@, status: self.status }
    }
}

/// The payload of a create request: only the description; the store picks
/// the id and the status starts as false.
pub struct CreateTodo {
    pub description: String,
}

impl View for CreateTodo {
    type V = Seq<char>;

    open spec fn view(&self) -> Seq<char> {
        self.description@
    }
}

} // verus!
