//! A single task record and its mathematical view.

use vstd::prelude::*;

verus! {

/// What a [`Todo`] stands for in specifications.
pub struct TodoView {
    pub id: Seq<char>,
    pub text: Seq<char>,
    pub done: bool,
}

/// A task: an identifier assigned at creation, a text and a completion flag.
#[derive(Debug, PartialEq, Eq)]
pub struct Todo {
    pub id: String,
    pub text: String,
    pub done: bool,
}

/// What a client sends to create a record or to change its text.
#[derive(Debug, PartialEq, Eq)]
pub struct CreateTodo {
    pub text: String,
}

impl View for Todo {
    type V = TodoView;

    open spec fn view(&self) -> TodoView {
        TodoView { id: self.id@, text: self.text@, done: self.done }
    }
}

/// The views of a run of records, in order.
pub open spec fn views(todos: Seq<Todo>) -> Seq<TodoView> {
    todos.map_values(|todo: Todo| todo@)
}

impl Clone for Todo {
    fn clone(&self) -> (copy: Self)
        ensures
            copy@ == self@,
    {
        Todo { id: self.id.clone(), text: self.text.clone(), done: self.done }
    }
}

impl Todo {
    /// A task that is not done yet.
    pub fn new(id: String, text: String) -> (todo: Todo)
        ensures
            todo@ == (TodoView { id: id@, text: text@, done: false }),
    {
        Todo { id, text, done: false }
    }
}

} // verus!
