//! The ordered store of records and its operations.

use vstd::prelude::*;
use crate::errors::{ApiError, ApiErrorView};
use crate::ident::{fresh_id, is_uuid_v4_text};
use crate::model::{
    created, deleted, edited, has_id, lemma_position_is, position, seeded, toggled,
};
use crate::todo::{views, Todo, TodoView};

verus! {

/// Records in the order in which they were created. Its view is the sequence
/// of the records' views.
pub struct TodoStore {
    todos: Vec<Todo>,
}

impl View for TodoStore {
    type V = Seq<TodoView>;

    closed spec fn view(&self) -> Seq<TodoView> {
        views(self.todos@)
    }
}

impl TodoStore {
    /// A store with the two starting records under the given identifiers.
    pub fn with_seed_ids(first_id: String, second_id: String) -> (store: TodoStore)
        ensures
            store@ == seeded(first_id@, second_id@),
    {
        let mut todos: Vec<Todo> = Vec::new();
        todos.push(Todo { id: first_id, text: "Learn React".to_owned(), done: false });
        todos.push(Todo { id: second_id, text: "Learn Vim".to_owned(), done: true });
        TodoStore { todos }
    }

    /// A store with the two starting records under fresh identifiers.
    pub fn new() -> (store: TodoStore)
        ensures
            store@.len() == 2,
            store@ == seeded(store@[0].id, store@[1].id),
            is_uuid_v4_text(store@[0].id),
            is_uuid_v4_text(store@[1].id),
    {
        let first_id = fresh_id();
        let second_id = fresh_id();
        TodoStore::with_seed_ids(first_id, second_id)
    }

    /// A copy of all records in their current order.
    pub fn list(&self) -> (todos: Vec<Todo>)
        ensures
            views(todos@) == self@,
    {
        let todos = self.todos.clone();
        todos
    }

    /// Appends a record with the given identifier and text, not done, and
    /// returns a copy of it. The store does not look whether a record carries
    /// `id` already: the caller answers for that.
    pub fn create_with_id(&mut self, id: String, text: String) -> (todo: Todo)
        ensures
            todo@ == (TodoView { id: id@, text: text@, done: false }),
            final(self)@ == created(old(self)@, id@, text@),
    {
        let todo = Todo::new(id, text);
        self.todos.push(todo.clone());
        todo
    }

    /// Appends a record with a fresh identifier and the given text, not done,
    /// and returns a copy of it. Any text is taken as it is, the empty one too.
    ///
    /// The identifier is random. That it differs from those in the store is
    /// as good as certain; the store does not compare it with them.
    pub fn create(&mut self, text: String) -> (todo: Todo)
        ensures
            todo@.text == text@,
            !todo@.done,
            is_uuid_v4_text(todo@.id),
            final(self)@ == created(old(self)@, todo@.id, text@),
    {
        let id = fresh_id();
        self.create_with_id(id, text)
    }

    /// Scans the records in order for the first that carries `id`.
    fn find(&self, id: &String) -> (found: Option<usize>)
        ensures
            match found {
                Some(i) => i < self@.len() && position(self@, id@) == Some(i as int),
                None => !has_id(self@, id@),
            },
    {
        let mut i: usize = 0;
        while i < self.todos.len()
            invariant
                i <= self.todos.len(),
                forall|j: int| 0 <= j < i ==> (#[trigger] self@[j]).id != id@,
            decreases self.todos.len() - i,
        {
            if self.todos[i].id == *id {
                proof {
                    lemma_position_is(self@, id@, i as int);
                }
                return Some(i);
            }
            i += 1;
        }
        None
    }

    /// Flips the completion flag of the first record that carries `id`.
    /// Where no record does, the store stays as it is and the error names `id`.
    pub fn toggle(&mut self, id: &str) -> (result: Result<(), ApiError>)
        ensures
            final(self)@ == toggled(old(self)@, id@),
            result is Ok <==> has_id(old(self)@, id@),
            result matches Err(e) ==> e@ == ApiErrorView::TodoNotFound(id@),
    {
        let wanted = id.to_owned();
        match self.find(&wanted) {
            Some(i) => {
                self.todos[i].done = !self.todos[i].done;
                Ok(())
            },
            None => Err(ApiError::TodoNotFound(wanted)),
        }
    }

    /// Replaces the text of the first record that carries `id` and returns a
    /// copy of the record as it then stands. Where no record carries `id`,
    /// the store stays as it is and the error names `id`.
    pub fn edit(&mut self, id: &str, text: String) -> (result: Result<Todo, ApiError>)
        ensures
            final(self)@ == edited(old(self)@, id@, text@),
            result is Ok <==> has_id(old(self)@, id@),
            result matches Ok(todo) ==> position(old(self)@, id@) matches Some(i)
                && todo@ == (TodoView { text: text@, ..old(self)@[i] }),
            result matches Err(e) ==> e@ == ApiErrorView::TodoNotFound(id@),
    {
        let wanted = id.to_owned();
        match self.find(&wanted) {
            Some(i) => {
                self.todos[i].text = text;
                Ok(self.todos[i].clone())
            },
            None => Err(ApiError::TodoNotFound(wanted)),
        }
    }

    /// Takes out the first record that carries `id`; the others keep their
    /// order. Where no record carries `id`, the store stays as it is and the
    /// error names `id`.
    pub fn delete(&mut self, id: &str) -> (result: Result<(), ApiError>)
        ensures
            final(self)@ == deleted(old(self)@, id@),
            result is Ok <==> has_id(old(self)@, id@),
            result matches Err(e) ==> e@ == ApiErrorView::TodoNotFound(id@),
    {
        let wanted = id.to_owned();
        match self.find(&wanted) {
            Some(i) => {
                self.todos.remove(i);
                Ok(())
            },
            None => Err(ApiError::TodoNotFound(wanted)),
        }
    }
}

} // verus!
