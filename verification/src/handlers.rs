//! One handler per request: it runs the store operation and says what the
//! client is told.

use vstd::prelude::*;
use crate::errors::ApiErrorView;
use crate::ident::is_uuid_v4_text;
use crate::model::{created, deleted, edited, has_id, position, toggled};
use crate::response::{served, Body, BodyView, Response, ResponseView, OK};
use crate::store::TodoStore;
use crate::todo::{CreateTodo, TodoView};

verus! {

/// The reply to a lookup: `body` where some record carries `id`, the
/// not-found response otherwise.
pub open spec fn served_if_found(
    todos: Seq<TodoView>,
    id: Seq<char>,
    body: BodyView,
) -> ResponseView {
    if has_id(todos, id) {
        served(body)
    } else {
        ApiErrorView::TodoNotFound(id).response()
    }
}

/// The greeting at the root of the service.
pub fn hello() -> (greeting: &'static str)
    ensures
        greeting@ == "Hello Rust!"@,
{
    "Hello Rust!"
}

/// Lists all records in the order of the store.
pub fn get_todos(store: &TodoStore) -> (response: Response)
    ensures
        response@ == served(BodyView::Todos(store@)),
{
    Response { status: OK, body: Body::Todos(store.list()) }
}

/// Creates a record with the text of `body` and replies with it.
pub fn create_todo(store: &mut TodoStore, body: CreateTodo) -> (response: Response)
    ensures
        response@.status == OK,
        response@.body matches BodyView::Todo(todo)
            && todo.text == body.text@
            && !todo.done
            && is_uuid_v4_text(todo.id)
            && final(store)@ == created(old(store)@, todo.id, body.text@),
{
    let todo = store.create(body.text);
    Response { status: OK, body: Body::Todo(todo) }
}

/// Flips the completion flag of the record with `id`.
pub fn toggle_todo(store: &mut TodoStore, id: &str) -> (response: Response)
    ensures
        final(store)@ == toggled(old(store)@, id@),
        response@ == served_if_found(old(store)@, id@, BodyView::Empty),
{
    match store.toggle(id) {
        Ok(()) => Response { status: OK, body: Body::Empty },
        Err(error) => error.into_response(),
    }
}

/// Takes out the record with `id`.
pub fn delete_todo(store: &mut TodoStore, id: &str) -> (response: Response)
    ensures
        final(store)@ == deleted(old(store)@, id@),
        response@ == served_if_found(old(store)@, id@, BodyView::Empty),
{
    match store.delete(id) {
        Ok(()) => Response { status: OK, body: Body::Empty },
        Err(error) => error.into_response(),
    }
}

/// Replaces the text of the record with `id` by the text of `body` and
/// replies with the record as it then stands.
pub fn edit_todo(store: &mut TodoStore, id: &str, body: CreateTodo) -> (response: Response)
    ensures
        final(store)@ == edited(old(store)@, id@, body.text@),
        response@ == match position(old(store)@, id@) {
            Some(i) => served(BodyView::Todo(TodoView { text: body.text@, ..old(store)@[i] })),
            None => ApiErrorView::TodoNotFound(id@).response(),
        },
{
    match store.edit(id, body.text) {
        Ok(todo) => Response { status: OK, body: Body::Todo(todo) },
        Err(error) => error.into_response(),
    }
}

} // verus!
