//! What a handler hands back: a status and a body, before any encoding.

use vstd::prelude::*;
use crate::todo::{views, Todo, TodoView};

verus! {

/// The status of a request that was served.
pub const OK: u16 = 200;

/// What a [`Body`] stands for in specifications.
pub enum BodyView {
    Empty,
    Todo(TodoView),
    Todos(Seq<TodoView>),
    Error(Seq<char>),
}

/// The payload of a response.
#[derive(Debug, PartialEq, Eq)]
pub enum Body {
    /// Nothing at all.
    Empty,
    /// One record.
    Todo(Todo),
    /// Records in the order of the store.
    Todos(Vec<Todo>),
    /// The message of a failure, to be sent under the key `error`.
    Error(String),
}

impl View for Body {
    type V = BodyView;

    open spec fn view(&self) -> BodyView {
        match self {
            Body::Empty => BodyView::Empty,
            Body::Todo(todo) => BodyView::Todo(todo@),
            Body::Todos(todos) => BodyView::Todos(views(todos@)),
            Body::Error(message) => BodyView::Error(message@),
        }
    }
}

/// What a [`Response`] stands for in specifications.
pub struct ResponseView {
    pub status: u16,
    pub body: BodyView,
}

/// A status with its payload.
#[derive(Debug, PartialEq, Eq)]
pub struct Response {
    pub status: u16,
    pub body: Body,
}

impl View for Response {
    type V = ResponseView;

    open spec fn view(&self) -> ResponseView {
        ResponseView { status: self.status, body: self.body@ }
    }
}

/// A served request with the given payload.
pub open spec fn served(body: BodyView) -> ResponseView {
    ResponseView { status: OK, body }
}

} // verus!
