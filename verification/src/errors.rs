//! The one way a store operation can fail.

use vstd::prelude::*;
use vstd::string::StringExecFns;
use crate::response::{Body, BodyView, Response, ResponseView};

verus! {

/// The status a failed lookup is reported with.
pub const NOT_FOUND: u16 = 404;

/// What an [`ApiError`] stands for in specifications.
pub enum ApiErrorView {
    TodoNotFound(Seq<char>),
}

/// A failure of a store operation.
#[derive(Debug, PartialEq, Eq)]
pub enum ApiError {
    /// No record carries the identifier that was asked for.
    TodoNotFound(String),
}

impl View for ApiError {
    type V = ApiErrorView;

    open spec fn view(&self) -> ApiErrorView {
        match self {
            ApiError::TodoNotFound(id) => ApiErrorView::TodoNotFound(id@),
        }
    }
}

/// The sentence that reports a missing record: the identifier in double
/// quotes between two fixed parts.
pub open spec fn not_found_message(id: Seq<char>) -> Seq<char> {
    "Todo with id \""@ + id + "\" not found!"@
}

impl ApiErrorView {
    /// The text shown to a client.
    pub open spec fn message(self) -> Seq<char> {
        match self {
            ApiErrorView::TodoNotFound(id) => not_found_message(id),
        }
    }

    /// The status the error is reported with.
    pub open spec fn status_code(self) -> u16 {
        match self {
            ApiErrorView::TodoNotFound(_) => NOT_FOUND,
        }
    }

    /// The response a client gets: the status with the message as its body.
    pub open spec fn response(self) -> ResponseView {
        ResponseView { status: self.status_code(), body: BodyView::Error(self.message()) }
    }
}

impl ApiError {
    /// The text shown to a client.
    pub fn message(&self) -> (text: String)
        ensures
            text@ == self@.message(),
    {
        match self {
            ApiError::TodoNotFound(id) => {
                let mut text = String::from_str("Todo with id \"");
                text.append(id.as_str());
                text.append("\" not found!");
                text
            },
        }
    }

    /// The status the error is reported with.
    pub fn status_code(&self) -> (status: u16)
        ensures
            status == self@.status_code(),
    {
        match self {
            ApiError::TodoNotFound(_) => NOT_FOUND,
        }
    }

    /// Turns the error into the response a client gets.
    pub fn into_response(self) -> (response: Response)
        ensures
            response@ == self@.response(),
    {
        let status = self.status_code();
        let message = self.message();
        Response { status, body: Body::Error(message) }
    }
}

} // verus!
