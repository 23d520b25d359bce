//! The responses of the service as plain values: a status and a body. Turning
//! a body into JSON is left to the program around the library.

use crate::todo::{todos, Model, Todo};
use crate::validation::{ValidationErrors, ValidationErrorsView};
use vstd::prelude::*;

verus! {

/// The body that reports a successful write: a message and the key or keys written.
#[derive(Debug, PartialEq)]
pub enum FormattedResponse {
    WithId { message: String, id: usize },
    WithIds { message: String, ids: Vec<usize> },
}

/// The `message` of an error body: a sentence, or the violations of a payload.
#[derive(Debug, PartialEq)]
pub enum ErrorMessage {
    Text(String),
    Violations(ValidationErrors),
}

/// The body that reports an error: the status once more, the reason phrase, the message.
#[derive(Debug, PartialEq)]
pub struct FormattedErrorResponse {
    pub status_code: u16,
    pub error: String,
    pub message: ErrorMessage,
}

/// What a response carries.
#[derive(Debug, PartialEq)]
pub enum Body {
    Empty,
    Todos(Vec<Model>),
    Todo(Model),
    Written(FormattedResponse),
    Failed(FormattedErrorResponse),
}

/// A response: the HTTP status and the body.
#[derive(Debug, PartialEq)]
pub struct HttpReply {
    pub status: u16,
    pub body: Body,
}

/// [`FormattedResponse`] as a mathematical value.
pub enum FormattedResponseView {
    WithId { message: Seq<char>, id: usize },
    WithIds { message: Seq<char>, ids: Seq<usize> },
}

/// [`ErrorMessage`] as a mathematical value.
pub enum ErrorMessageView {
    Text(Seq<char>),
    Violations(ValidationErrorsView),
}

/// [`FormattedErrorResponse`] as a mathematical value.
pub struct FormattedErrorResponseView {
    pub status_code: u16,
    pub error: Seq<char>,
    pub message: ErrorMessageView,
}

/// [`Body`] as a mathematical value.
pub enum BodyView {
    Empty,
    Todos(Seq<Todo>),
    Todo(Todo),
    Written(FormattedResponseView),
    Failed(FormattedErrorResponseView),
}

/// [`HttpReply`] as a mathematical value.
pub struct HttpReplyView {
    pub status: u16,
    pub body: BodyView,
}

impl View for FormattedResponse {
    type V = FormattedResponseView;

    open spec fn view(&self) -> FormattedResponseView {
        match self {
            FormattedResponse::WithId { message, id } => FormattedResponseView::WithId {
                message: message@,
                id: *id,
            },
            FormattedResponse::WithIds { message, ids } => FormattedResponseView::WithIds {
                message: message@,
                ids: ids@,
            },
        }
    }
}

impl View for ErrorMessage {
    type V = ErrorMessageView;

    open spec fn view(&self) -> ErrorMessageView {
        match self {
            ErrorMessage::Text(text) => ErrorMessageView::Text(text@),
            ErrorMessage::Violations(e) => ErrorMessageView::Violations(e@),
        }
    }
}

impl View for FormattedErrorResponse {
    type V = FormattedErrorResponseView;

    open spec fn view(&self) -> FormattedErrorResponseView {
        FormattedErrorResponseView {
            status_code: self.status_code,
            error: self.error@,
            message: self.message@,
        }
    }
}

impl View for Body {
    type V = BodyView;

    open spec fn view(&self) -> BodyView {
        match self {
            Body::Empty => BodyView::Empty,
            Body::Todos(rows) => BodyView::Todos(todos(rows@)),
            Body::Todo(row) => BodyView::Todo(row@),
            Body::Written(body) => BodyView::Written(body@),
            Body::Failed(body) => BodyView::Failed(body@),
        }
    }
}

impl View for HttpReply {
    type V = HttpReplyView;

    open spec fn view(&self) -> HttpReplyView {
        HttpReplyView { status: self.status, body: self.body@ }
    }
}

/// 200 OK.
pub const OK: u16 = 200;

/// 201 Created.
pub const CREATED: u16 = 201;

/// 400 Bad Request.
pub const BAD_REQUEST: u16 = 400;

/// 401 Unauthorized.
pub const UNAUTHORIZED: u16 = 401;

/// 404 Not Found.
pub const NOT_FOUND: u16 = 404;

/// 409 Conflict.
pub const CONFLICT: u16 = 409;

/// 500 Internal Server Error.
pub const INTERNAL_SERVER_ERROR: u16 = 500;

} // verus!
