//! The errors of the service and the responses that report them.

use crate::http::{
    Body, BodyView, ErrorMessage, ErrorMessageView, FormattedErrorResponse,
    FormattedErrorResponseView, HttpReply, HttpReplyView, BAD_REQUEST, CONFLICT,
    INTERNAL_SERVER_ERROR, NOT_FOUND, UNAUTHORIZED,
};
use crate::validation::{ValidationErrors, ValidationErrorsView};
use vstd::prelude::*;
use vstd::string::*;

verus! {

/// Everything that can go wrong with a request.
#[derive(Debug, PartialEq)]
pub enum CustomError {
    ValidationError { e: ValidationErrors },
    ServerError,
    BadRequestWithMsg { message: String },
    BadRequest,
    NotFoundWithMsg { message: String },
    NotFound,
    Conflict,
    Unauthorized,
}

/// [`CustomError`] as a mathematical value.
pub enum CustomErrorView {
    ValidationError { e: ValidationErrorsView },
    ServerError,
    BadRequestWithMsg { message: Seq<char> },
    BadRequest,
    NotFoundWithMsg { message: Seq<char> },
    NotFound,
    Conflict,
    Unauthorized,
}

impl View for CustomError {
    type V = CustomErrorView;

    open spec fn view(&self) -> CustomErrorView {
        match self {
            CustomError::ValidationError { e } => CustomErrorView::ValidationError { e: e@ },
            CustomError::ServerError => CustomErrorView::ServerError,
            CustomError::BadRequestWithMsg { message } => CustomErrorView::BadRequestWithMsg {
                message: message@,
            },
            CustomError::BadRequest => CustomErrorView::BadRequest,
            CustomError::NotFoundWithMsg { message } => CustomErrorView::NotFoundWithMsg {
                message: message@,
            },
            CustomError::NotFound => CustomErrorView::NotFound,
            CustomError::Conflict => CustomErrorView::Conflict,
            CustomError::Unauthorized => CustomErrorView::Unauthorized,
        }
    }
}

impl CustomErrorView {
    /// The HTTP status that reports the error.
    pub open spec fn status_code(self) -> u16 {
        match self {
            CustomErrorView::ServerError => INTERNAL_SERVER_ERROR,
            CustomErrorView::ValidationError { .. } => BAD_REQUEST,
            CustomErrorView::BadRequest => BAD_REQUEST,
            CustomErrorView::BadRequestWithMsg { .. } => BAD_REQUEST,
            CustomErrorView::NotFound => NOT_FOUND,
            CustomErrorView::NotFoundWithMsg { .. } => NOT_FOUND,
            CustomErrorView::Conflict => CONFLICT,
            CustomErrorView::Unauthorized => UNAUTHORIZED,
        }
    }

    /// The reason phrase of the error: the phrase of its status.
    pub open spec fn reason(self) -> Seq<char> {
        match self {
            CustomErrorView::ServerError => "Internal Server Error"@,
            CustomErrorView::ValidationError { .. } => "Bad Request"@,
            CustomErrorView::BadRequest => "Bad Request"@,
            CustomErrorView::BadRequestWithMsg { .. } => "Bad Request"@,
            CustomErrorView::NotFound => "Not Found"@,
            CustomErrorView::NotFoundWithMsg { .. } => "Not Found"@,
            CustomErrorView::Conflict => "Conflict"@,
            CustomErrorView::Unauthorized => "Unauthorized"@,
        }
    }

    /// The error in words. A message that the error carries is not part of them.
    pub open spec fn text(self) -> Seq<char> {
        match self {
            CustomErrorView::ValidationError { .. } => "Validation error"@,
            CustomErrorView::ServerError => "Internal server error. Please try again later."@,
            CustomErrorView::BadRequestWithMsg { .. } => "Bad request"@,
            CustomErrorView::BadRequest => "Bad request"@,
            CustomErrorView::NotFoundWithMsg { .. } => "Not found"@,
            CustomErrorView::NotFound => "Not found"@,
            CustomErrorView::Conflict => "Conflict"@,
            CustomErrorView::Unauthorized => "Unauthorized"@,
        }
    }

    /// The body that reports the error: the status, the reason phrase, and as the
    /// message the violations of a validation error or else the error in words.
    pub open spec fn body(self) -> FormattedErrorResponseView {
        FormattedErrorResponseView {
            status_code: self.status_code(),
            error: self.reason(),
            message: match self {
                CustomErrorView::ValidationError { e } => ErrorMessageView::Violations(e),
                _ => ErrorMessageView::Text(self.text()),
            },
        }
    }

    /// The whole response.
    pub open spec fn reply(self) -> HttpReplyView {
        HttpReplyView { status: self.status_code(), body: BodyView::Failed(self.body()) }
    }
}

impl CustomError {
    /// The reason phrase that goes into the `error` field of the body.
    pub fn message(&self) -> (r: String)
        ensures
            r@ == self@.reason(),
    {
        match self {
            CustomError::ServerError => String::from_str("Internal Server Error"),
            CustomError::ValidationError { .. } => String::from_str("Bad Request"),
            CustomError::BadRequest => String::from_str("Bad Request"),
            CustomError::BadRequestWithMsg { .. } => String::from_str("Bad Request"),
            CustomError::NotFound => String::from_str("Not Found"),
            CustomError::NotFoundWithMsg { .. } => String::from_str("Not Found"),
            CustomError::Conflict => String::from_str("Conflict"),
            CustomError::Unauthorized => String::from_str("Unauthorized"),
        }
    }

    /// The HTTP status that reports the error.
    pub fn status_code(&self) -> (r: u16)
        ensures
            r == self@.status_code(),
    {
        match self {
            CustomError::ServerError => INTERNAL_SERVER_ERROR,
            CustomError::ValidationError { .. } => BAD_REQUEST,
            CustomError::BadRequest => BAD_REQUEST,
            CustomError::BadRequestWithMsg { .. } => BAD_REQUEST,
            CustomError::NotFound => NOT_FOUND,
            CustomError::NotFoundWithMsg { .. } => NOT_FOUND,
            CustomError::Conflict => CONFLICT,
            CustomError::Unauthorized => UNAUTHORIZED,
        }
    }

    /// The error in words.
    pub fn to_string(&self) -> (r: String)
        ensures
            r@ == self@.text(),
    {
        match self {
            CustomError::ValidationError { .. } => String::from_str("Validation error"),
            CustomError::ServerError => String::from_str(
                "Internal server error. Please try again later.",
            ),
            CustomError::BadRequestWithMsg { .. } => String::from_str("Bad request"),
            CustomError::BadRequest => String::from_str("Bad request"),
            CustomError::NotFoundWithMsg { .. } => String::from_str("Not found"),
            CustomError::NotFound => String::from_str("Not found"),
            CustomError::Conflict => String::from_str("Conflict"),
            CustomError::Unauthorized => String::from_str("Unauthorized"),
        }
    }

    /// The response that reports the error.
    pub fn error_response(&self) -> (r: HttpReply)
        ensures
            r@ == self@.reply(),
    {
        let message = match self {
            CustomError::ValidationError { e } => ErrorMessage::Violations(e.duplicate()),
            _ => ErrorMessage::Text(self.to_string()),
        };
        let body = FormattedErrorResponse {
            status_code: self.status_code(),
            error: self.message(),
            message,
        };
        HttpReply { status: self.status_code(), body: Body::Failed(body) }
    }
}

/// Every error is reported with a status of the client-error or server-error range,
/// every kind of error has one status, and the reason phrase is that of the status
/// and never empty.
pub proof fn lemma_error_statuses(e: CustomErrorView)
    ensures
        e.status_code() == 400 || e.status_code() == 401 || e.status_code() == 404
            || e.status_code() == 409 || e.status_code() == 500,
        e is ValidationError || e is BadRequest || e is BadRequestWithMsg <==> e.status_code()
            == 400,
        e is Unauthorized <==> e.status_code() == 401,
        e is NotFound || e is NotFoundWithMsg <==> e.status_code() == 404,
        e is Conflict <==> e.status_code() == 409,
        e is ServerError <==> e.status_code() == 500,
        e.reply().status == e.body().status_code,
        e.reason().len() > 0,
        e.status_code() == 400 <==> e.reason() == "Bad Request"@,
        e.status_code() == 401 <==> e.reason() == "Unauthorized"@,
        e.status_code() == 404 <==> e.reason() == "Not Found"@,
        e.status_code() == 409 <==> e.reason() == "Conflict"@,
        e.status_code() == 500 <==> e.reason() == "Internal Server Error"@,
{
    reveal_strlit("Bad Request");
    reveal_strlit("Unauthorized");
    reveal_strlit("Not Found");
    reveal_strlit("Conflict");
    reveal_strlit("Internal Server Error");
    assert("Bad Request"@.len() == 11 && "Unauthorized"@.len() == 12 && "Not Found"@.len() == 9);
    assert("Conflict"@.len() == 8 && "Internal Server Error"@.len() == 21);
}

} // verus!
