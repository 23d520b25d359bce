//! The success outcomes of the write operations.

use crate::http::{
    Body, BodyView, FormattedResponse, FormattedResponseView, HttpReply, HttpReplyView, CREATED,
    OK,
};
use vstd::prelude::*;
use vstd::string::*;

verus! {

/// What a write operation reports when it has succeeded.
#[derive(Debug, PartialEq)]
pub enum CustomResponse {
    Created { id: usize },
    Updated { id: usize },
    Deleted { id: usize },
    BulkDeleted { ids: Vec<usize> },
}

/// [`CustomResponse`] as a mathematical value.
pub enum CustomResponseView {
    Created { id: usize },
    Updated { id: usize },
    Deleted { id: usize },
    BulkDeleted { ids: Seq<usize> },
}

impl View for CustomResponse {
    type V = CustomResponseView;

    open spec fn view(&self) -> CustomResponseView {
        match self {
            CustomResponse::Created { id } => CustomResponseView::Created { id: *id },
            CustomResponse::Updated { id } => CustomResponseView::Updated { id: *id },
            CustomResponse::Deleted { id } => CustomResponseView::Deleted { id: *id },
            CustomResponse::BulkDeleted { ids } => CustomResponseView::BulkDeleted { ids: ids@ },
        }
    }
}

impl CustomResponseView {
    /// The key that a single-row outcome carries; a bulk outcome has none.
    pub open spec fn id(self) -> Option<usize> {
        match self {
            CustomResponseView::Created { id } => Some(id),
            CustomResponseView::Updated { id } => Some(id),
            CustomResponseView::Deleted { id } => Some(id),
            CustomResponseView::BulkDeleted { .. } => None,
        }
    }

    /// The HTTP status of the outcome: 201 for a creation, 200 for every other.
    pub open spec fn status_code(self) -> u16 {
        match self {
            CustomResponseView::Created { .. } => CREATED,
            _ => OK,
        }
    }

    /// The outcome in words.
    pub open spec fn text(self) -> Seq<char> {
        match self {
            CustomResponseView::Created { .. } => "Created"@,
            CustomResponseView::Updated { .. } => "Updated"@,
            CustomResponseView::Deleted { .. } => "Deleted"@,
            CustomResponseView::BulkDeleted { .. } => "Bulk Deleted"@,
        }
    }

    /// The body of the response: the outcome in words with the key or the keys.
    pub open spec fn body(self) -> FormattedResponseView {
        match self {
            CustomResponseView::Created { id } => FormattedResponseView::WithId {
                message: self.text(),
                id,
            },
            CustomResponseView::Updated { id } => FormattedResponseView::WithId {
                message: self.text(),
                id,
            },
            CustomResponseView::Deleted { id } => FormattedResponseView::WithId {
                message: self.text(),
                id,
            },
            CustomResponseView::BulkDeleted { ids } => FormattedResponseView::WithIds {
                message: self.text(),
                ids,
            },
        }
    }

    /// The whole response.
    pub open spec fn reply(self) -> HttpReplyView {
        HttpReplyView { status: self.status_code(), body: BodyView::Written(self.body()) }
    }
}

impl CustomResponse {
    /// The key of the row that was written, if the outcome names one row.
    pub fn id(&self) -> (r: Option<usize>)
        ensures
            r == self@.id(),
    {
        match self {
            CustomResponse::Created { id } => Some(*id),
            CustomResponse::Updated { id } => Some(*id),
            CustomResponse::Deleted { id } => Some(*id),
            CustomResponse::BulkDeleted { .. } => None,
        }
    }

    /// The HTTP status of the outcome.
    pub fn status_code(&self) -> (r: u16)
        ensures
            r == self@.status_code(),
    {
        match self {
            CustomResponse::Created { .. } => CREATED,
            CustomResponse::Updated { .. } => OK,
            CustomResponse::Deleted { .. } => OK,
            CustomResponse::BulkDeleted { .. } => OK,
        }
    }

    /// The outcome in words, as the body's message gives it.
    pub fn to_string(&self) -> (r: String)
        ensures
            r@ == self@.text(),
    {
        match self {
            CustomResponse::Created { .. } => String::from_str("Created"),
            CustomResponse::Updated { .. } => String::from_str("Updated"),
            CustomResponse::Deleted { .. } => String::from_str("Deleted"),
            CustomResponse::BulkDeleted { .. } => String::from_str("Bulk Deleted"),
        }
    }

    /// The response that reports the outcome.
    pub fn respond_to(self) -> (r: HttpReply)
        ensures
            r@ == self@.reply(),
    {
        let status = self.status_code();
        let message = self.to_string();
        let body = match self {
            CustomResponse::Created { id } => FormattedResponse::WithId { message, id },
            CustomResponse::Updated { id } => FormattedResponse::WithId { message, id },
            CustomResponse::Deleted { id } => FormattedResponse::WithId { message, id },
            CustomResponse::BulkDeleted { ids } => FormattedResponse::WithIds { message, ids },
        };
        HttpReply { status, body: Body::Written(body) }
    }
}

} // verus!
