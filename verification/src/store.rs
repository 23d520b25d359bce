//! What the service asks of the store and what the store answers.
//!
//! The service performs no I/O. It hands out one request at a time; whoever
//! drives it puts the request to the store and hands back the reply. Between
//! `Begin` and `Commit` every request belongs to one transaction, and a
//! transaction that is still open when the service finishes is rolled back.

use crate::text::optional_text;
use crate::todo::{optional_todo, todos, Model, Todo};
use vstd::prelude::*;

verus! {

/// The fields that an update writes; a field that is `None` is left as it is.
#[derive(Debug, PartialEq)]
pub struct TodoPatch {
    pub title: Option<String>,
    pub description: Option<String>,
    pub done: Option<bool>,
}

/// One question or order to the store.
#[derive(Debug, PartialEq)]
pub enum StoreRequest {
    /// The rows whose title contains `title_contains` (all rows where it is `None`),
    /// most recently updated first; of these, page number `page`, counted from zero,
    /// with `items_per_page` rows to a page.
    SelectPage { title_contains: Option<String>, items_per_page: usize, page: usize },
    /// The row with this key, if there is one.
    SelectById { key: i32 },
    /// A new row with these values; the store chooses the key and the times.
    Insert { title: String, description: String, done: bool },
    /// Write `changes` to the row with this key; the store renews the time of the last update.
    Update { key: i32, changes: TodoPatch },
    /// Remove the row with this key.
    Delete { key: i32 },
    /// Open a transaction.
    Begin,
    /// Commit the open transaction.
    Commit,
}

/// In what way the store failed.
#[derive(Debug, Clone, Copy, PartialEq, Eq)]
pub enum StoreFailure {
    /// The store refused a write because the title is already taken by another row,
    /// and for no other reason.
    TitleTaken,
    /// Anything else: a statement refused on other grounds, no connection, a fault
    /// while executing, a value it could not convert.
    Other,
}

/// The store's answer to one request.
#[derive(Debug, PartialEq)]
pub enum StoreReply {
    Page(Vec<Model>),
    Row(Option<Model>),
    Inserted { last_insert_id: i32 },
    Updated,
    Deleted,
    Begun,
    Committed,
    Failed(StoreFailure),
}

/// [`TodoPatch`] as a mathematical value.
pub struct TodoPatchView {
    pub title: Option<Seq<char>>,
    pub description: Option<Seq<char>>,
    pub done: Option<bool>,
}

/// [`StoreRequest`] as a mathematical value.
pub enum StoreRequestView {
    SelectPage { title_contains: Option<Seq<char>>, items_per_page: usize, page: usize },
    SelectById { key: i32 },
    Insert { title: Seq<char>, description: Seq<char>, done: bool },
    Update { key: i32, changes: TodoPatchView },
    Delete { key: i32 },
    Begin,
    Commit,
}

/// [`StoreReply`] as a mathematical value.
pub enum StoreReplyView {
    Page(Seq<Todo>),
    Row(Option<Todo>),
    Inserted { last_insert_id: i32 },
    Updated,
    Deleted,
    Begun,
    Committed,
    Failed(StoreFailure),
}

impl View for TodoPatch {
    type V = TodoPatchView;

    open spec fn view(&self) -> TodoPatchView {
        TodoPatchView {
            title: optional_text(self.title),
            description: optional_text(self.description),
            done: self.done,
        }
    }
}

impl View for StoreRequest {
    type V = StoreRequestView;

    open spec fn view(&self) -> StoreRequestView {
        match self {
            StoreRequest::SelectPage { title_contains, items_per_page, page } => {
                StoreRequestView::SelectPage {
                    title_contains: optional_text(*title_contains),
                    items_per_page: *items_per_page,
                    page: *page,
                }
            },
            StoreRequest::SelectById { key } => StoreRequestView::SelectById { key: *key },
            StoreRequest::Insert { title, description, done } => StoreRequestView::Insert {
                title: title@,
                description: description@,
                done: *done,
            },
            StoreRequest::Update { key, changes } => StoreRequestView::Update {
                key: *key,
                changes: changes@,
            },
            StoreRequest::Delete { key } => StoreRequestView::Delete { key: *key },
            StoreRequest::Begin => StoreRequestView::Begin,
            StoreRequest::Commit => StoreRequestView::Commit,
        }
    }
}

impl View for StoreReply {
    type V = StoreReplyView;

    open spec fn view(&self) -> StoreReplyView {
        match self {
            StoreReply::Page(rows) => StoreReplyView::Page(todos(rows@)),
            StoreReply::Row(row) => StoreReplyView::Row(optional_todo(*row)),
            StoreReply::Inserted { last_insert_id } => StoreReplyView::Inserted {
                last_insert_id: *last_insert_id,
            },
            StoreReply::Updated => StoreReplyView::Updated,
            StoreReply::Deleted => StoreReplyView::Deleted,
            StoreReply::Begun => StoreReplyView::Begun,
            StoreReply::Committed => StoreReplyView::Committed,
            StoreReply::Failed(failure) => StoreReplyView::Failed(*failure),
        }
    }
}

impl TodoPatchView {
    /// The row that `row` becomes when the changes are written to it: each field that
    /// the patch holds replaces the row's, every other field stays. The key and the
    /// two times are never part of a patch.
    pub open spec fn applied_to(self, row: Todo) -> Todo {
        Todo {
            id: row.id,
            title: match self.title {
                Some(title) => title,
                None => row.title,
            },
            description: match self.description {
                Some(description) => description,
                None => row.description,
            },
            done: match self.done {
                Some(done) => done,
                None => row.done,
            },
            created_at: row.created_at,
            updated_at: row.updated_at,
        }
    }
}

} // verus!
