//! The operations on todos, each as a conversation with the store.
//!
//! An operation starts with a function of this module, which returns the first
//! [`Step`]. A step either asks the store something, and then [`Pending::resume`]
//! takes the store's reply and returns the next step, or it finishes with the
//! outcome. No step performs I/O.

use crate::errors::{CustomError, CustomErrorView};
use crate::responses::{CustomResponse, CustomResponseView};
use crate::store::{
    StoreFailure, StoreReply, StoreReplyView, StoreRequest, StoreRequestView, TodoPatch,
    TodoPatchView,
};
use crate::text::optional_text;
use crate::todo::{todos, Model, Todo};
use vstd::prelude::*;

verus! {

/// Rows to a page where the caller names no number.
pub const DEFAULT_ITEMS_PER_PAGE: usize = 10;

/// The page where the caller names none.
pub const DEFAULT_PAGE: usize = 0;

/// What an operation hands back when it has succeeded.
#[derive(Debug, PartialEq)]
pub enum Success {
    /// One page of rows, in the order in which the store gave them.
    Todos(Vec<Model>),
    /// The row that was asked for.
    Todo(Model),
    /// The report of a write.
    Written(CustomResponse),
}

/// What an operation still has in mind while the store answers.
#[derive(Debug, PartialEq)]
pub enum Pending {
    /// A page of rows was asked for.
    Page,
    /// One row was asked for.
    Row,
    /// A row is being inserted.
    Insert,
    /// The row to update is being looked up.
    UpdateLookup { id: usize, changes: TodoPatch },
    /// The changes are being written.
    UpdateWrite { id: usize },
    /// The row to delete is being looked up.
    DeleteLookup { id: usize },
    /// The row is being deleted.
    DeleteWrite { id: usize },
    /// The transaction of a bulk delete is being opened.
    BulkBegin { ids: Vec<usize> },
    /// A row of a bulk delete is being looked up; `next` of the keys have been looked up
    /// so far, this one included.
    BulkLookup { ids: Vec<usize>, next: usize },
    /// A row of a bulk delete is being deleted; `next` of the keys have been looked up so far.
    BulkDelete { ids: Vec<usize>, next: usize },
    /// The transaction of a bulk delete is being committed.
    BulkCommit { ids: Vec<usize> },
}

/// One step of an operation.
#[derive(Debug, PartialEq)]
pub enum Step {
    /// Put `request` to the store and resume `pending` with the reply.
    Ask { pending: Pending, request: StoreRequest },
    /// The operation is over; a transaction that is still open is to be rolled back.
    Finish(Result<Success, CustomError>),
}

/// [`Success`] as a mathematical value.
pub enum SuccessView {
    Todos(Seq<Todo>),
    Todo(Todo),
    Written(CustomResponseView),
}

/// [`Pending`] as a mathematical value.
pub enum PendingView {
    Page,
    Row,
    Insert,
    UpdateLookup { id: usize, changes: TodoPatchView },
    UpdateWrite { id: usize },
    DeleteLookup { id: usize },
    DeleteWrite { id: usize },
    BulkBegin { ids: Seq<usize> },
    BulkLookup { ids: Seq<usize>, next: nat },
    BulkDelete { ids: Seq<usize>, next: nat },
    BulkCommit { ids: Seq<usize> },
}

/// [`Step`] as a mathematical value.
pub enum StepView {
    Ask { pending: PendingView, request: StoreRequestView },
    Finish(Result<SuccessView, CustomErrorView>),
}

impl View for Success {
    type V = SuccessView;

    open spec fn view(&self) -> SuccessView {
        match self {
            Success::Todos(rows) => SuccessView::Todos(todos(rows@)),
            Success::Todo(row) => SuccessView::Todo(row@),
            Success::Written(response) => SuccessView::Written(response@),
        }
    }
}

impl View for Pending {
    type V = PendingView;

    open spec fn view(&self) -> PendingView {
        match self {
            Pending::Page => PendingView::Page,
            Pending::Row => PendingView::Row,
            Pending::Insert => PendingView::Insert,
            Pending::UpdateLookup { id, changes } => PendingView::UpdateLookup {
                id: *id,
                changes: changes@,
            },
            Pending::UpdateWrite { id } => PendingView::UpdateWrite { id: *id },
            Pending::DeleteLookup { id } => PendingView::DeleteLookup { id: *id },
            Pending::DeleteWrite { id } => PendingView::DeleteWrite { id: *id },
            Pending::BulkBegin { ids } => PendingView::BulkBegin { ids: ids@ },
            Pending::BulkLookup { ids, next } => PendingView::BulkLookup {
                ids: ids@,
                next: *next as nat,
            },
            Pending::BulkDelete { ids, next } => PendingView::BulkDelete {
                ids: ids@,
                next: *next as nat,
            },
            Pending::BulkCommit { ids } => PendingView::BulkCommit { ids: ids@ },
        }
    }
}

/// The view of an outcome.
pub open spec fn outcome_view(outcome: Result<Success, CustomError>) -> Result<
    SuccessView,
    CustomErrorView,
> {
    match outcome {
        Ok(success) => Ok(success@),
        Err(error) => Err(error@),
    }
}

impl View for Step {
    type V = StepView;

    open spec fn view(&self) -> StepView {
        match self {
            Step::Ask { pending, request } => StepView::Ask {
                pending: pending@,
                request: request@,
            },
            Step::Finish(outcome) => StepView::Finish(outcome_view(*outcome)),
        }
    }
}

/// The step that ends an operation with `error`.
pub open spec fn failed(error: CustomErrorView) -> StepView {
    StepView::Finish(Err(error))
}

/// The step that ends an operation with the report of a write.
pub open spec fn written(response: CustomResponseView) -> StepView {
    StepView::Finish(Ok(SuccessView::Written(response)))
}

/// The key under which the store keeps the row that the service calls `id`. The
/// store's keys are 32-bit numbers: an `id` beyond them is the key of no row.
pub open spec fn key_of(id: usize) -> Option<i32> {
    if id <= i32::MAX {
        Some(id as i32)
    } else {
        None
    }
}

/// The id that the service reports for the row that the store keeps under `key`: the
/// key itself, or for a negative key the number that its bits denote when they are
/// extended to the width of an id and read without a sign.
pub open spec fn id_of(key: i32) -> usize {
    if key >= 0 {
        key as usize
    } else {
        (usize::MAX + 1 + key) as usize
    }
}

/// How listing todos starts: it asks for one page of the rows whose title contains
/// `query_string`, ten rows to a page and the first page where the caller names none.
pub open spec fn find_todos_step(
    query_string: Option<Seq<char>>,
    items_per_page: Option<usize>,
    page_num: Option<usize>,
) -> StepView {
    StepView::Ask {
        pending: PendingView::Page,
        request: StoreRequestView::SelectPage {
            title_contains: query_string,
            items_per_page: match items_per_page {
                Some(n) => n,
                None => DEFAULT_ITEMS_PER_PAGE,
            },
            page: match page_num {
                Some(p) => p,
                None => DEFAULT_PAGE,
            },
        },
    }
}

/// How a lookup by key starts: it asks for the row, or finds at once that no row can
/// have that key.
pub open spec fn lookup_step(id: usize, pending: PendingView) -> StepView {
    match key_of(id) {
        Some(key) => StepView::Ask { pending, request: StoreRequestView::SelectById { key } },
        None => failed(CustomErrorView::NotFound),
    }
}

/// How fetching one todo starts.
pub open spec fn find_todo_by_id_step(id: usize) -> StepView {
    lookup_step(id, PendingView::Row)
}

/// How creating a todo starts: it asks the store to insert the row.
pub open spec fn insert_todo_step(title: Seq<char>, description: Seq<char>, done: bool) -> StepView {
    StepView::Ask {
        pending: PendingView::Insert,
        request: StoreRequestView::Insert { title, description, done },
    }
}

/// How updating a todo starts: it looks the row up and keeps the changes in mind.
pub open spec fn update_todo_by_id_step(id: usize, changes: TodoPatchView) -> StepView {
    lookup_step(id, PendingView::UpdateLookup { id, changes })
}

/// How deleting a todo starts: it looks the row up.
pub open spec fn delete_todo_by_id_step(id: usize) -> StepView {
    lookup_step(id, PendingView::DeleteLookup { id })
}

/// How deleting several todos starts: it opens a transaction.
pub open spec fn bulk_delete_todos_by_ids_step(ids: Seq<usize>) -> StepView {
    StepView::Ask { pending: PendingView::BulkBegin { ids }, request: StoreRequestView::Begin }
}

/// How a bulk delete goes on when `next` of its keys are dealt with: it looks up the
/// next key, or commits when none is left.
pub open spec fn bulk_step(ids: Seq<usize>, next: nat) -> StepView {
    if next < ids.len() {
        lookup_step(ids[next as int], PendingView::BulkLookup { ids, next: next + 1 })
    } else {
        StepView::Ask { pending: PendingView::BulkCommit { ids }, request: StoreRequestView::Commit }
    }
}

impl PendingView {
    /// The step that follows when the store has answered `reply`.
    ///
    /// A reply that reports a failure, or that does not answer what was asked, ends
    /// the operation with a server error; only an insert that the store refused
    /// because the title is taken ends with a conflict. A lookup that finds no row ends the operation
    /// with `NotFound`. An update and a delete write to the row that the lookup found.
    pub open spec fn resume(self, reply: StoreReplyView) -> StepView {
        match self {
            PendingView::Page => match reply {
                StoreReplyView::Page(rows) => StepView::Finish(Ok(SuccessView::Todos(rows))),
                _ => failed(CustomErrorView::ServerError),
            },
            PendingView::Row => match reply {
                StoreReplyView::Row(Some(row)) => StepView::Finish(Ok(SuccessView::Todo(row))),
                StoreReplyView::Row(None) => failed(CustomErrorView::NotFound),
                _ => failed(CustomErrorView::ServerError),
            },
            PendingView::Insert => match reply {
                StoreReplyView::Inserted { last_insert_id } => written(
                    CustomResponseView::Created { id: id_of(last_insert_id) },
                ),
                StoreReplyView::Failed(StoreFailure::TitleTaken) => failed(CustomErrorView::Conflict),
                _ => failed(CustomErrorView::ServerError),
            },
            PendingView::UpdateLookup { id, changes } => match reply {
                StoreReplyView::Row(Some(row)) => StepView::Ask {
                    pending: PendingView::UpdateWrite { id },
                    request: StoreRequestView::Update { key: row.id, changes },
                },
                StoreReplyView::Row(None) => failed(CustomErrorView::NotFound),
                _ => failed(CustomErrorView::ServerError),
            },
            PendingView::UpdateWrite { id } => match reply {
                StoreReplyView::Updated => written(CustomResponseView::Updated { id }),
                _ => failed(CustomErrorView::ServerError),
            },
            PendingView::DeleteLookup { id } => match reply {
                StoreReplyView::Row(Some(row)) => StepView::Ask {
                    pending: PendingView::DeleteWrite { id },
                    request: StoreRequestView::Delete { key: row.id },
                },
                StoreReplyView::Row(None) => failed(CustomErrorView::NotFound),
                _ => failed(CustomErrorView::ServerError),
            },
            PendingView::DeleteWrite { id } => match reply {
                StoreReplyView::Deleted => written(CustomResponseView::Deleted { id }),
                _ => failed(CustomErrorView::ServerError),
            },
            PendingView::BulkBegin { ids } => match reply {
                StoreReplyView::Begun => bulk_step(ids, 0),
                _ => failed(CustomErrorView::ServerError),
            },
            PendingView::BulkLookup { ids, next } => match reply {
                StoreReplyView::Row(Some(row)) => StepView::Ask {
                    pending: PendingView::BulkDelete { ids, next },
                    request: StoreRequestView::Delete { key: row.id },
                },
                StoreReplyView::Row(None) => failed(CustomErrorView::NotFound),
                _ => failed(CustomErrorView::ServerError),
            },
            PendingView::BulkDelete { ids, next } => match reply {
                StoreReplyView::Deleted => bulk_step(ids, next),
                _ => failed(CustomErrorView::ServerError),
            },
            PendingView::BulkCommit { ids } => match reply {
                StoreReplyView::Committed => written(CustomResponseView::BulkDeleted { ids }),
                _ => failed(CustomErrorView::ServerError),
            },
        }
    }

    /// How many requests the operation can still make once the pending one is answered.
    pub open spec fn requests_left(self) -> nat {
        match self {
            PendingView::UpdateLookup { .. } => 1,
            PendingView::DeleteLookup { .. } => 1,
            PendingView::BulkBegin { ids } => 2 * ids.len() + 1,
            PendingView::BulkLookup { ids, next } => if next <= ids.len() {
                (2 * (ids.len() - next) + 2) as nat
            } else {
                2
            },
            PendingView::BulkDelete { ids, next } => if next <= ids.len() {
                (2 * (ids.len() - next) + 1) as nat
            } else {
                1
            },
            _ => 0,
        }
    }
}

impl StepView {
    /// How many requests the operation can still make, the one of this step included.
    pub open spec fn requests_left(self) -> nat {
        match self {
            StepView::Ask { pending, .. } => 1 + pending.requests_left(),
            StepView::Finish(_) => 0,
        }
    }
}

/// Every reply brings an operation nearer to its end: it finishes after at most
/// two requests, or two for each key of a bulk delete and two more.
pub proof fn lemma_resume_progresses(pending: PendingView, reply: StoreReplyView)
    ensures
        pending.resume(reply).requests_left() <= pending.requests_left(),
{
}

/// A failure of the store ends the operation at once, with no further request: with
/// a conflict where an insert was refused because the title is taken, with a server
/// error in every other case.
pub proof fn lemma_failure_ends_operation(pending: PendingView, failure: StoreFailure)
    ensures
        pending.resume(StoreReplyView::Failed(failure)) == if pending is Insert
            && failure is TitleTaken {
            failed(CustomErrorView::Conflict)
        } else {
            failed(CustomErrorView::ServerError)
        },
        pending.resume(StoreReplyView::Failed(failure)).requests_left() == 0,
{
}

/// The key of the row `id`, if a row can have it.
fn store_key(id: usize) -> (r: Option<i32>)
    ensures
        r == key_of(id),
{
    if id <= 0x7fff_ffff {
        Some(id as i32)
    } else {
        None
    }
}

/// The id that is reported for the row under `key`.
fn reported_id(key: i32) -> (r: usize)
    ensures
        r == id_of(key),
{
    if key >= 0 {
        key as usize
    } else {
        usize::MAX - ((-(key + 1)) as usize)
    }
}

/// Starts a lookup of the row `id`.
fn lookup(id: usize, pending: Pending) -> (step: Step)
    ensures
        step@ == lookup_step(id, pending@),
{
    match store_key(id) {
        Some(key) => Step::Ask { pending, request: StoreRequest::SelectById { key } },
        None => Step::Finish(Err(CustomError::NotFound)),
    }
}

/// Goes on with a bulk delete of which `next` keys are dealt with.
fn bulk(ids: Vec<usize>, next: usize) -> (step: Step)
    ensures
        step@ == bulk_step(ids@, next as nat),
{
    if next < ids.len() {
        let id = ids[next];
        lookup(id, Pending::BulkLookup { ids, next: next + 1 })
    } else {
        Step::Ask { pending: Pending::BulkCommit { ids }, request: StoreRequest::Commit }
    }
}

/// Lists todos, most recently updated first: one page of those whose title contains
/// `query_string`, or of all where there is none.
pub fn find_todos(
    query_string: Option<String>,
    items_per_page: Option<usize>,
    page_num: Option<usize>,
) -> (step: Step)
    ensures
        step@ == find_todos_step(optional_text(query_string), items_per_page, page_num),
{
    let items_per_page = match items_per_page {
        Some(n) => n,
        None => DEFAULT_ITEMS_PER_PAGE,
    };
    let page = match page_num {
        Some(p) => p,
        None => DEFAULT_PAGE,
    };
    Step::Ask {
        pending: Pending::Page,
        request: StoreRequest::SelectPage { title_contains: query_string, items_per_page, page },
    }
}

/// Fetches the todo `id`.
pub fn find_todo_by_id(id: usize) -> (step: Step)
    ensures
        step@ == find_todo_by_id_step(id),
{
    lookup(id, Pending::Row)
}

/// Creates a todo.
pub fn insert_todo(title: String, description: String, done: bool) -> (step: Step)
    ensures
        step@ == insert_todo_step(title@, description@, done),
{
    Step::Ask { pending: Pending::Insert, request: StoreRequest::Insert { title, description, done } }
}

/// Updates the todo `id`: of the three fields, those that are given are written.
pub fn update_todo_by_id(
    id: usize,
    title: Option<String>,
    description: Option<String>,
    done: Option<bool>,
) -> (step: Step)
    ensures
        step@ == update_todo_by_id_step(
            id,
            TodoPatchView {
                title: optional_text(title),
                description: optional_text(description),
                done,
            },
        ),
{
    lookup(id, Pending::UpdateLookup { id, changes: TodoPatch { title, description, done } })
}

/// Deletes the todo `id`.
pub fn delete_todo_by_id(id: usize) -> (step: Step)
    ensures
        step@ == delete_todo_by_id_step(id),
{
    lookup(id, Pending::DeleteLookup { id })
}

/// Deletes the todos `ids`, in that order and in one transaction: all of them or none.
pub fn bulk_delete_todos_by_ids(ids: Vec<usize>) -> (step: Step)
    ensures
        step@ == bulk_delete_todos_by_ids_step(ids@),
{
    Step::Ask { pending: Pending::BulkBegin { ids }, request: StoreRequest::Begin }
}

impl Pending {
    /// Takes the store's reply to the pending request and returns the next step.
    pub fn resume(self, reply: StoreReply) -> (step: Step)
        ensures
            step@ == self@.resume(reply@),
    {
        match self {
            Pending::Page => match reply {
                StoreReply::Page(rows) => Step::Finish(Ok(Success::Todos(rows))),
                _ => Step::Finish(Err(CustomError::ServerError)),
            },
            Pending::Row => match reply {
                StoreReply::Row(Some(row)) => Step::Finish(Ok(Success::Todo(row))),
                StoreReply::Row(None) => Step::Finish(Err(CustomError::NotFound)),
                _ => Step::Finish(Err(CustomError::ServerError)),
            },
            Pending::Insert => match reply {
                StoreReply::Inserted { last_insert_id } => Step::Finish(
                    Ok(Success::Written(CustomResponse::Created { id: reported_id(last_insert_id) })),
                ),
                StoreReply::Failed(StoreFailure::TitleTaken) => Step::Finish(Err(CustomError::Conflict)),
                _ => Step::Finish(Err(CustomError::ServerError)),
            },
            Pending::UpdateLookup { id, changes } => match reply {
                StoreReply::Row(Some(row)) => Step::Ask {
                    pending: Pending::UpdateWrite { id },
                    request: StoreRequest::Update { key: row.id, changes },
                },
                StoreReply::Row(None) => Step::Finish(Err(CustomError::NotFound)),
                _ => Step::Finish(Err(CustomError::ServerError)),
            },
            Pending::UpdateWrite { id } => match reply {
                StoreReply::Updated => Step::Finish(
                    Ok(Success::Written(CustomResponse::Updated { id })),
                ),
                _ => Step::Finish(Err(CustomError::ServerError)),
            },
            Pending::DeleteLookup { id } => match reply {
                StoreReply::Row(Some(row)) => Step::Ask {
                    pending: Pending::DeleteWrite { id },
                    request: StoreRequest::Delete { key: row.id },
                },
                StoreReply::Row(None) => Step::Finish(Err(CustomError::NotFound)),
                _ => Step::Finish(Err(CustomError::ServerError)),
            },
            Pending::DeleteWrite { id } => match reply {
                StoreReply::Deleted => Step::Finish(
                    Ok(Success::Written(CustomResponse::Deleted { id })),
                ),
                _ => Step::Finish(Err(CustomError::ServerError)),
            },
            Pending::BulkBegin { ids } => match reply {
                StoreReply::Begun => bulk(ids, 0),
                _ => Step::Finish(Err(CustomError::ServerError)),
            },
            Pending::BulkLookup { ids, next } => match reply {
                StoreReply::Row(Some(row)) => Step::Ask {
                    pending: Pending::BulkDelete { ids, next },
                    request: StoreRequest::Delete { key: row.id },
                },
                StoreReply::Row(None) => Step::Finish(Err(CustomError::NotFound)),
                _ => Step::Finish(Err(CustomError::ServerError)),
            },
            Pending::BulkDelete { ids, next } => match reply {
                StoreReply::Deleted => bulk(ids, next),
                _ => Step::Finish(Err(CustomError::ServerError)),
            },
            Pending::BulkCommit { ids } => match reply {
                StoreReply::Committed => Step::Finish(
                    Ok(Success::Written(CustomResponse::BulkDeleted { ids })),
                ),
                _ => Step::Finish(Err(CustomError::ServerError)),
            },
        }
    }
}

} // verus!
