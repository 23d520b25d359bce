//! The routes of the service: what each starts, and the response that reports
//! how it ended.

use crate::dtos::{CreateTodoDto, CreateTodoDtoView, UpdateTodoDto, UpdateTodoDtoView};
use crate::errors::{CustomError, CustomErrorView};
use crate::http::{Body, BodyView, HttpReply, HttpReplyView, OK};
use crate::service::{
    bulk_delete_todos_by_ids, bulk_delete_todos_by_ids_step, delete_todo_by_id,
    delete_todo_by_id_step, failed, find_todo_by_id, find_todo_by_id_step, find_todos,
    find_todos_step, insert_todo, insert_todo_step, outcome_view, update_todo_by_id,
    update_todo_by_id_step, Step, StepView, Success, SuccessView,
};
use crate::store::TodoPatchView;
use crate::text::optional_text;
use vstd::prelude::*;

verus! {

/// The query of the route that lists todos.
#[derive(Debug, PartialEq)]
pub struct GetTodosQuery {
    pub query_string: Option<String>,
    pub page: Option<usize>,
    pub items_per_page: Option<usize>,
}

/// [`GetTodosQuery`] as a mathematical value.
pub struct GetTodosQueryView {
    pub query_string: Option<Seq<char>>,
    pub page: Option<usize>,
    pub items_per_page: Option<usize>,
}

impl View for GetTodosQuery {
    type V = GetTodosQueryView;

    open spec fn view(&self) -> GetTodosQueryView {
        GetTodosQueryView {
            query_string: optional_text(self.query_string),
            page: self.page,
            items_per_page: self.items_per_page,
        }
    }
}

/// The response to a health check: 200 and nothing else.
pub open spec fn health_reply() -> HttpReplyView {
    HttpReplyView { status: OK, body: BodyView::Empty }
}

/// How `GET /todos` starts.
pub open spec fn get_list_of_todos_step(query: GetTodosQueryView) -> StepView {
    find_todos_step(query.query_string, query.items_per_page, query.page)
}

/// How `POST /todos` starts: a payload that violates a constraint is turned down
/// before the store is asked anything; any other is inserted.
pub open spec fn create_todo_step(dto: CreateTodoDtoView) -> StepView {
    match dto.validate() {
        Err(e) => failed(CustomErrorView::ValidationError { e }),
        Ok(()) => insert_todo_step(dto.title, dto.description, dto.done),
    }
}

/// How `PUT /todos/{id}` starts: a payload that violates a constraint is turned down
/// before the store is asked anything; any other is written to the row `id`.
pub open spec fn update_todo_step(id: usize, dto: UpdateTodoDtoView) -> StepView {
    match dto.validate() {
        Err(e) => failed(CustomErrorView::ValidationError { e }),
        Ok(()) => update_todo_by_id_step(
            id,
            TodoPatchView { title: dto.title, description: dto.description, done: dto.done },
        ),
    }
}

/// The response that reports an outcome: rows go out with 200 as they are, the
/// report of a write and an error each with their own status and body.
pub open spec fn reply_of(outcome: Result<SuccessView, CustomErrorView>) -> HttpReplyView {
    match outcome {
        Ok(SuccessView::Todos(rows)) => HttpReplyView { status: OK, body: BodyView::Todos(rows) },
        Ok(SuccessView::Todo(row)) => HttpReplyView { status: OK, body: BodyView::Todo(row) },
        Ok(SuccessView::Written(response)) => response.reply(),
        Err(error) => error.reply(),
    }
}

/// `GET /health_check`.
pub fn health_check() -> (r: HttpReply)
    ensures
        r@ == health_reply(),
{
    HttpReply { status: OK, body: Body::Empty }
}

/// `GET /todos`: lists todos.
pub fn get_list_of_todos(query: GetTodosQuery) -> (step: Step)
    ensures
        step@ == get_list_of_todos_step(query@),
{
    find_todos(query.query_string, query.items_per_page, query.page)
}

/// `GET /todos/{id}`: fetches one todo.
pub fn get_todo(id: usize) -> (step: Step)
    ensures
        step@ == find_todo_by_id_step(id),
{
    find_todo_by_id(id)
}

/// `POST /todos`: validates the payload, then creates the todo.
pub fn create_todo(create_todo_dto: CreateTodoDto) -> (step: Step)
    ensures
        step@ == create_todo_step(create_todo_dto@),
{
    match create_todo_dto.validate() {
        Err(e) => Step::Finish(Err(CustomError::ValidationError { e })),
        Ok(()) => insert_todo(
            create_todo_dto.title,
            create_todo_dto.description,
            create_todo_dto.done,
        ),
    }
}

/// `PUT /todos/{id}`: validates the payload, then updates the todo.
pub fn update_todo(id: usize, update_todo_dto: UpdateTodoDto) -> (step: Step)
    ensures
        step@ == update_todo_step(id, update_todo_dto@),
{
    match update_todo_dto.validate() {
        Err(e) => Step::Finish(Err(CustomError::ValidationError { e })),
        Ok(()) => update_todo_by_id(
            id,
            update_todo_dto.title,
            update_todo_dto.description,
            update_todo_dto.done,
        ),
    }
}

/// `DELETE /todos/{id}`: deletes one todo.
pub fn delete_todo(id: usize) -> (step: Step)
    ensures
        step@ == delete_todo_by_id_step(id),
{
    delete_todo_by_id(id)
}

/// `DELETE /todos`: deletes the todos listed, all or none.
pub fn bulk_delete_todos(ids: Vec<usize>) -> (step: Step)
    ensures
        step@ == bulk_delete_todos_by_ids_step(ids@),
{
    bulk_delete_todos_by_ids(ids)
}

/// The response that reports how an operation ended.
pub fn respond(outcome: Result<Success, CustomError>) -> (r: HttpReply)
    ensures
        r@ == reply_of(outcome_view(outcome)),
{
    match outcome {
        Ok(Success::Todos(rows)) => HttpReply { status: OK, body: Body::Todos(rows) },
        Ok(Success::Todo(row)) => HttpReply { status: OK, body: Body::Todo(row) },
        Ok(Success::Written(response)) => response.respond_to(),
        Err(error) => error.error_response(),
    }
}

} // verus!
