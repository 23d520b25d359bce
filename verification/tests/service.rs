use chrono::{FixedOffset, TimeZone};
use todo_service::errors::CustomError;
use todo_service::responses::CustomResponse;
use todo_service::service::{
    bulk_delete_todos_by_ids, delete_todo_by_id, find_todo_by_id, find_todos, insert_todo,
    update_todo_by_id, Pending, Step, Success,
};
use todo_service::store::{StoreFailure, StoreReply, StoreRequest, TodoPatch};
use todo_service::todo::{Model, Timestamp};

fn midnight(year: i32, month: u32, day: u32) -> Timestamp {
    let datetime = FixedOffset::east_opt(0)
        .unwrap()
        .with_ymd_and_hms(year, month, day, 0, 0, 0)
        .unwrap();
    Timestamp {
        seconds: datetime.timestamp(),
        nanos: datetime.timestamp_subsec_nanos(),
        offset_seconds: datetime.offset().local_minus_utc(),
    }
}

fn todo(id: i32, title: &str, description: &str, done: bool) -> Model {
    let datetime = midnight(2016, 11, 08);
    Model {
        id,
        title: title.to_owned(),
        description: description.to_owned(),
        done,
        created_at: datetime,
        updated_at: datetime,
    }
}

/// Takes a step that asks, checks the request, and resumes with the reply.
fn answer(step: Step, expected: StoreRequest, reply: StoreReply) -> Step {
    match step {
        Step::Ask { pending, request } => {
            assert_eq!(request, expected);
            pending.resume(reply)
        }
        Step::Finish(outcome) => panic!("finished early with {:?}", outcome),
    }
}

fn select_page(title_contains: Option<&str>, items_per_page: usize, page: usize) -> StoreRequest {
    StoreRequest::SelectPage {
        title_contains: title_contains.map(|s| s.to_owned()),
        items_per_page,
        page,
    }
}

#[test]
fn test_find_todos() {
    // testing find_todos with no query string
    let first = vec![
        todo(1, "Todo 1", "Todo 1 description", false),
        todo(2, "Todo 2", "Todo 2 description", true),
    ];
    let step = answer(
        find_todos(None, None, None),
        select_page(None, 10, 0),
        StoreReply::Page(first.clone()),
    );
    assert_eq!(
        step,
        Step::Finish(Ok(Success::Todos(vec![
            todo(1, "Todo 1", "Todo 1 description", false),
            todo(2, "Todo 2", "Todo 2 description", true),
        ])))
    );

    // testing find_todos with query string
    let second = vec![
        todo(1, "Apple pie", "description", false),
        todo(3, "Apple pizza", "description", false),
    ];
    let step = answer(
        find_todos(Some("Apple".to_owned()), None, None),
        select_page(Some("Apple"), 10, 0),
        StoreReply::Page(second.clone()),
    );
    assert_eq!(step, Step::Finish(Ok(Success::Todos(second))));

    // testing find_todos with query string and pagination
    let third = vec![todo(1, "Apple pie", "description", false)];
    let step = answer(
        find_todos(Some("Apple".to_owned()), Some(5), Some(1)),
        select_page(Some("Apple"), 5, 1),
        StoreReply::Page(third.clone()),
    );
    assert_eq!(step, Step::Finish(Ok(Success::Todos(third))));
}

#[test]
fn test_find_todo_by_id() {
    // testing find_todo_by_id with existing id
    let step = answer(
        find_todo_by_id(1),
        StoreRequest::SelectById { key: 1 },
        StoreReply::Row(Some(todo(1, "Todo 1", "Todo 1 description", false))),
    );
    assert_eq!(
        step,
        Step::Finish(Ok(Success::Todo(todo(1, "Todo 1", "Todo 1 description", false))))
    );

    // testing find_todo_by_id with non-existing id
    let step = answer(
        find_todo_by_id(2),
        StoreRequest::SelectById { key: 2 },
        StoreReply::Row(None),
    );
    assert_eq!(step, Step::Finish(Err(CustomError::NotFound)));
}

#[test]
fn test_insert_todo() {
    let title = "Test Title";
    let description = "Test Description";
    let done = false;

    let step = answer(
        insert_todo(title.to_owned(), description.to_owned(), done),
        StoreRequest::Insert {
            title: title.to_owned(),
            description: description.to_owned(),
            done,
        },
        StoreReply::Inserted { last_insert_id: 15 },
    );
    assert_eq!(
        step,
        Step::Finish(Ok(Success::Written(CustomResponse::Created { id: 15 })))
    );
}

#[test]
fn test_update_todo_by_id() {
    let id = 1;
    let old_title = "Old Title";
    let title = "Test Title";
    let description = "Test Description";
    let done = false;

    // testing update_todo_by_id with existing id
    let step = answer(
        update_todo_by_id(
            id.try_into().unwrap(),
            Some(title.to_owned()),
            Some(description.to_owned()),
            Some(done),
        ),
        StoreRequest::SelectById { key: id },
        StoreReply::Row(Some(todo(id, old_title, description, done))),
    );
    let step = answer(
        step,
        StoreRequest::Update {
            key: id,
            changes: TodoPatch {
                title: Some(title.to_owned()),
                description: Some(description.to_owned()),
                done: Some(done),
            },
        },
        StoreReply::Updated,
    );
    assert_eq!(
        step,
        Step::Finish(Ok(Success::Written(CustomResponse::Updated { id: 1 })))
    );

    // testing update_todo_by_id with non-existing id
    let step = answer(
        update_todo_by_id(
            2,
            Some(title.to_owned()),
            Some(description.to_owned()),
            Some(done),
        ),
        StoreRequest::SelectById { key: 2 },
        StoreReply::Row(None),
    );
    assert_eq!(step, Step::Finish(Err(CustomError::NotFound)));
}

#[test]
fn test_delete_todo_by_id() {
    let id = 1;

    // testing delete_todo_by_id with existing id
    let step = answer(
        delete_todo_by_id(id.try_into().unwrap()),
        StoreRequest::SelectById { key: id },
        StoreReply::Row(Some(todo(id, "Todo 1", "Todo 1 description", false))),
    );
    let step = answer(step, StoreRequest::Delete { key: id }, StoreReply::Deleted);
    assert_eq!(
        step,
        Step::Finish(Ok(Success::Written(CustomResponse::Deleted { id: 1 })))
    );

    // testing delete_todo_by_id with non-existing id
    let step = answer(
        delete_todo_by_id(2),
        StoreRequest::SelectById { key: 2 },
        StoreReply::Row(None),
    );
    assert_eq!(step, Step::Finish(Err(CustomError::NotFound)));
}

#[test]
fn test_bulk_delete_todos() {
    let step = answer(
        bulk_delete_todos_by_ids(vec![1, 2, 3]),
        StoreRequest::Begin,
        StoreReply::Begun,
    );
    let step = answer(
        step,
        StoreRequest::SelectById { key: 1 },
        StoreReply::Row(Some(todo(1, "test1", "test1", false))),
    );
    let step = answer(step, StoreRequest::Delete { key: 1 }, StoreReply::Deleted);
    let step = answer(
        step,
        StoreRequest::SelectById { key: 2 },
        StoreReply::Row(Some(todo(2, "test2", "test2", false))),
    );
    let step = answer(step, StoreRequest::Delete { key: 2 }, StoreReply::Deleted);
    let step = answer(
        step,
        StoreRequest::SelectById { key: 3 },
        StoreReply::Row(Some(todo(3, "test3", "test3", false))),
    );
    let step = answer(step, StoreRequest::Delete { key: 3 }, StoreReply::Deleted);
    let step = answer(step, StoreRequest::Commit, StoreReply::Committed);
    assert_eq!(
        step,
        Step::Finish(Ok(Success::Written(CustomResponse::BulkDeleted {
            ids: vec![1, 2, 3]
        })))
    );
}

#[test]
fn bulk_delete_stops_at_the_first_missing_row_without_committing() {
    let step = answer(
        bulk_delete_todos_by_ids(vec![1, 999, 3]),
        StoreRequest::Begin,
        StoreReply::Begun,
    );
    let step = answer(
        step,
        StoreRequest::SelectById { key: 1 },
        StoreReply::Row(Some(todo(1, "test1", "test1", false))),
    );
    let step = answer(step, StoreRequest::Delete { key: 1 }, StoreReply::Deleted);
    let step = answer(
        step,
        StoreRequest::SelectById { key: 999 },
        StoreReply::Row(None),
    );
    assert_eq!(step, Step::Finish(Err(CustomError::NotFound)));
}

#[test]
fn bulk_delete_of_nothing_commits_an_empty_transaction() {
    let step = answer(
        bulk_delete_todos_by_ids(vec![]),
        StoreRequest::Begin,
        StoreReply::Begun,
    );
    let step = answer(step, StoreRequest::Commit, StoreReply::Committed);
    assert_eq!(
        step,
        Step::Finish(Ok(Success::Written(CustomResponse::BulkDeleted { ids: vec![] })))
    );
}

#[test]
fn find_todos_defaults_to_ten_rows_and_the_first_page() {
    match find_todos(None, None, Some(3)) {
        Step::Ask { pending, request } => {
            assert_eq!(pending, Pending::Page);
            assert_eq!(request, select_page(None, 10, 3));
        }
        other => panic!("{:?}", other),
    }
    match find_todos(None, Some(25), None) {
        Step::Ask { request, .. } => assert_eq!(request, select_page(None, 25, 0)),
        other => panic!("{:?}", other),
    }
}

#[test]
fn an_id_beyond_the_keys_of_the_store_is_not_found_without_asking() {
    let beyond = i32::MAX as usize + 1;
    assert_eq!(find_todo_by_id(beyond), Step::Finish(Err(CustomError::NotFound)));
    assert_eq!(delete_todo_by_id(beyond), Step::Finish(Err(CustomError::NotFound)));
    assert_eq!(
        update_todo_by_id(beyond, None, None, Some(true)),
        Step::Finish(Err(CustomError::NotFound))
    );
    match find_todo_by_id(i32::MAX as usize) {
        Step::Ask { request, .. } => {
            assert_eq!(request, StoreRequest::SelectById { key: i32::MAX })
        }
        other => panic!("{:?}", other),
    }
    let step = answer(
        bulk_delete_todos_by_ids(vec![beyond]),
        StoreRequest::Begin,
        StoreReply::Begun,
    );
    assert_eq!(step, Step::Finish(Err(CustomError::NotFound)));
}

#[test]
fn an_insert_of_a_taken_title_is_a_conflict_and_any_other_failure_a_server_error() {
    let refused = Pending::Insert.resume(StoreReply::Failed(StoreFailure::TitleTaken));
    assert_eq!(refused, Step::Finish(Err(CustomError::Conflict)));
    let failed = Pending::Insert.resume(StoreReply::Failed(StoreFailure::Other));
    assert_eq!(failed, Step::Finish(Err(CustomError::ServerError)));
    let zero = Pending::Insert.resume(StoreReply::Inserted { last_insert_id: 0 });
    assert_eq!(
        zero,
        Step::Finish(Ok(Success::Written(CustomResponse::Created { id: 0 })))
    );
}

#[test]
fn the_key_of_a_new_row_is_reported_as_its_id() {
    for key in [1, 15, i32::MAX, 0, -1, -15, i32::MIN] {
        assert_eq!(
            Pending::Insert.resume(StoreReply::Inserted { last_insert_id: key }),
            Step::Finish(Ok(Success::Written(CustomResponse::Created { id: key as usize })))
        );
    }
    assert_eq!(
        Pending::Insert.resume(StoreReply::Inserted { last_insert_id: -1 }),
        Step::Finish(Ok(Success::Written(CustomResponse::Created { id: usize::MAX })))
    );
}

#[test]
fn every_failure_of_the_store_ends_the_operation_with_a_server_error() {
    let server_error = || Step::Finish(Err(CustomError::ServerError));
    let patch = || TodoPatch { title: None, description: None, done: Some(true) };
    for failure in [StoreFailure::TitleTaken, StoreFailure::Other] {
        assert_eq!(Pending::Page.resume(StoreReply::Failed(failure)), server_error());
        assert_eq!(Pending::Row.resume(StoreReply::Failed(failure)), server_error());
        assert_eq!(
            Pending::UpdateLookup { id: 1, changes: patch() }.resume(StoreReply::Failed(failure)),
            server_error()
        );
        assert_eq!(
            Pending::UpdateWrite { id: 1 }.resume(StoreReply::Failed(failure)),
            server_error()
        );
        assert_eq!(
            Pending::DeleteLookup { id: 1 }.resume(StoreReply::Failed(failure)),
            server_error()
        );
        assert_eq!(
            Pending::DeleteWrite { id: 1 }.resume(StoreReply::Failed(failure)),
            server_error()
        );
        assert_eq!(
            Pending::BulkBegin { ids: vec![1] }.resume(StoreReply::Failed(failure)),
            server_error()
        );
        assert_eq!(
            Pending::BulkLookup { ids: vec![1], next: 1 }.resume(StoreReply::Failed(failure)),
            server_error()
        );
        assert_eq!(
            Pending::BulkDelete { ids: vec![1], next: 1 }.resume(StoreReply::Failed(failure)),
            server_error()
        );
        assert_eq!(
            Pending::BulkCommit { ids: vec![1] }.resume(StoreReply::Failed(failure)),
            server_error()
        );
    }
}

#[test]
fn a_reply_that_does_not_answer_the_request_is_a_server_error() {
    assert_eq!(
        Pending::Row.resume(StoreReply::Page(vec![])),
        Step::Finish(Err(CustomError::ServerError))
    );
    assert_eq!(
        Pending::Page.resume(StoreReply::Row(None)),
        Step::Finish(Err(CustomError::ServerError))
    );
    assert_eq!(
        Pending::DeleteWrite { id: 4 }.resume(StoreReply::Updated),
        Step::Finish(Err(CustomError::ServerError))
    );
    assert_eq!(
        Pending::BulkCommit { ids: vec![4] }.resume(StoreReply::Begun),
        Step::Finish(Err(CustomError::ServerError))
    );
}

#[test]
fn an_update_and_a_delete_write_to_the_row_that_was_found() {
    let step = answer(
        delete_todo_by_id(7),
        StoreRequest::SelectById { key: 7 },
        StoreReply::Row(Some(todo(7, "seven", "the seventh", true))),
    );
    match step {
        Step::Ask { pending, request } => {
            assert_eq!(pending, Pending::DeleteWrite { id: 7 });
            assert_eq!(request, StoreRequest::Delete { key: 7 });
        }
        other => panic!("{:?}", other),
    }
    let step = answer(
        update_todo_by_id(7, None, None, Some(false)),
        StoreRequest::SelectById { key: 7 },
        StoreReply::Row(Some(todo(7, "seven", "the seventh", true))),
    );
    match step {
        Step::Ask { pending, request } => {
            assert_eq!(pending, Pending::UpdateWrite { id: 7 });
            assert_eq!(
                request,
                StoreRequest::Update {
                    key: 7,
                    changes: TodoPatch { title: None, description: None, done: Some(false) },
                }
            );
        }
        other => panic!("{:?}", other),
    }
}
