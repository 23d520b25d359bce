use todo_service::controller::{
    bulk_delete_todos, create_todo, delete_todo, get_list_of_todos, get_todo, health_check,
    respond, update_todo, GetTodosQuery,
};
use todo_service::dtos::{CreateTodoDto, UpdateTodoDto};
use todo_service::http::{Body, ErrorMessage, FormattedResponse, HttpReply};
use todo_service::service::Step;
use todo_service::store::{StoreFailure, StoreReply, StoreRequest};
use todo_service::todo::{Model, Timestamp};

/// A store in memory that answers as a database with a unique title would.
struct TestApp {
    rows: Vec<Model>,
    staged: Option<Vec<Model>>,
    next_key: i32,
    clock: i64,
    requests: usize,
}

fn spawn_app() -> TestApp {
    TestApp { rows: Vec::new(), staged: None, next_key: 1, clock: 1_478_563_200, requests: 0 }
}

impl TestApp {
    fn tick(&mut self) -> Timestamp {
        self.clock += 1;
        Timestamp { seconds: self.clock, nanos: 0, offset_seconds: 0 }
    }

    fn answer(&mut self, request: StoreRequest) -> StoreReply {
        self.requests += 1;
        match request {
            StoreRequest::Begin => {
                if self.staged.is_some() {
                    return StoreReply::Failed(StoreFailure::Other);
                }
                self.staged = Some(self.rows.clone());
                StoreReply::Begun
            }
            StoreRequest::Commit => match self.staged.take() {
                Some(rows) => {
                    self.rows = rows;
                    StoreReply::Committed
                }
                None => StoreReply::Failed(StoreFailure::Other),
            },
            request => {
                let now = self.tick();
                let key = self.next_key;
                let rows = match self.staged.as_mut() {
                    Some(rows) => rows,
                    None => &mut self.rows,
                };
                let (reply, used_key) = answer_on(rows, request, key, now);
                if used_key {
                    self.next_key += 1;
                }
                reply
            }
        }
    }

    /// Plays an operation to its end and gives the response.
    fn serve(&mut self, first: Step) -> HttpReply {
        let mut step = first;
        loop {
            match step {
                Step::Ask { pending, request } => {
                    let reply = self.answer(request);
                    step = pending.resume(reply);
                }
                Step::Finish(outcome) => {
                    self.staged = None;
                    return respond(outcome);
                }
            }
        }
    }

    fn post(&mut self, title: &str, description: &str, done: bool) -> HttpReply {
        self.serve(create_todo(CreateTodoDto {
            title: title.to_string(),
            description: description.to_string(),
            done,
        }))
    }

    fn list(&mut self, query_string: Option<&str>, items_per_page: Option<usize>, page: Option<usize>) -> Vec<Model> {
        let reply = self.serve(get_list_of_todos(GetTodosQuery {
            query_string: query_string.map(|s| s.to_string()),
            page,
            items_per_page,
        }));
        assert_eq!(200, reply.status);
        match reply.body {
            Body::Todos(rows) => rows,
            other => panic!("{:?}", other),
        }
    }
}

fn answer_on(rows: &mut Vec<Model>, request: StoreRequest, key: i32, now: Timestamp) -> (StoreReply, bool) {
    match request {
        StoreRequest::SelectPage { title_contains, items_per_page, page } => {
            let mut found: Vec<Model> = rows
                .iter()
                .filter(|row| match &title_contains {
                    Some(part) => row.title.contains(part.as_str()),
                    None => true,
                })
                .cloned()
                .collect();
            found.sort_by_key(|row| (row.updated_at.seconds, row.updated_at.nanos));
            found.reverse();
            let page: Vec<Model> =
                found.into_iter().skip(items_per_page * page).take(items_per_page).collect();
            (StoreReply::Page(page), false)
        }
        StoreRequest::SelectById { key } => {
            (StoreReply::Row(rows.iter().find(|row| row.id == key).cloned()), false)
        }
        StoreRequest::Insert { title, description, done } => {
            if rows.iter().any(|row| row.title == title) {
                return (StoreReply::Failed(StoreFailure::TitleTaken), false);
            }
            rows.push(Model { id: key, title, description, done, created_at: now, updated_at: now });
            (StoreReply::Inserted { last_insert_id: key }, true)
        }
        StoreRequest::Update { key, changes } => {
            if let Some(title) = &changes.title {
                if rows.iter().any(|row| row.id != key && &row.title == title) {
                    return (StoreReply::Failed(StoreFailure::TitleTaken), false);
                }
            }
            match rows.iter_mut().find(|row| row.id == key) {
                Some(row) => {
                    if let Some(title) = changes.title {
                        row.title = title;
                    }
                    if let Some(description) = changes.description {
                        row.description = description;
                    }
                    if let Some(done) = changes.done {
                        row.done = done;
                    }
                    row.updated_at = now;
                    (StoreReply::Updated, false)
                }
                None => (StoreReply::Failed(StoreFailure::Other), false),
            }
        }
        StoreRequest::Delete { key } => {
            rows.retain(|row| row.id != key);
            (StoreReply::Deleted, false)
        }
        StoreRequest::Begin | StoreRequest::Commit => (StoreReply::Failed(StoreFailure::Other), false),
    }
}

/// The key that the body of a write reports.
fn id_of(reply: &HttpReply) -> usize {
    match &reply.body {
        Body::Written(FormattedResponse::WithId { id, .. }) => *id,
        other => panic!("{:?}", other),
    }
}

#[test]
fn health_check_works() {
    let response = health_check();

    assert!(200 <= response.status && response.status < 300);
    assert_eq!(Body::Empty, response.body);
}

#[test]
fn add_todo_returns_201() {
    let mut test_app = spawn_app();

    let test_cases = vec![
        ("test1", "test1", false),
        ("test2", "test2", true),
        ("test4", "test4", false),
    ];

    for (title, description, done) in test_cases {
        let response = test_app.post(title, description, done);

        assert_eq!(201, response.status);
    }
}

#[test]
fn add_todo_returns_409_if_title_already_exists() {
    let mut test_app = spawn_app();

    let response = test_app.post("test1", "test1", false);

    assert_eq!(201, response.status);

    let response = test_app.post("test1", "another test1", false);

    assert_eq!(409, response.status);
    assert_eq!(1, test_app.rows.len());
    assert_eq!("test1", test_app.rows[0].description);
}

#[test]
fn get_todos_returns_200() {
    let mut test_app = spawn_app();

    let response = test_app.serve(get_list_of_todos(GetTodosQuery {
        query_string: None,
        page: None,
        items_per_page: None,
    }));

    assert_eq!(200, response.status);
    assert_eq!(Body::Todos(vec![]), response.body);
}

#[test]
fn get_todo_by_id_returns_200_if_exists() {
    let mut test_app = spawn_app();

    let response = test_app.post("test", "test", false);

    assert_eq!(201, response.status);

    let id = id_of(&response);

    let response = test_app.serve(get_todo(id));

    assert_eq!(200, response.status);
    match response.body {
        Body::Todo(row) => {
            assert_eq!(id, row.id as usize);
            assert_eq!("test", row.title);
            assert_eq!("test", row.description);
            assert!(!row.done);
        }
        other => panic!("{:?}", other),
    }
}

#[test]
fn get_todo_by_id_returns_404_if_not_exists() {
    let mut test_app = spawn_app();

    let response = test_app.serve(get_todo(1));

    assert_eq!(404, response.status);
}

#[test]
fn update_todo_by_id_returns_200_if_exists() {
    let mut test_app = spawn_app();

    let response = test_app.post("test", "test", false);

    assert_eq!(201, response.status);

    let id = id_of(&response);

    let response = test_app.serve(update_todo(
        id,
        UpdateTodoDto {
            title: Some("test2".to_string()),
            description: Some("test2".to_string()),
            done: Some(true),
        },
    ));

    assert_eq!(200, response.status);
    assert_eq!(id, id_of(&response));
    assert_eq!("test2", test_app.rows[0].title);
    assert_eq!("test2", test_app.rows[0].description);
    assert!(test_app.rows[0].done);
}

#[test]
fn update_todo_by_id_returns_404_if_not_exists() {
    let mut test_app = spawn_app();

    let response = test_app.serve(update_todo(
        1,
        UpdateTodoDto {
            title: Some("test".to_string()),
            description: Some("test".to_string()),
            done: Some(false),
        },
    ));

    assert_eq!(404, response.status);
}

#[test]
fn delete_todo_by_id_returns_200_if_exists() {
    let mut test_app = spawn_app();

    let response = test_app.post("test", "test", false);

    assert_eq!(201, response.status);

    let id = id_of(&response);

    let response = test_app.serve(delete_todo(id));

    assert_eq!(200, response.status);
    assert!(test_app.rows.is_empty());
}

#[test]
fn delete_todo_by_id_returns_404_if_not_exists() {
    let mut test_app = spawn_app();

    let response = test_app.serve(delete_todo(999));

    assert_eq!(404, response.status);
}

#[test]
fn bulk_delete_todos_returns_200_if_all_exist() {
    let mut test_app = spawn_app();

    let response = test_app.post("test", "test", false);

    assert_eq!(201, response.status);

    let id = id_of(&response);

    let response = test_app.post("test2", "test2", false);

    assert_eq!(201, response.status);

    let id2 = id_of(&response);

    let response = test_app.serve(bulk_delete_todos(vec![id, id2]));

    assert_eq!(200, response.status);
    assert!(test_app.rows.is_empty());
}

#[test]
fn bulk_delete_todos_returns_404_if_some_does_not_exist() {
    let mut test_app = spawn_app();

    let response = test_app.post("test", "test", false);

    assert_eq!(201, response.status);

    let id = id_of(&response);

    let response = test_app.post("test2", "test2", false);

    assert_eq!(201, response.status);

    let id2 = id_of(&response);

    let response = test_app.serve(bulk_delete_todos(vec![id, id2, 999]));

    assert_eq!(404, response.status);
    assert_eq!(2, test_app.rows.len());
}

#[test]
fn an_invalid_payload_is_answered_with_400_before_the_store_is_asked() {
    let mut test_app = spawn_app();

    let response = test_app.post("", "", false);
    assert_eq!(400, response.status);
    match response.body {
        Body::Failed(body) => {
            assert_eq!(400, body.status_code);
            assert_eq!("Bad Request", body.error);
            match body.message {
                ErrorMessage::Violations(e) => assert_eq!(2, e.errors.len()),
                other => panic!("{:?}", other),
            }
        }
        other => panic!("{:?}", other),
    }

    let response = test_app.serve(update_todo(
        1,
        UpdateTodoDto { title: Some("x".repeat(31)), description: None, done: None },
    ));
    assert_eq!(400, response.status);
    assert_eq!(0, test_app.requests);
}

#[test]
fn missing_ids_are_answered_with_404() {
    let mut test_app = spawn_app();
    test_app.post("kept", "kept", false);

    for id in [0, 2, 999, i32::MAX as usize, i32::MAX as usize + 1, usize::MAX] {
        assert_eq!(404, test_app.serve(get_todo(id)).status);
        assert_eq!(
            404,
            test_app
                .serve(update_todo(id, UpdateTodoDto { title: None, description: None, done: Some(true) }))
                .status
        );
        assert_eq!(404, test_app.serve(delete_todo(id)).status);
    }
    assert_eq!(1, test_app.rows.len());
    assert!(!test_app.rows[0].done);
}

fn titles(rows: &[Model]) -> Vec<String> {
    rows.iter().map(|row| row.title.clone()).collect()
}

#[test]
fn listing_is_ordered_filtered_and_paged() {
    let mut test_app = spawn_app();
    for i in 1..=7 {
        test_app.post(&format!("Apple {}", i), "fruit", false);
        test_app.post(&format!("Pear {}", i), "fruit", false);
    }

    // no filters: most recently updated first, ten rows
    let rows = test_app.list(None, None, None);
    assert_eq!(
        titles(&rows),
        vec![
            "Pear 7", "Apple 7", "Pear 6", "Apple 6", "Pear 5", "Apple 5", "Pear 4", "Apple 4",
            "Pear 3", "Apple 3"
        ]
    );
    for pair in rows.windows(2) {
        assert!(pair[0].updated_at.seconds > pair[1].updated_at.seconds);
    }

    // with a query string: exactly the rows whose title contains it, same order
    let rows = test_app.list(Some("Apple"), None, None);
    assert_eq!(
        titles(&rows),
        vec!["Apple 7", "Apple 6", "Apple 5", "Apple 4", "Apple 3", "Apple 2", "Apple 1"]
    );

    // the second page of five rows of that listing
    let rows = test_app.list(Some("Apple"), Some(5), Some(1));
    assert_eq!(titles(&rows), vec!["Apple 2", "Apple 1"]);

    // a page beyond the end is empty
    let rows = test_app.list(Some("Apple"), Some(5), Some(2));
    assert!(rows.is_empty());
}

#[test]
fn updating_only_done_keeps_title_and_description_and_advances_updated_at() {
    let mut test_app = spawn_app();
    let id = id_of(&test_app.post("task", "to be done", false));
    let before = test_app.rows[0].clone();

    let response = test_app.serve(update_todo(
        id,
        UpdateTodoDto { title: None, description: None, done: Some(true) },
    ));

    assert_eq!(200, response.status);
    let after = &test_app.rows[0];
    assert_eq!(before.id, after.id);
    assert_eq!(before.title, after.title);
    assert_eq!(before.description, after.description);
    assert_eq!(before.created_at, after.created_at);
    assert!(after.done);
    assert!(after.updated_at.seconds > before.updated_at.seconds);
}

#[test]
fn bulk_delete_is_all_or_nothing() {
    let mut test_app = spawn_app();
    for title in ["one", "two", "three", "four"] {
        assert_eq!(201, test_app.post(title, title, false).status);
    }

    // one key is missing: nothing is deleted
    let response = test_app.serve(bulk_delete_todos(vec![1, 2, 999]));
    assert_eq!(404, response.status);
    assert_eq!(200, test_app.serve(get_todo(1)).status);
    assert_eq!(200, test_app.serve(get_todo(2)).status);
    assert_eq!(4, test_app.rows.len());

    // a key is listed twice: the second time it is missing, and nothing is deleted
    let response = test_app.serve(bulk_delete_todos(vec![1, 1]));
    assert_eq!(404, response.status);
    assert_eq!(4, test_app.rows.len());

    // all exist: all three rows are gone, the fourth stays
    let response = test_app.serve(bulk_delete_todos(vec![1, 2, 3]));
    assert_eq!(200, response.status);
    match response.body {
        Body::Written(FormattedResponse::WithIds { message, ids }) => {
            assert_eq!("Bulk Deleted", message);
            assert_eq!(vec![1, 2, 3], ids);
        }
        other => panic!("{:?}", other),
    }
    assert_eq!(titles(&test_app.rows), vec!["four"]);
    for id in [1, 2, 3] {
        assert_eq!(404, test_app.serve(get_todo(id)).status);
    }
}

#[test]
fn a_second_delete_of_the_same_id_returns_404() {
    let mut test_app = spawn_app();
    let id = id_of(&test_app.post("once", "only", false));

    assert_eq!(200, test_app.serve(delete_todo(id)).status);
    assert_eq!(404, test_app.serve(delete_todo(id)).status);
}
