use task_server::server::{finish_request, plan_request, DbReply, DbRequest};
use task_server::Task;

const OK: &str = "HTTP/1.1 200 OK\r\nContent-Type: application/json\r\n\r\n";
const NOT_FOUND: &str = "HTTP/1.1 404 NOT FOUND\r\n\r\n";
const INTERNAL_ERROR: &str = "HTTP/1.1 500 INTERNAL ERROR\r\n\r\n";

/// A store in a vector: rows of (id, title, description), ids handed out in
/// insertion order starting at 1, as a serial column would.
struct Store {
    rows: Vec<(i32, String, String)>,
    next_id: i32,
}

impl Store {
    fn new() -> Store {
        Store { rows: Vec::new(), next_id: 1 }
    }

    fn apply(&mut self, request: &DbRequest) -> DbReply {
        match request {
            DbRequest::Insert { title, description } => {
                self.rows.push((self.next_id, title.clone(), description.clone()));
                self.next_id += 1;
                DbReply::Affected(1)
            }
            DbRequest::SelectOne { id } => match self.rows.iter().find(|r| r.0 == *id) {
                Some(r) => DbReply::Row { id: r.0, title: r.1.clone(), description: r.2.clone() },
                None => DbReply::NoRow,
            },
            DbRequest::SelectAll => DbReply::Rows(
                self.rows
                    .iter()
                    .map(|r| Task { id: Some(r.0), title: r.1.clone(), description: r.2.clone() })
                    .collect(),
            ),
            DbRequest::UpdateRow { id, title, description } => {
                let mut n = 0;
                for r in self.rows.iter_mut() {
                    if r.0 == *id {
                        r.1 = title.clone();
                        r.2 = description.clone();
                        n += 1;
                    }
                }
                DbReply::Affected(n)
            }
            DbRequest::DeleteRow { id } => {
                let before = self.rows.len();
                self.rows.retain(|r| r.0 != *id);
                DbReply::Affected((before - self.rows.len()) as u64)
            }
        }
    }

    fn serve(&mut self, request: &str) -> (String, String) {
        let reply = match plan_request(request) {
            Some(q) => self.apply(&q),
            None => DbReply::NotRun,
        };
        finish_request(request, &reply)
    }
}

#[test]
fn create_then_list_holds_the_new_task() {
    let mut store = Store::new();
    let (status, body) =
        store.serve("POST /tasks HTTP/1.1\r\n\r\n{\"title\":\"a\",\"description\":\"b\"}");
    assert_eq!(status, OK);
    assert_eq!(body, "User created");
    let (status, body) = store.serve("GET /tasks HTTP/1.1\r\n\r\n");
    assert_eq!(status, OK);
    assert_eq!(body, "[{\"id\":1,\"title\":\"a\",\"description\":\"b\"}]");
}

#[test]
fn read_one_returns_the_stored_task() {
    let mut store = Store::new();
    store.serve("POST /tasks HTTP/1.1\r\n\r\n{\"title\":\"a\",\"description\":\"b\"}");
    let (status, body) = store.serve("GET /tasks/1 HTTP/1.1\r\n\r\n");
    assert_eq!(status, OK);
    assert_eq!(body, "{\"id\":1,\"title\":\"a\",\"description\":\"b\"}");
}

#[test]
fn read_of_a_nonexistent_id_is_not_found() {
    let mut store = Store::new();
    store.serve("POST /tasks HTTP/1.1\r\n\r\n{\"title\":\"a\",\"description\":\"b\"}");
    let (status, body) = store.serve("GET /tasks/999 HTTP/1.1\r\n\r\n");
    assert_eq!(status, NOT_FOUND);
    assert_eq!(body, "Task not found");
}

#[test]
fn read_of_a_non_integer_id_is_internal_error_not_not_found() {
    let mut store = Store::new();
    let (status, body) = store.serve("GET /tasks/abc HTTP/1.1\r\n\r\n");
    assert_eq!(status, INTERNAL_ERROR);
    assert_ne!(status, NOT_FOUND);
    assert_eq!(body, "Internal error");
}

#[test]
fn deleting_twice_finds_nothing_the_second_time() {
    let mut store = Store::new();
    store.serve("POST /tasks HTTP/1.1\r\n\r\n{\"title\":\"a\",\"description\":\"b\"}");
    let (status, body) = store.serve("DELETE /tasks/1 HTTP/1.1\r\n\r\n");
    assert_eq!(status, OK);
    assert_eq!(body, "User deleted");
    let (status, body) = store.serve("DELETE /tasks/1 HTTP/1.1\r\n\r\n");
    assert_eq!(status, NOT_FOUND);
    assert_eq!(body, "User not found");
}

#[test]
fn malformed_bodies_are_internal_errors() {
    let mut store = Store::new();
    for body in ["not json at all", "{\"title\":\"a\"}", "{}", "{\"title\":1,\"description\":2}"] {
        let request = format!("POST /tasks HTTP/1.1\r\n\r\n{}", body);
        let (status, content) = store.serve(&request);
        assert_eq!(status, INTERNAL_ERROR, "body {:?}", body);
        assert_eq!(content, "Internal error");
    }
    let (_, listing) = store.serve("GET /tasks HTTP/1.1\r\n\r\n");
    assert_eq!(listing, "[]", "nothing was stored");
}

#[test]
fn listing_an_empty_store_is_ok_and_empty_array() {
    let mut store = Store::new();
    let (status, body) = store.serve("GET /tasks HTTP/1.1\r\n\r\n");
    assert_eq!(status, OK);
    assert_ne!(status, NOT_FOUND);
    assert_eq!(body, "[]");
}

#[test]
fn update_answers_ok_whether_or_not_a_row_matched() {
    let mut store = Store::new();
    store.serve("POST /tasks HTTP/1.1\r\n\r\n{\"title\":\"a\",\"description\":\"b\"}");
    let (status, body) =
        store.serve("PUT /tasks/1 HTTP/1.1\r\n\r\n{\"title\":\"x\",\"description\":\"y\"}");
    assert_eq!(status, OK);
    assert_eq!(body, "User updated");
    let (_, shown) = store.serve("GET /tasks/1 HTTP/1.1\r\n\r\n");
    assert_eq!(shown, "{\"id\":1,\"title\":\"x\",\"description\":\"y\"}");
    // No row with this id: the statement completes, so the answer is still OK.
    let (status, body) =
        store.serve("PUT /tasks/99 HTTP/1.1\r\n\r\n{\"title\":\"x\",\"description\":\"y\"}");
    assert_eq!(status, OK);
    assert_eq!(body, "User updated");
}

#[test]
fn unmatched_routes_are_not_found() {
    let mut store = Store::new();
    let (status, body) = store.serve("PATCH /tasks/1 HTTP/1.1\r\n\r\n");
    assert_eq!(status, NOT_FOUND);
    assert_eq!(body, "404 not found");
}

#[test]
fn store_failures_are_internal_errors() {
    let request = "GET /tasks/1 HTTP/1.1\r\n\r\n";
    let (status, _) = finish_request(request, &DbReply::NoConnection);
    assert_eq!(status, INTERNAL_ERROR);
    let (status, _) = finish_request("GET /tasks HTTP/1.1\r\n\r\n", &DbReply::StatementError);
    assert_eq!(status, INTERNAL_ERROR);
    let (status, _) =
        finish_request("POST /tasks HTTP/1.1\r\n\r\n{\"title\":\"a\",\"description\":\"b\"}", &DbReply::NoConnection);
    assert_eq!(status, INTERNAL_ERROR);
}

#[test]
fn plan_asks_for_the_matching_statement() {
    let plan = plan_request("POST /tasks HTTP/1.1\r\n\r\n{\"title\":\"a\",\"description\":\"b\"}");
    match plan {
        Some(DbRequest::Insert { title, description }) => {
            assert_eq!(title, "a");
            assert_eq!(description, "b");
        }
        _ => panic!("expected an insert"),
    }
    assert!(matches!(
        plan_request("GET /tasks/31 HTTP/1.1\r\n\r\n"),
        Some(DbRequest::SelectOne { id: 31 })
    ));
    assert!(matches!(plan_request("GET /tasks HTTP/1.1\r\n\r\n"), Some(DbRequest::SelectAll)));
    assert!(matches!(
        plan_request("DELETE /tasks/5 HTTP/1.1\r\n\r\n"),
        Some(DbRequest::DeleteRow { id: 5 })
    ));
    // Nothing to run: unmatched route, bad id, bad body.
    assert!(plan_request("PATCH /tasks/1 HTTP/1.1\r\n\r\n").is_none());
    assert!(plan_request("GET /tasks/abc HTTP/1.1\r\n\r\n").is_none());
    assert!(plan_request("POST /tasks HTTP/1.1\r\n\r\nnot json").is_none());
}
