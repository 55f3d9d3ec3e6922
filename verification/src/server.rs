//! The operation handlers: what each request answers, given what the store said.
use vstd::prelude::*;
use vstd::string::StringExecFns;

use crate::http::{get_id, get_id_spec, route, route_spec, body_of, Route};
use crate::json::{get_task_request_body, task_fields_of, task_json, tasks_json, task_to_json, tasks_to_json};
use crate::num::{parse_i32, parse_i32_spec};
use crate::Task;

verus! {

/// The one statement a request asks the store to run.
pub enum DbRequest {
    Insert { title: String, description: String },
    SelectOne { id: i32 },
    SelectAll,
    UpdateRow { id: i32, title: String, description: String },
    DeleteRow { id: i32 },
}

/// What came back from the store, or why nothing did.
pub enum DbReply {
    NotRun,
    NoConnection,
    StatementError,
    Affected(u64),
    Row { id: i32, title: String, description: String },
    NoRow,
    Rows(Vec<Task>),
}

/// Status line of a successful response.
pub open spec fn ok_line() -> Seq<char> {
    "HTTP/1.1 200 OK\r\nContent-Type: application/json\r\n\r\n"@
}

/// Status line of a not-found response.
pub open spec fn not_found_line() -> Seq<char> {
    "HTTP/1.1 404 NOT FOUND\r\n\r\n"@
}

/// Status line of an internal-error response.
pub open spec fn internal_error_line() -> Seq<char> {
    "HTTP/1.1 500 INTERNAL ERROR\r\n\r\n"@
}

fn ok_response() -> (r: String)
    ensures
        r@ == ok_line(),
{
    String::from_str("HTTP/1.1 200 OK\r\nContent-Type: application/json\r\n\r\n")
}

fn internal_pair() -> (r: (String, String))
    ensures
        r.0@ == internal_error_line(),
        r.1@ == "Internal error"@,
{
    (
        String::from_str("HTTP/1.1 500 INTERNAL ERROR\r\n\r\n"),
        String::from_str("Internal error"),
    )
}

fn not_found_response() -> (r: String)
    ensures
        r@ == not_found_line(),
{
    String::from_str("HTTP/1.1 404 NOT FOUND\r\n\r\n")
}

/// Response to a create request: created on any completed insert, and the
/// internal error both on an undecodable body and on a store failure.
pub open spec fn post_response_spec(req: Seq<char>, reply: DbReply) -> (Seq<char>, Seq<char>) {
    if task_fields_of(body_of(req)) is None {
        (internal_error_line(), "Internal error"@)
    } else {
        match reply {
            DbReply::Affected(_) => (ok_line(), "User created"@),
            _ => (internal_error_line(), "Internal error"@),
        }
    }
}

/// Response to a read-one request: the task as JSON when a row matched,
/// not-found when none did, and the internal error when the id does not
/// parse as an integer or the store failed.
pub open spec fn get_one_response_spec(req: Seq<char>, reply: DbReply) -> (Seq<char>, Seq<char>) {
    if parse_i32_spec(get_id_spec(req)) is None {
        (internal_error_line(), "Internal error"@)
    } else {
        match reply {
            DbReply::Row { id, title, description } => (
                ok_line(),
                task_json(Some(id), title@, description@),
            ),
            DbReply::NoRow => (not_found_line(), "Task not found"@),
            _ => (internal_error_line(), "Internal error"@),
        }
    }
}

/// Response to a read-all request: the JSON array of whatever rows came
/// back, and the internal error when the store failed.
pub open spec fn get_all_response_spec(reply: DbReply) -> (Seq<char>, Seq<char>) {
    match reply {
        DbReply::Rows(ts) => (ok_line(), tasks_json(ts@)),
        _ => (internal_error_line(), "Internal error"@),
    }
}

/// Response to an update request: updated on any completed statement, row
/// matched or not, and the internal error both on an unparsable id or body
/// and on a store failure.
pub open spec fn put_response_spec(req: Seq<char>, reply: DbReply) -> (Seq<char>, Seq<char>) {
    if parse_i32_spec(get_id_spec(req)) is None || task_fields_of(body_of(req)) is None {
        (internal_error_line(), "Internal error"@)
    } else {
        match reply {
            DbReply::Affected(_) => (ok_line(), "User updated"@),
            _ => (internal_error_line(), "Internal error"@),
        }
    }
}

/// Response to a delete request: not-found when the statement removed no
/// row, deleted when it removed some, and the internal error when the id
/// does not parse or the store failed.
pub open spec fn delete_response_spec(req: Seq<char>, reply: DbReply) -> (Seq<char>, Seq<char>) {
    if parse_i32_spec(get_id_spec(req)) is None {
        (internal_error_line(), "Internal error"@)
    } else {
        match reply {
            DbReply::Affected(n) => if n == 0 {
                (not_found_line(), "User not found"@)
            } else {
                (ok_line(), "User deleted"@)
            },
            _ => (internal_error_line(), "Internal error"@),
        }
    }
}

/// The full response of the server to a request, given the store's reply:
/// routed by prefix, with an unmatched request answered not-found.
pub open spec fn response_spec(req: Seq<char>, reply: DbReply) -> (Seq<char>, Seq<char>) {
    match route_spec(req) {
        Route::Create => post_response_spec(req, reply),
        Route::ReadOne => get_one_response_spec(req, reply),
        Route::ReadAll => get_all_response_spec(reply),
        Route::Update => put_response_spec(req, reply),
        Route::Delete => delete_response_spec(req, reply),
        Route::Unmatched => (not_found_line(), "404 not found"@),
    }
}

/// Answers a create request.
pub fn handle_post_request(request: &str, reply: &DbReply) -> (res: (String, String))
    ensures
        res.0@ == post_response_spec(request@, *reply).0,
        res.1@ == post_response_spec(request@, *reply).1,
{
    match (get_task_request_body(request), reply) {
        (Some(_task), DbReply::Affected(_)) => (
            ok_response(),
            String::from_str("User created"),
        ),
        _ => internal_pair(),
    }
}

/// Answers a read-one request.
pub fn handle_get_request(request: &str, reply: &DbReply) -> (res: (String, String))
    ensures
        res.0@ == get_one_response_spec(request@, *reply).0,
        res.1@ == get_one_response_spec(request@, *reply).1,
{
    match (parse_i32(get_id(request)), reply) {
        (Some(_id), DbReply::Row { id, title, description }) => {
            let task = Task {
                id: Some(*id),
                title: title.clone(),
                description: description.clone(),
            };
            (ok_response(), task_to_json(&task))
        },
        (Some(_id), DbReply::NoRow) => (
            not_found_response(),
            String::from_str("Task not found"),
        ),
        _ => internal_pair(),
    }
}

/// Answers a read-all request.
pub fn handle_get_all_request(_request: &str, reply: &DbReply) -> (res: (String, String))
    ensures
        res.0@ == get_all_response_spec(*reply).0,
        res.1@ == get_all_response_spec(*reply).1,
{
    match reply {
        DbReply::Rows(ts) => (ok_response(), tasks_to_json(ts)),
        _ => internal_pair(),
    }
}

/// Answers an update request.
pub fn handle_put_request(request: &str, reply: &DbReply) -> (res: (String, String))
    ensures
        res.0@ == put_response_spec(request@, *reply).0,
        res.1@ == put_response_spec(request@, *reply).1,
{
    match (parse_i32(get_id(request)), get_task_request_body(request), reply) {
        (Some(_id), Some(_task), DbReply::Affected(_)) => (
            ok_response(),
            String::from_str("User updated"),
        ),
        _ => internal_pair(),
    }
}

/// Answers a delete request.
pub fn handle_delete_request(request: &str, reply: &DbReply) -> (res: (String, String))
    ensures
        res.0@ == delete_response_spec(request@, *reply).0,
        res.1@ == delete_response_spec(request@, *reply).1,
{
    match (parse_i32(get_id(request)), reply) {
        (Some(_id), DbReply::Affected(n)) => {
            if *n == 0 {
                (not_found_response(), String::from_str("User not found"))
            } else {
                (ok_response(), String::from_str("User deleted"))
            }
        },
        _ => internal_pair(),
    }
}

/// The statement a request asks for, or `None` when no store work is owed:
/// when the route is unmatched, or an id or body the operation needs does
/// not decode.
pub fn plan_request(request: &str) -> (p: Option<DbRequest>)
    ensures
        ({
            let fields = task_fields_of(body_of(request@));
            let id = parse_i32_spec(get_id_spec(request@));
            match route_spec(request@) {
                Route::Create => match fields {
                    Some(f) => p matches Some(DbRequest::Insert { title, description })
                        && title@ == f.0 && description@ == f.1,
                    None => p is None,
                },
                Route::ReadOne => match id {
                    Some(v) => p matches Some(DbRequest::SelectOne { id: q }) && q as int == v,
                    None => p is None,
                },
                Route::ReadAll => p matches Some(DbRequest::SelectAll),
                Route::Update => match (id, fields) {
                    (Some(v), Some(f)) => p matches Some(
                        DbRequest::UpdateRow { id: q, title, description },
                    ) && q as int == v && title@ == f.0 && description@ == f.1,
                    _ => p is None,
                },
                Route::Delete => match id {
                    Some(v) => p matches Some(DbRequest::DeleteRow { id: q }) && q as int == v,
                    None => p is None,
                },
                Route::Unmatched => p is None,
            }
        }),
{
    match route(request) {
        Route::Create => match get_task_request_body(request) {
            Some(t) => Some(DbRequest::Insert { title: t.title, description: t.description }),
            None => None,
        },
        Route::ReadOne => match parse_i32(get_id(request)) {
            Some(id) => Some(DbRequest::SelectOne { id }),
            None => None,
        },
        Route::ReadAll => Some(DbRequest::SelectAll),
        Route::Update => match (parse_i32(get_id(request)), get_task_request_body(request)) {
            (Some(id), Some(t)) => Some(
                DbRequest::UpdateRow { id, title: t.title, description: t.description },
            ),
            _ => None,
        },
        Route::Delete => match parse_i32(get_id(request)) {
            Some(id) => Some(DbRequest::DeleteRow { id }),
            None => None,
        },
        Route::Unmatched => None,
    }
}

/// A read of an id that matches no row is answered with the not-found
/// status, whatever the id was.
pub proof fn law_missing_row_is_not_found(req: Seq<char>, reply: DbReply)
    requires
        route_spec(req) is ReadOne,
        parse_i32_spec(get_id_spec(req)) is Some,
        reply is NoRow,
    ensures
        response_spec(req, reply).0 == not_found_line(),
        response_spec(req, reply).1 == "Task not found"@,
{
}

/// A read whose id segment does not parse as an integer is answered with the
/// internal-error status — not the not-found status — whatever the store
/// would have said.
pub proof fn law_bad_id_is_internal_error(req: Seq<char>, reply: DbReply)
    requires
        route_spec(req) is ReadOne,
        parse_i32_spec(get_id_spec(req)) is None,
    ensures
        response_spec(req, reply).0 == internal_error_line(),
        response_spec(req, reply).0 != not_found_line(),
{
    reveal_strlit("HTTP/1.1 500 INTERNAL ERROR\r\n\r\n");
    reveal_strlit("HTTP/1.1 404 NOT FOUND\r\n\r\n");
    assert(internal_error_line()[9] == '5');
    assert(not_found_line()[9] == '4');
}

/// A delete that removed no row is answered not-found; one that removed any
/// is answered with the success status. So the second of two deletes of the
/// same id, which finds the row already gone, is answered not-found.
pub proof fn law_delete_answers_by_rows_removed(req: Seq<char>, reply: DbReply, n: u64)
    requires
        route_spec(req) is Delete,
        parse_i32_spec(get_id_spec(req)) is Some,
        reply == DbReply::Affected(n),
    ensures
        n == 0 ==> response_spec(req, reply) == (not_found_line(), "User not found"@),
        n > 0 ==> response_spec(req, reply) == (ok_line(), "User deleted"@),
{
}

/// A create whose body does not decode as a task is answered with the
/// internal-error status, whatever the store would have said.
pub proof fn law_malformed_body_is_internal_error(req: Seq<char>, reply: DbReply)
    requires
        route_spec(req) is Create,
        task_fields_of(body_of(req)) is None,
    ensures
        response_spec(req, reply).0 == internal_error_line(),
{
}

/// A listing that found no rows is answered with the success status and the
/// empty JSON array — not the not-found status.
pub proof fn law_empty_listing_is_ok(req: Seq<char>, reply: DbReply, ts: Vec<Task>)
    requires
        route_spec(req) is ReadAll,
        reply == DbReply::Rows(ts),
        ts@.len() == 0,
    ensures
        response_spec(req, reply).0 == ok_line(),
        response_spec(req, reply).0 != not_found_line(),
        response_spec(req, reply).1 == "[]"@,
{
    reveal_strlit("HTTP/1.1 200 OK\r\nContent-Type: application/json\r\n\r\n");
    reveal_strlit("HTTP/1.1 404 NOT FOUND\r\n\r\n");
    assert(ok_line()[9] == '2');
    assert(not_found_line()[9] == '4');
    reveal_strlit("[]");
    assert(tasks_json(ts@) =~= "[]"@);
}

/// Routes a request and answers it, given the store's reply to the planned
/// statement.
pub fn finish_request(request: &str, reply: &DbReply) -> (res: (String, String))
    ensures
        res.0@ == response_spec(request@, *reply).0,
        res.1@ == response_spec(request@, *reply).1,
{
    match route(request) {
        Route::Create => handle_post_request(request, reply),
        Route::ReadOne => handle_get_request(request, reply),
        Route::ReadAll => handle_get_all_request(request, reply),
        Route::Update => handle_put_request(request, reply),
        Route::Delete => handle_delete_request(request, reply),
        Route::Unmatched => (not_found_response(), String::from_str("404 not found")),
    }
}

} // verus!
