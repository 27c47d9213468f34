use user_service::dispatch::{
    after_connect, after_statement, handle_delete_request, handle_get_all_request,
    handle_get_request, handle_post_request, handle_put_request, handle_request, render,
};
use user_service::model::{
    Body, Outcome, Response, Statement, Status, Step, User, INTERNAL_SERVER_ERROR, NOT_FOUND,
    OK_RESPONSE,
};
use user_service::request::{get_id, parse_id, request_body, route, Route};

fn user(name: &str, email: &str) -> User {
    User { id: None, username: name.to_string(), email: email.to_string() }
}

fn text_of(step: &Step) -> (Status, String) {
    match step {
        Step::Reply(Response { status, body: Body::Text(t) }) => (*status, t.clone()),
        _ => panic!("expected a text reply"),
    }
}

/// A table standing in for the store, to drive requests to their reply.
struct Table {
    rows: Vec<(i32, String, String)>,
    next: i32,
}

impl Table {
    fn new() -> Table {
        Table { rows: Vec::new(), next: 1 }
    }

    fn find(&self, id: i32) -> Vec<User> {
        self.rows
            .iter()
            .filter(|r| r.0 == id)
            .map(|r| User { id: Some(r.0), username: r.1.clone(), email: r.2.clone() })
            .collect()
    }

    fn run(&mut self, s: &Statement) -> Outcome {
        match s {
            Statement::Insert { username, email } => {
                self.rows.push((self.next, username.clone(), email.clone()));
                self.next += 1;
                Outcome::Affected(1)
            }
            Statement::SelectOne { id } | Statement::CheckExists { id, .. } => {
                Outcome::Rows(self.find(*id))
            }
            Statement::SelectAll => Outcome::Rows(
                self.rows
                    .iter()
                    .map(|r| User { id: Some(r.0), username: r.1.clone(), email: r.2.clone() })
                    .collect(),
            ),
            Statement::UpdateRow { id, username, email } => {
                let mut n = 0;
                for r in self.rows.iter_mut().filter(|r| r.0 == *id) {
                    r.1 = username.clone();
                    r.2 = email.clone();
                    n += 1;
                }
                Outcome::Affected(n)
            }
            Statement::DeleteRow { id } => {
                let before = self.rows.len();
                self.rows.retain(|r| r.0 != *id);
                Outcome::Affected((before - self.rows.len()) as u64)
            }
        }
    }

    fn serve(&mut self, request: &str, body: Option<User>) -> Response {
        let mut step = handle_request(request, body);
        loop {
            step = match step {
                Step::Connect(s) => after_connect(s, true),
                Step::Run(s) => {
                    let o = self.run(&s);
                    after_statement(s, o)
                }
                Step::Reply(r) => return r,
            };
        }
    }
}

fn expect_text(r: &Response, status: Status, msg: &str) {
    assert_eq!(r.status, status);
    match &r.body {
        Body::Text(t) => assert_eq!(t, msg),
        _ => panic!("expected a text body"),
    }
}

#[test]
fn create_valid_adds_one_row() {
    let mut t = Table::new();
    let r = t.serve("POST /users HTTP/1.1\r\n\r\n", Some(user("bob", "bob@example.com")));
    expect_text(&r, Status::Success, "User created");
    assert_eq!(t.rows.len(), 1);
    assert_eq!(t.rows[0].1, "bob");
    assert_eq!(t.rows[0].2, "bob@example.com");
}

#[test]
fn create_bad_email_adds_nothing() {
    let mut t = Table::new();
    let r = t.serve("POST /users HTTP/1.1\r\n\r\n", Some(user("bob", "not-an-email")));
    expect_text(&r, Status::InternalError, "Invalid email format");
    assert_eq!(t.rows.len(), 0);
}

#[test]
fn create_without_body_is_error() {
    let step = handle_post_request(None);
    assert_eq!(text_of(&step), (Status::InternalError, "Error".to_string()));
}

#[test]
fn read_missing_is_not_found() {
    let mut t = Table::new();
    let r = t.serve("GET /users/999999 HTTP/1.1\r\n\r\n", None);
    expect_text(&r, Status::NotFound, "User not found");
}

#[test]
fn update_missing_is_not_found_and_changes_nothing() {
    let mut t = Table::new();
    t.serve("POST /users HTTP/1.1\r\n\r\n", Some(user("a", "a@example.com")));
    let r = t.serve("PUT /users/42 HTTP/1.1\r\n\r\n", Some(user("b", "b@example.com")));
    expect_text(&r, Status::NotFound, "User not found");
    assert_eq!(t.rows, vec![(1, "a".to_string(), "a@example.com".to_string())]);
}

#[test]
fn update_bad_email_is_refused() {
    let mut t = Table::new();
    t.serve("POST /users HTTP/1.1\r\n\r\n", Some(user("a", "a@example.com")));
    let r = t.serve("PUT /users/1 HTTP/1.1\r\n\r\n", Some(user("b", "nope")));
    expect_text(&r, Status::InternalError, "Invalid email format");
    assert_eq!(t.rows[0].1, "a");
}

#[test]
fn delete_missing_is_not_found() {
    let mut t = Table::new();
    let r = t.serve("DELETE /users/7 HTTP/1.1\r\n\r\n", None);
    expect_text(&r, Status::NotFound, "User not found");
}

#[test]
fn alice_lifecycle() {
    let mut t = Table::new();
    let r = t.serve(
        "POST /users HTTP/1.1\r\nHost: x\r\n\r\n{\"username\":\"alice\",\"email\":\"alice@example.com\"}",
        Some(user("alice", "alice@example.com")),
    );
    expect_text(&r, Status::Success, "User created");

    let r = t.serve("GET /users HTTP/1.1\r\n\r\n", None);
    assert_eq!(r.status, Status::Success);
    let id = match &r.body {
        Body::All(v) => {
            assert_eq!(v.len(), 1);
            assert_eq!(v[0].username, "alice");
            assert_eq!(v[0].email, "alice@example.com");
            v[0].id.unwrap()
        }
        _ => panic!("expected every user"),
    };

    let r = t.serve(
        &format!("PUT /users/{} HTTP/1.1\r\n\r\n", id),
        Some(user("alice2", "alice2@example.com")),
    );
    expect_text(&r, Status::Success, "User updated");

    let r = t.serve(&format!("GET /users/{} HTTP/1.1\r\n\r\n", id), None);
    assert_eq!(r.status, Status::Success);
    match &r.body {
        Body::One(u) => {
            assert_eq!(u.id, Some(id));
            assert_eq!(u.username, "alice2");
            assert_eq!(u.email, "alice2@example.com");
        }
        _ => panic!("expected one user"),
    }

    let r = t.serve(&format!("DELETE /users/{} HTTP/1.1\r\n\r\n", id), None);
    expect_text(&r, Status::Success, "User deleted");

    let r = t.serve(&format!("GET /users/{} HTTP/1.1\r\n\r\n", id), None);
    expect_text(&r, Status::NotFound, "User not found");
}

#[test]
fn unmatched_route_is_not_found() {
    assert_eq!(route("PATCH /users/1 HTTP/1.1\r\n\r\n"), Route::Unmatched);
    let step = handle_request("PATCH /users/1 HTTP/1.1\r\n\r\n", None);
    assert_eq!(text_of(&step), (Status::NotFound, "404 Not Found".to_string()));
}

#[test]
fn routes_in_priority_order() {
    assert_eq!(route("POST /users HTTP/1.1"), Route::Create);
    assert_eq!(route("GET /users/3 HTTP/1.1"), Route::ReadOne);
    assert_eq!(route("GET /users HTTP/1.1"), Route::ReadAll);
    assert_eq!(route("GET /usersx"), Route::ReadAll);
    assert_eq!(route("PUT /users/3 HTTP/1.1"), Route::Update);
    assert_eq!(route("PUT /users HTTP/1.1"), Route::Unmatched);
    assert_eq!(route("DELETE /users/3 HTTP/1.1"), Route::Delete);
    assert_eq!(route(""), Route::Unmatched);
}

#[test]
fn id_is_third_segment_first_word() {
    assert_eq!(get_id("GET /users/12 HTTP/1.1\r\n"), "12");
    assert_eq!(get_id("GET /users/12/extra HTTP/1.1"), "12");
    assert_eq!(get_id("GET /users HTTP/1.1"), "1.1");
    assert_eq!(get_id("GET /users"), "");
    assert_eq!(get_id("no slashes"), "");
    assert_eq!(get_id("GET /users/ 5 x"), "5");
    assert_eq!(get_id("GET /users/"), "");
}

#[test]
fn parse_id_reads_i32() {
    assert_eq!(parse_id("12"), Some(12));
    assert_eq!(parse_id("+7"), Some(7));
    assert_eq!(parse_id("-5"), Some(-5));
    assert_eq!(parse_id("007"), Some(7));
    assert_eq!(parse_id("2147483647"), Some(2147483647));
    assert_eq!(parse_id("2147483648"), None);
    assert_eq!(parse_id("-2147483648"), Some(-2147483648));
    assert_eq!(parse_id("-2147483649"), None);
    assert_eq!(parse_id("99999999999999999999"), None);
    assert_eq!(parse_id(""), None);
    assert_eq!(parse_id("-"), None);
    assert_eq!(parse_id("+"), None);
    assert_eq!(parse_id("1a"), None);
    assert_eq!(parse_id("abc"), None);
}

#[test]
fn bad_id_is_internal_error() {
    assert_eq!(
        text_of(&handle_get_request("GET /users/abc HTTP/1.1")),
        (Status::InternalError, "Error".to_string())
    );
    assert_eq!(
        text_of(&handle_delete_request("DELETE /users/x HTTP/1.1")),
        (Status::InternalError, "Error".to_string())
    );
    assert_eq!(
        text_of(&handle_put_request("PUT /users/x HTTP/1.1", Some(user("a", "a@b.c")))),
        (Status::InternalError, "Error".to_string())
    );
    assert_eq!(
        text_of(&handle_put_request("PUT /users/1 HTTP/1.1", None)),
        (Status::InternalError, "Error".to_string())
    );
}

#[test]
fn first_steps_name_statements() {
    match handle_get_request("GET /users/5 HTTP/1.1") {
        Step::Connect(Statement::SelectOne { id }) => assert_eq!(id, 5),
        _ => panic!("expected a select"),
    }
    assert!(matches!(handle_get_all_request(), Step::Connect(Statement::SelectAll)));
    match handle_delete_request("DELETE /users/9 HTTP/1.1") {
        Step::Connect(Statement::DeleteRow { id }) => assert_eq!(id, 9),
        _ => panic!("expected a delete"),
    }
    match handle_put_request("PUT /users/4 HTTP/1.1", Some(user("n", "n@x.org"))) {
        Step::Connect(Statement::CheckExists { id, username, email }) => {
            assert_eq!((id, username.as_str(), email.as_str()), (4, "n", "n@x.org"))
        }
        _ => panic!("expected an existence check"),
    }
}

#[test]
fn no_connection_is_internal_error() {
    let s = Statement::Insert { username: "a".to_string(), email: "a@example.com".to_string() };
    assert_eq!(text_of(&after_connect(s, false)), (Status::InternalError, "Error".to_string()));
    let s = Statement::Insert { username: "a".to_string(), email: "bad".to_string() };
    assert_eq!(text_of(&after_connect(s, false)), (Status::InternalError, "Error".to_string()));
}

#[test]
fn email_check_runs_on_connect() {
    let s = Statement::Insert { username: "a".to_string(), email: "a@example.com".to_string() };
    assert!(matches!(after_connect(s, true), Step::Run(Statement::Insert { .. })));
    let s = Statement::Insert { username: "a".to_string(), email: "a@@".to_string() };
    assert_eq!(
        text_of(&after_connect(s, true)),
        (Status::InternalError, "Invalid email format".to_string())
    );
    assert!(matches!(after_connect(Statement::DeleteRow { id: 1 }, true), Step::Run(_)));
}

#[test]
fn failed_statements() {
    let ins = Statement::Insert { username: "a".to_string(), email: "a@example.com".to_string() };
    assert_eq!(
        text_of(&after_statement(ins, Outcome::Failed)),
        (Status::InternalError, "Error".to_string())
    );
    assert_eq!(
        text_of(&after_statement(Statement::SelectOne { id: 1 }, Outcome::Failed)),
        (Status::NotFound, "User not found".to_string())
    );
    assert_eq!(
        text_of(&after_statement(Statement::SelectAll, Outcome::Failed)),
        (Status::InternalError, "Error".to_string())
    );
    assert_eq!(
        text_of(&after_statement(Statement::DeleteRow { id: 1 }, Outcome::Failed)),
        (Status::InternalError, "Error".to_string())
    );
    assert_eq!(
        text_of(&after_statement(Statement::DeleteRow { id: 1 }, Outcome::Affected(0))),
        (Status::NotFound, "User not found".to_string())
    );
}

#[test]
fn body_after_first_blank_line() {
    assert_eq!(request_body("POST /users\r\nA: b\r\n\r\n{\"x\":1}"), "{\"x\":1}");
    assert_eq!(request_body("POST /users\r\n\r\nab\r\n\r\ncd"), "ab\r\n\r\ncd");
    assert_eq!(request_body("POST /users\r\n"), "");
    assert_eq!(request_body("POST /users\r\n\r\n"), "");
    assert_eq!(request_body(""), "");
}

#[test]
fn render_puts_status_before_body() {
    assert_eq!(
        render(Status::Success, "User created"),
        "HTTP/1.1 200 OK\r\nContent-Type: application/json\r\n\r\nUser created"
    );
    assert_eq!(render(Status::NotFound, "x"), format!("{}x", NOT_FOUND));
    assert_eq!(render(Status::InternalError, ""), INTERNAL_SERVER_ERROR);
    assert!(OK_RESPONSE.starts_with("HTTP/1.1 200 OK"));
}
