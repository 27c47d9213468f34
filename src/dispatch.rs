//! The decisions of each resource operation, as a step function: the caller
//! opens the store connection and runs the statements that a step names, and
//! hands each result back to get the next step, until a reply.
use crate::email::{email_ok, validate_email};
use crate::model::{
    Body, BodyModel, Outcome, OutcomeModel, Response, ResponseModel, Statement, StatementModel,
    Status, Step, StepModel, User, UserModel, users_view, status_text, OK_RESPONSE, NOT_FOUND,
    INTERNAL_SERVER_ERROR,
};
use crate::request::{Route, get_id, id_text, parse_i32, parse_id, route, route_of};
use vstd::prelude::*;

verus! {

pub open spec fn reply(status: Status, msg: Seq<char>) -> StepModel {
    StepModel::Reply(ResponseModel { status, body: BodyModel::Text(msg) })
}

pub open spec fn error_reply() -> StepModel {
    reply(Status::InternalError, "Error"@)
}

pub open spec fn not_found_reply() -> StepModel {
    reply(Status::NotFound, "User not found"@)
}

pub open spec fn user_opt(u: Option<User>) -> Option<UserModel> {
    match u {
        Some(x) => Some(x@),
        None => None,
    }
}

/// First step of a create request: insert the decoded user's fields.
pub open spec fn post_start(user: Option<UserModel>) -> StepModel {
    match user {
        Some(u) => StepModel::Connect(StatementModel::Insert { username: u.username, email: u.email }),
        None => error_reply(),
    }
}

/// First step of a read-one request: fetch the row of the path's id.
pub open spec fn get_start(request: Seq<char>) -> StepModel {
    match parse_i32(id_text(request)) {
        Some(i) => StepModel::Connect(StatementModel::SelectOne { id: i }),
        None => error_reply(),
    }
}

/// First step of an update request: check that the path's id exists.
pub open spec fn put_start(request: Seq<char>, user: Option<UserModel>) -> StepModel {
    match (parse_i32(id_text(request)), user) {
        (Some(i), Some(u)) => StepModel::Connect(
            StatementModel::CheckExists { id: i, username: u.username, email: u.email },
        ),
        _ => error_reply(),
    }
}

/// First step of a delete request: remove the row of the path's id.
pub open spec fn delete_start(request: Seq<char>) -> StepModel {
    match parse_i32(id_text(request)) {
        Some(i) => StepModel::Connect(StatementModel::DeleteRow { id: i }),
        None => error_reply(),
    }
}

/// The first step of a request, given the user its body decodes to, if any.
pub open spec fn start_of(request: Seq<char>, user: Option<UserModel>) -> StepModel {
    match route_of(request) {
        Route::Create => post_start(user),
        Route::ReadOne => get_start(request),
        Route::ReadAll => StepModel::Connect(StatementModel::SelectAll),
        Route::Update => put_start(request, user),
        Route::Delete => delete_start(request),
        Route::Unmatched => reply(Status::NotFound, "404 Not Found"@),
    }
}

/// The email that must pass the format check before `s` runs, if any.
pub open spec fn email_to_check(s: StatementModel) -> Option<Seq<char>> {
    match s {
        StatementModel::Insert { email, .. } => Some(email),
        StatementModel::CheckExists { email, .. } => Some(email),
        _ => None,
    }
}

/// The step after trying to connect to the store for statement `s`.
pub open spec fn after_connect_of(s: StatementModel, connected: bool) -> StepModel {
    if !connected {
        error_reply()
    } else if email_to_check(s) is Some && !email_ok(email_to_check(s)->Some_0) {
        reply(Status::InternalError, "Invalid email format"@)
    } else {
        StepModel::Run(s)
    }
}

/// The step after statement `s` ran with outcome `o`.
pub open spec fn after_statement_of(s: StatementModel, o: OutcomeModel) -> StepModel {
    match s {
        StatementModel::Insert { .. } => match o {
            OutcomeModel::Affected(_) => reply(Status::Success, "User created"@),
            _ => error_reply(),
        },
        StatementModel::SelectOne { .. } => match o {
            OutcomeModel::Rows(rows) => if rows.len() == 1 {
                StepModel::Reply(
                    ResponseModel { status: Status::Success, body: BodyModel::One(rows[0]) },
                )
            } else {
                not_found_reply()
            },
            _ => not_found_reply(),
        },
        StatementModel::SelectAll => match o {
            OutcomeModel::Rows(rows) => StepModel::Reply(
                ResponseModel { status: Status::Success, body: BodyModel::All(rows) },
            ),
            _ => error_reply(),
        },
        StatementModel::CheckExists { id, username, email } => match o {
            OutcomeModel::Rows(rows) => if rows.len() == 1 {
                StepModel::Run(StatementModel::UpdateRow { id, username, email })
            } else {
                not_found_reply()
            },
            _ => not_found_reply(),
        },
        StatementModel::UpdateRow { .. } => match o {
            OutcomeModel::Affected(_) => reply(Status::Success, "User updated"@),
            _ => error_reply(),
        },
        StatementModel::DeleteRow { .. } => match o {
            OutcomeModel::Affected(n) => if n == 0 {
                not_found_reply()
            } else {
                reply(Status::Success, "User deleted"@)
            },
            _ => error_reply(),
        },
    }
}

fn text_reply(status: Status, msg: &str) -> (r: Step)
    ensures
        r@ == reply(status, msg@),
{
    Step::Reply(Response { status, body: Body::Text(String::from_str(msg)) })
}

fn error_step() -> (r: Step)
    ensures
        r@ == error_reply(),
{
    text_reply(Status::InternalError, "Error")
}

fn not_found_step() -> (r: Step)
    ensures
        r@ == not_found_reply(),
{
    text_reply(Status::NotFound, "User not found")
}

/// First step of a create request: insert the decoded user's fields.
pub fn handle_post_request(user: Option<User>) -> (r: Step)
    ensures
        r@ == post_start(user_opt(user)),
{
    match user {
        Some(u) => Step::Connect(Statement::Insert { username: u.username, email: u.email }),
        None => error_step(),
    }
}

/// First step of a read-one request.
pub fn handle_get_request(request: &str) -> (r: Step)
    ensures
        r@ == get_start(request@),
{
    match parse_id(get_id(request)) {
        Some(id) => Step::Connect(Statement::SelectOne { id }),
        None => error_step(),
    }
}

/// First step of a read-all request.
pub fn handle_get_all_request() -> (r: Step)
    ensures
        r@ == StepModel::Connect(StatementModel::SelectAll),
{
    Step::Connect(Statement::SelectAll)
}

/// First step of an update request.
pub fn handle_put_request(request: &str, user: Option<User>) -> (r: Step)
    ensures
        r@ == put_start(request@, user_opt(user)),
{
    match (parse_id(get_id(request)), user) {
        (Some(id), Some(u)) => Step::Connect(
            Statement::CheckExists { id, username: u.username, email: u.email },
        ),
        _ => error_step(),
    }
}

/// First step of a delete request.
pub fn handle_delete_request(request: &str) -> (r: Step)
    ensures
        r@ == delete_start(request@),
{
    match parse_id(get_id(request)) {
        Some(id) => Step::Connect(Statement::DeleteRow { id }),
        None => error_step(),
    }
}

/// First step of any request: routes it, and starts the operation it asks
/// for. `user` is what the request's body decodes to, if it decodes.
pub fn handle_request(request: &str, user: Option<User>) -> (r: Step)
    ensures
        r@ == start_of(request@, user_opt(user)),
{
    match route(request) {
        Route::Create => handle_post_request(user),
        Route::ReadOne => handle_get_request(request),
        Route::ReadAll => handle_get_all_request(),
        Route::Update => handle_put_request(request, user),
        Route::Delete => handle_delete_request(request),
        Route::Unmatched => text_reply(Status::NotFound, "404 Not Found"),
    }
}

/// The step after trying to connect to the store for `stmt`: an error
/// without a connection, the email check where `stmt` carries an email
/// from the client, then the statement itself.
pub fn after_connect(stmt: Statement, connected: bool) -> (r: Step)
    ensures
        r@ == after_connect_of(stmt@, connected),
        connected && email_to_check(stmt@) is Some && !email_to_check(stmt@)->Some_0.contains('@')
            ==> r@ == reply(Status::InternalError, "Invalid email format"@),
{
    if !connected {
        return error_step();
    }
    let valid = match &stmt {
        Statement::Insert { email, .. } => validate_email(email.as_str()),
        Statement::CheckExists { email, .. } => validate_email(email.as_str()),
        _ => true,
    };
    if !valid {
        text_reply(Status::InternalError, "Invalid email format")
    } else {
        Step::Run(stmt)
    }
}

/// The step after `stmt` ran with outcome `outcome`.
pub fn after_statement(stmt: Statement, outcome: Outcome) -> (r: Step)
    ensures
        r@ == after_statement_of(stmt@, outcome@),
{
    match stmt {
        Statement::Insert { .. } => match outcome {
            Outcome::Affected(_) => text_reply(Status::Success, "User created"),
            _ => error_step(),
        },
        Statement::SelectOne { .. } => match outcome {
            Outcome::Rows(mut rows) => {
                if rows.len() == 1 {
                    let ghost before = rows@;
                    let u = rows.pop().unwrap();
                    assert(users_view(before)[0] == before[0]@);
                    Step::Reply(Response { status: Status::Success, body: Body::One(u) })
                } else {
                    not_found_step()
                }
            },
            _ => not_found_step(),
        },
        Statement::SelectAll => match outcome {
            Outcome::Rows(rows) => Step::Reply(
                Response { status: Status::Success, body: Body::All(rows) },
            ),
            _ => error_step(),
        },
        Statement::CheckExists { id, username, email } => match outcome {
            Outcome::Rows(rows) => {
                if rows.len() == 1 {
                    Step::Run(Statement::UpdateRow { id, username, email })
                } else {
                    not_found_step()
                }
            },
            _ => not_found_step(),
        },
        Statement::UpdateRow { .. } => match outcome {
            Outcome::Affected(_) => text_reply(Status::Success, "User updated"),
            _ => error_step(),
        },
        Statement::DeleteRow { .. } => match outcome {
            Outcome::Affected(n) => {
                if n == 0 {
                    not_found_step()
                } else {
                    text_reply(Status::Success, "User deleted")
                }
            },
            _ => error_step(),
        },
    }
}

/// The bytes sent back: the status-line block of `status`, then `body`.
pub fn render(status: Status, body: &str) -> (r: String)
    ensures
        r@ == status_text(status) + body@,
{
    let head = match status {
        Status::Success => OK_RESPONSE,
        Status::NotFound => NOT_FOUND,
        Status::InternalError => INTERNAL_SERVER_ERROR,
    };
    String::from_str(head).concat(body)
}

} // verus!
