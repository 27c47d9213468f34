//! Properties of the request decisions that span several steps.
use crate::dispatch::{
    after_connect_of, after_statement_of, email_to_check, not_found_reply, reply, start_of,
};
use crate::email::email_ok;
use crate::model::{
    BodyModel, OutcomeModel, ResponseModel, StatementModel, Status, StepModel, UserModel,
};
use crate::request::{Route, id_text, parse_i32, route_of};
use crate::table::{Table, serve};
use vstd::prelude::*;

verus! {

/// A create request whose body decodes to a user with an accepted email runs
/// exactly one statement, an insert of that user's username and email, and
/// answers "User created" once the store reports the insert.
pub proof fn create_inserts_once(request: Seq<char>, u: UserModel, n: u64)
    requires
        route_of(request) == Route::Create,
        email_ok(u.email),
    ensures
        ({
            let ins = StatementModel::Insert { username: u.username, email: u.email };
            &&& start_of(request, Some(u)) == StepModel::Connect(ins)
            &&& after_connect_of(ins, true) == StepModel::Run(ins)
            &&& after_statement_of(ins, OutcomeModel::Affected(n)) == reply(
                Status::Success,
                "User created"@,
            )
        }),
{
}

/// A create request whose email the format check refuses is answered with
/// the validation error before any statement runs.
pub proof fn create_refuses_bad_email(request: Seq<char>, u: UserModel)
    requires
        route_of(request) == Route::Create,
        !email_ok(u.email),
    ensures
        ({
            let ins = StatementModel::Insert { username: u.username, email: u.email };
            &&& start_of(request, Some(u)) == StepModel::Connect(ins)
            &&& after_connect_of(ins, true) == reply(
                Status::InternalError,
                "Invalid email format"@,
            )
        }),
{
    assert(email_to_check(StatementModel::Insert { username: u.username, email: u.email })
        == Some(u.email));
}

/// Reading an id that the store has no row for answers not-found.
pub proof fn read_missing_not_found(id: i32)
    ensures
        after_statement_of(
            StatementModel::SelectOne { id },
            OutcomeModel::Rows(Seq::empty()),
        ) == not_found_reply(),
{
}

/// Reading an id whose row the store returns answers with that row.
pub proof fn read_found_returns_row(id: i32, row: UserModel)
    ensures
        after_statement_of(StatementModel::SelectOne { id }, OutcomeModel::Rows(seq![row]))
            == StepModel::Reply(
            ResponseModel {
                status: Status::Success,
                body: BodyModel::One(row),
            },
        ),
{
}

/// An update of an existing id sets exactly the requested username and email
/// on that id, then answers "User updated"; an update of a missing id
/// answers not-found and runs no update.
pub proof fn update_sets_fields(
    id: i32,
    username: Seq<char>,
    email: Seq<char>,
    row: UserModel,
    n: u64,
)
    ensures
        after_statement_of(
            StatementModel::CheckExists { id, username, email },
            OutcomeModel::Rows(seq![row]),
        ) == StepModel::Run(StatementModel::UpdateRow { id, username, email }),
        after_statement_of(
            StatementModel::UpdateRow { id, username, email },
            OutcomeModel::Affected(n),
        ) == reply(Status::Success, "User updated"@),
        after_statement_of(
            StatementModel::CheckExists { id, username, email },
            OutcomeModel::Rows(Seq::empty()),
        ) == not_found_reply(),
{
}

/// A delete that removed a row answers "User deleted"; one that removed none
/// answers not-found.
pub proof fn delete_reports_removal(id: i32, n: u64)
    ensures
        n > 0 ==> after_statement_of(StatementModel::DeleteRow { id }, OutcomeModel::Affected(n))
            == reply(Status::Success, "User deleted"@),
        n == 0 ==> after_statement_of(StatementModel::DeleteRow { id }, OutcomeModel::Affected(n))
            == not_found_reply(),
{
}

/// A request that matches no route is answered not-found at once, whatever
/// its body.
pub proof fn unmatched_not_found(request: Seq<char>, user: Option<UserModel>)
    requires
        route_of(request) == Route::Unmatched,
    ensures
        start_of(request, user) == reply(Status::NotFound, "404 Not Found"@),
{
}

/// Every request, on every table, ends in a reply within two statements.
pub proof fn every_request_replies(
    t: Table,
    request: Seq<char>,
    user: Option<UserModel>,
    fresh: i32,
)
    ensures
        serve(t, request, user, fresh).1 is Reply,
{
}

/// Creating a user with an accepted email adds exactly one row, holding its
/// username and email under the id the store gives it: the table grows by one.
pub proof fn create_adds_one_row(t: Table, request: Seq<char>, u: UserModel, fresh: i32)
    requires
        route_of(request) == Route::Create,
        email_ok(u.email),
        t.dom().finite(),
        !t.contains_key(fresh),
    ensures
        serve(t, request, Some(u), fresh).0 == t.insert(fresh, (u.username, u.email)),
        serve(t, request, Some(u), fresh).0.dom().len() == t.dom().len() + 1,
        serve(t, request, Some(u), fresh).1 == reply(Status::Success, "User created"@),
{
    assert(serve(t, request, Some(u), fresh).0.dom() == t.dom().insert(fresh));
}

/// Creating a user whose email the check refuses leaves the table as it was.
pub proof fn bad_email_adds_no_row(t: Table, request: Seq<char>, u: UserModel, fresh: i32)
    requires
        route_of(request) == Route::Create,
        !email_ok(u.email),
    ensures
        serve(t, request, Some(u), fresh).0 == t,
        serve(t, request, Some(u), fresh).1 == reply(
            Status::InternalError,
            "Invalid email format"@,
        ),
{
    create_refuses_bad_email(request, u);
}

/// Reading an id that has no row answers not-found and changes nothing.
pub proof fn read_of_missing_id(t: Table, request: Seq<char>, id: i32, fresh: i32)
    requires
        route_of(request) == Route::ReadOne,
        parse_i32(id_text(request)) == Some(id),
        !t.contains_key(id),
    ensures
        serve(t, request, None, fresh).0 == t,
        serve(t, request, None, fresh).1 == not_found_reply(),
{
}

/// Updating an existing id answers "User updated", and a read of that id
/// afterwards returns exactly the new username and email.
pub proof fn update_then_read(
    t: Table,
    put: Seq<char>,
    get: Seq<char>,
    id: i32,
    u: UserModel,
    fresh: i32,
)
    requires
        route_of(put) == Route::Update,
        route_of(get) == Route::ReadOne,
        parse_i32(id_text(put)) == Some(id),
        parse_i32(id_text(get)) == Some(id),
        t.contains_key(id),
        email_ok(u.email),
    ensures
        serve(t, put, Some(u), fresh).1 == reply(Status::Success, "User updated"@),
        serve(serve(t, put, Some(u), fresh).0, get, None, fresh).1 == StepModel::Reply(
            ResponseModel {
                status: Status::Success,
                body: BodyModel::One(UserModel { id: Some(id), username: u.username, email: u.email }),
            },
        ),
{
    let ce = StatementModel::CheckExists { id, username: u.username, email: u.email };
    assert(email_to_check(ce) == Some(u.email));
}

/// Updating an id that has no row answers not-found and changes nothing.
pub proof fn update_of_missing_id(t: Table, put: Seq<char>, id: i32, u: UserModel, fresh: i32)
    requires
        route_of(put) == Route::Update,
        parse_i32(id_text(put)) == Some(id),
        !t.contains_key(id),
        email_ok(u.email),
    ensures
        serve(t, put, Some(u), fresh).0 == t,
        serve(t, put, Some(u), fresh).1 == not_found_reply(),
{
    let ce = StatementModel::CheckExists { id, username: u.username, email: u.email };
    assert(email_to_check(ce) == Some(u.email));
}

/// Deleting an existing id removes its row and answers "User deleted"; a
/// read of that id afterwards answers not-found.
pub proof fn delete_then_read(t: Table, del: Seq<char>, get: Seq<char>, id: i32, fresh: i32)
    requires
        route_of(del) == Route::Delete,
        route_of(get) == Route::ReadOne,
        parse_i32(id_text(del)) == Some(id),
        parse_i32(id_text(get)) == Some(id),
        t.contains_key(id),
    ensures
        serve(t, del, None, fresh).0 == t.remove(id),
        serve(t, del, None, fresh).1 == reply(Status::Success, "User deleted"@),
        serve(serve(t, del, None, fresh).0, get, None, fresh).1 == not_found_reply(),
{
}

/// Deleting an id that has no row answers not-found and changes nothing.
pub proof fn delete_of_missing_id(t: Table, del: Seq<char>, id: i32, fresh: i32)
    requires
        route_of(del) == Route::Delete,
        parse_i32(id_text(del)) == Some(id),
        !t.contains_key(id),
    ensures
        serve(t, del, None, fresh).0 == t,
        serve(t, del, None, fresh).1 == not_found_reply(),
{
}

} // verus!
