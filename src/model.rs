//! The user record, responses, store statements and their outcomes, each
//! with the mathematical value that contracts speak of.
use vstd::prelude::*;

verus! {

/// A user record. `id` is assigned by the store and absent on requests
/// that create one.
pub struct User {
    pub id: Option<i32>,
    pub username: String,
    pub email: String,
}

pub struct UserModel {
    pub id: Option<i32>,
    pub username: Seq<char>,
    pub email: Seq<char>,
}

impl View for User {
    type V = UserModel;

    open spec fn view(&self) -> UserModel {
        UserModel { id: self.id, username: self.username@, email: self.email@ }
    }
}

pub open spec fn users_view(v: Seq<User>) -> Seq<UserModel> {
    v.map_values(|u: User| u@)
}

/// The three statuses a response can carry.
#[derive(PartialEq, Eq, Structural, Clone, Copy, Debug)]
pub enum Status {
    Success,
    NotFound,
    InternalError,
}

pub const OK_RESPONSE: &'static str = "HTTP/1.1 200 OK\r\nContent-Type: application/json\r\n\r\n";

pub const NOT_FOUND: &'static str = "HTTP/1.1 404 NOT FOUND\r\n\r\n";

pub const INTERNAL_SERVER_ERROR: &'static str = "HTTP/1.1 500 INTERNAL SERVER ERROR\r\n\r\n";

/// The status-line block that starts a response of status `s`.
pub open spec fn status_text(s: Status) -> Seq<char> {
    match s {
        Status::Success => OK_RESPONSE@,
        Status::NotFound => NOT_FOUND@,
        Status::InternalError => INTERNAL_SERVER_ERROR@,
    }
}

/// What a response carries after its status line: a message, one user,
/// or every user; the last two are written out as JSON.
pub enum Body {
    Text(String),
    One(User),
    All(Vec<User>),
}

pub enum BodyModel {
    Text(Seq<char>),
    One(UserModel),
    All(Seq<UserModel>),
}

impl View for Body {
    type V = BodyModel;

    open spec fn view(&self) -> BodyModel {
        match self {
            Body::Text(t) => BodyModel::Text(t@),
            Body::One(u) => BodyModel::One(u@),
            Body::All(v) => BodyModel::All(users_view(v@)),
        }
    }
}

pub struct Response {
    pub status: Status,
    pub body: Body,
}

pub struct ResponseModel {
    pub status: Status,
    pub body: BodyModel,
}

impl View for Response {
    type V = ResponseModel;

    open spec fn view(&self) -> ResponseModel {
        ResponseModel { status: self.status, body: self.body@ }
    }
}

/// A statement for the store, with its parameters.
pub enum Statement {
    /// Add a row with these fields; the store assigns its id.
    Insert { username: String, email: String },
    /// Fetch the row with this id.
    SelectOne { id: i32 },
    /// Fetch every row, in the store's order.
    SelectAll,
    /// Fetch the row with this id, to learn whether an update can go ahead.
    CheckExists { id: i32, username: String, email: String },
    /// Set the fields of the row with this id.
    UpdateRow { id: i32, username: String, email: String },
    /// Remove the row with this id.
    DeleteRow { id: i32 },
}

pub enum StatementModel {
    Insert { username: Seq<char>, email: Seq<char> },
    SelectOne { id: i32 },
    SelectAll,
    CheckExists { id: i32, username: Seq<char>, email: Seq<char> },
    UpdateRow { id: i32, username: Seq<char>, email: Seq<char> },
    DeleteRow { id: i32 },
}

impl View for Statement {
    type V = StatementModel;

    open spec fn view(&self) -> StatementModel {
        match self {
            Statement::Insert { username, email } => StatementModel::Insert {
                username: username@,
                email: email@,
            },
            Statement::SelectOne { id } => StatementModel::SelectOne { id: *id },
            Statement::SelectAll => StatementModel::SelectAll,
            Statement::CheckExists { id, username, email } => StatementModel::CheckExists {
                id: *id,
                username: username@,
                email: email@,
            },
            Statement::UpdateRow { id, username, email } => StatementModel::UpdateRow {
                id: *id,
                username: username@,
                email: email@,
            },
            Statement::DeleteRow { id } => StatementModel::DeleteRow { id: *id },
        }
    }
}

/// What the store reported for a statement.
pub enum Outcome {
    /// The statement failed (or no connection was made).
    Failed,
    /// The rows a query returned.
    Rows(Vec<User>),
    /// How many rows a statement changed.
    Affected(u64),
}

pub enum OutcomeModel {
    Failed,
    Rows(Seq<UserModel>),
    Affected(u64),
}

impl View for Outcome {
    type V = OutcomeModel;

    open spec fn view(&self) -> OutcomeModel {
        match self {
            Outcome::Failed => OutcomeModel::Failed,
            Outcome::Rows(v) => OutcomeModel::Rows(users_view(v@)),
            Outcome::Affected(n) => OutcomeModel::Affected(*n),
        }
    }
}

/// The next thing to do for a request.
pub enum Step {
    /// Open a store connection, then hand `after_connect` this statement.
    Connect(Statement),
    /// Run this statement, then hand `after_statement` its outcome.
    Run(Statement),
    /// Send this response and close.
    Reply(Response),
}

pub enum StepModel {
    Connect(StatementModel),
    Run(StatementModel),
    Reply(ResponseModel),
}

impl View for Step {
    type V = StepModel;

    open spec fn view(&self) -> StepModel {
        match self {
            Step::Connect(s) => StepModel::Connect(s@),
            Step::Run(s) => StepModel::Run(s@),
            Step::Reply(r) => StepModel::Reply(r@),
        }
    }
}

} // verus!
