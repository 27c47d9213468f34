//! A model of the users table and of what each statement the service sends
//! does to it, by the meaning of that SQL; with it, whole requests can be
//! followed from the table before to the table after.
use crate::dispatch::{after_connect_of, after_statement_of, start_of};
use crate::model::{OutcomeModel, StatementModel, StepModel, UserModel};
use vstd::prelude::*;

verus! {

/// The users table: each id's username and email.
pub type Table = Map<i32, (Seq<char>, Seq<char>)>;

pub open spec fn row_of(t: Table, id: i32) -> UserModel {
    UserModel { id: Some(id), username: t[id].0, email: t[id].1 }
}

/// The rows with this id: one or none, `id` being the primary key.
pub open spec fn rows_with(t: Table, id: i32) -> Seq<UserModel> {
    if t.contains_key(id) {
        seq![row_of(t, id)]
    } else {
        Seq::empty()
    }
}

/// Every row, in some order.
pub open spec fn all_rows(t: Table) -> Seq<UserModel> {
    t.dom().to_seq().map_values(|id: i32| row_of(t, id))
}

/// What statement `s` does to table `t`, and what the store reports for it;
/// `fresh` is the id that the store gives a new row.
pub open spec fn apply(t: Table, s: StatementModel, fresh: i32) -> (Table, OutcomeModel) {
    match s {
        StatementModel::Insert { username, email } => (
            t.insert(fresh, (username, email)),
            OutcomeModel::Affected(1),
        ),
        StatementModel::SelectOne { id } => (t, OutcomeModel::Rows(rows_with(t, id))),
        StatementModel::SelectAll => (t, OutcomeModel::Rows(all_rows(t))),
        StatementModel::CheckExists { id, .. } => (t, OutcomeModel::Rows(rows_with(t, id))),
        StatementModel::UpdateRow { id, username, email } => if t.contains_key(id) {
            (t.insert(id, (username, email)), OutcomeModel::Affected(1))
        } else {
            (t, OutcomeModel::Affected(0))
        },
        StatementModel::DeleteRow { id } => if t.contains_key(id) {
            (t.remove(id), OutcomeModel::Affected(1))
        } else {
            (t, OutcomeModel::Affected(0))
        },
    }
}

/// A whole request served against table `t` with the store reachable: the
/// steps of `dispatch`, each statement applied as `apply` says. No request
/// runs more than two statements, so two rounds reach the reply.
pub open spec fn serve(t: Table, request: Seq<char>, user: Option<UserModel>, fresh: i32) -> (
    Table,
    StepModel,
) {
    match start_of(request, user) {
        StepModel::Connect(s) => match after_connect_of(s, true) {
            StepModel::Run(q) => {
                let (t2, o) = apply(t, q, fresh);
                match after_statement_of(q, o) {
                    StepModel::Run(q2) => {
                        let (t3, o2) = apply(t2, q2, fresh);
                        (t3, after_statement_of(q2, o2))
                    },
                    other => (t2, other),
                }
            },
            other => (t, other),
        },
        other => (t, other),
    }
}

} // verus!
