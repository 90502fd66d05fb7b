//! The user resource under the integer identity scheme: rows of the table
//! `users`, addressed by a key that the store assigns and counts up.
//!
//! Each operation has two halves. The first takes the request and returns
//! what to do next: for the operations that carry a body a [`Step`], which
//! is a reply or the one statement to send, and for the others the
//! statement itself. The second half takes what the store handed back and
//! returns the reply.

use vstd::prelude::*;
use crate::response::{
    failed, failure_reply, found, listed, record_reply, records_reply, rejected, rejection_reply,
    server_error, server_error_reply, views, Config, ConfigView, Response, ResponseView, Signaling,
    STATUS_OK,
};
use crate::statement::{numbered_once, ordinals_from, Statement, StatementView};
use crate::step::{Step, StepView};
use crate::store::{
    all_rows, fetch_all, fetch_one, only_row, Fetched, FetchedView, StoreFailure,
};
use crate::validation::{name_accepted, validate_name, validation_of, Validation};
use crate::value::{as_integer, as_text, cells, table, text_value, Row, Value, ValueView};

verus! {

/// Text of the statement that reads every user.
pub const SELECT_USERS: &'static str = "SELECT firstname, lastname FROM users";

/// Text of the statement that reads one user.
pub const SELECT_USER: &'static str = "SELECT firstname, lastname FROM users WHERE id = $1";

/// Text of the statement that stores a new user.
pub const INSERT_USER: &'static str =
    "INSERT INTO users (firstname, lastname) VALUES ($1, $2) RETURNING id, firstname, lastname";

/// Text of the statement that changes one user.
pub const UPDATE_USER: &'static str =
    "UPDATE users SET firstname = $1, lastname = $2 WHERE id = $3 RETURNING firstname, lastname";

/// Text of the statement that removes one user.
pub const DELETE_USER: &'static str = "DELETE FROM users WHERE id = $1 RETURNING firstname, lastname";

/// Message of a failed listing.
pub const LIST_FAILED: &'static str = "Failed to get users";

/// Message of a failed lookup.
pub const GET_FAILED: &'static str = "Failed to get user";

/// Message of a failed creation.
pub const CREATE_FAILED: &'static str = "Failed to create user";

/// Message of a failed update.
pub const UPDATE_FAILED: &'static str = "Failed to update user";

/// Message of a failed removal.
pub const DELETE_FAILED: &'static str = "Failed to delete user";

/// A user as callers send and receive it.
#[derive(Debug, Clone, PartialEq, Eq)]
pub struct User {
    /// The primary name field; it must not be empty.
    pub firstname: String,
    pub lastname: String,
}

/// Mathematical value of a [`User`].
pub struct UserView {
    pub firstname: Seq<char>,
    pub lastname: Seq<char>,
}

impl View for User {
    type V = UserView;

    open spec fn view(&self) -> UserView {
        UserView { firstname: self.firstname@, lastname: self.lastname@ }
    }
}

impl User {
    /// Checks the one rule on a user: `firstname` must hold at least one
    /// character. A user that breaks it is rejected with `reason`.
    pub fn validate(&self, reason: &str) -> (verdict: Validation)
        ensures
            verdict@ == validation_of(self.firstname@, reason@),
    {
        validate_name(&self.firstname, reason)
    }
}

/// A user as the store holds it: the content and the key that the store
/// assigned.
#[derive(Debug, Clone, PartialEq, Eq)]
pub struct StoredUser {
    pub id: i32,
    pub user: User,
}

/// Mathematical value of a [`StoredUser`].
pub struct StoredUserView {
    pub id: int,
    pub user: UserView,
}

impl View for StoredUser {
    type V = StoredUserView;

    open spec fn view(&self) -> StoredUserView {
        StoredUserView { id: self.id as int, user: self.user@ }
    }
}

/// The user that a row of the columns `firstname, lastname` holds, if the
/// row has that shape: two cells, both text.
pub open spec fn user_of(row: Seq<ValueView>) -> Option<UserView> {
    if row.len() == 2 {
        match (row[0], row[1]) {
            (ValueView::Text(firstname), ValueView::Text(lastname)) => Some(
                UserView { firstname, lastname },
            ),
            _ => None,
        }
    } else {
        None
    }
}

/// The stored user that a row of the columns `id, firstname, lastname`
/// holds, if the row has that shape: an integer cell, then two text cells.
pub open spec fn stored_user_of(row: Seq<ValueView>) -> Option<StoredUserView> {
    if row.len() == 3 {
        match (row[0], row[1], row[2]) {
            (
                ValueView::Integer(id),
                ValueView::Text(firstname),
                ValueView::Text(lastname),
            ) => Some(StoredUserView { id, user: UserView { firstname, lastname } }),
            _ => None,
        }
    } else {
        None
    }
}

/// The users that the rows hold, in the rows' order, if every row has the
/// shape of a user.
pub open spec fn users_of(rows: Seq<Seq<ValueView>>) -> Option<Seq<UserView>> {
    if forall|i: int| 0 <= i < rows.len() ==> (#[trigger] user_of(rows[i])) is Some {
        Some(Seq::new(rows.len(), |i: int| user_of(rows[i]).unwrap()))
    } else {
        None
    }
}

/// The values that stand for a user's content in a statement or a row, in
/// column order.
pub open spec fn content_of(user: UserView) -> Seq<ValueView> {
    seq![ValueView::Text(user.firstname), ValueView::Text(user.lastname)]
}

/// Decodes one row of the columns `firstname, lastname`, cell by cell.
pub fn decode_user(row: &Row) -> (user: Option<User>)
    ensures
        match user_of(cells(row@)) {
            Some(held) => user matches Some(found) && found@ == held,
            None => user is None,
        },
{
    if row.len() != 2 {
        return None;
    }
    match (as_text(&row[0]), as_text(&row[1])) {
        (Some(firstname), Some(lastname)) => Some(User { firstname, lastname }),
        _ => None,
    }
}

/// Decodes one row of the columns `id, firstname, lastname`, cell by cell.
pub fn decode_stored_user(row: &Row) -> (stored: Option<StoredUser>)
    ensures
        match stored_user_of(cells(row@)) {
            Some(held) => stored matches Some(found) && found@ == held,
            None => stored is None,
        },
{
    if row.len() != 3 {
        return None;
    }
    match (as_integer(&row[0]), as_text(&row[1]), as_text(&row[2])) {
        (Some(id), Some(firstname), Some(lastname)) => Some(
            StoredUser { id, user: User { firstname, lastname } },
        ),
        _ => None,
    }
}

/// Decodes every row of a result set, keeping the order. One row of
/// another shape spoils the whole set.
pub fn decode_users(rows: &Vec<Row>) -> (users: Option<Vec<User>>)
    ensures
        match users_of(table(rows@)) {
            Some(held) => users matches Some(found) && views(found@) == held,
            None => users is None,
        },
{
    let mut users: Vec<User> = Vec::new();
    let mut at: usize = 0;
    while at < rows.len()
        invariant
            at <= rows.len(),
            users.len() == at,
            forall|i: int|
                0 <= i < at ==> user_of(#[trigger] table(rows@)[i]) == Some(users[i]@),
        decreases rows.len() - at,
    {
        match decode_user(&rows[at]) {
            Some(user) => {
                users.push(user);
            },
            None => {
                assert(user_of(table(rows@)[at as int]) is None);
                return None;
            },
        }
        at += 1;
    }
    Some(users)
}

/// The statement texts of this scheme bind every placeholder once: each
/// holds `$1` up to the number of values that its operation binds, in
/// order.
pub proof fn texts_are_numbered()
    ensures
        numbered_once(SELECT_USERS@, 0),
        numbered_once(SELECT_USER@, 1),
        numbered_once(INSERT_USER@, 2),
        numbered_once(UPDATE_USER@, 3),
        numbered_once(DELETE_USER@, 1),
{
    // Each text is walked from its end in stretches of forty characters, so
    // that no step has to unfold the definition further than that.
    reveal_with_fuel(ordinals_from, 50);
    assert(numbered_once(SELECT_USERS@, 0)) by {
        reveal_strlit("SELECT firstname, lastname FROM users");
    }
    assert(numbered_once(SELECT_USER@, 1)) by {
        reveal_strlit("SELECT firstname, lastname FROM users WHERE id = $1");
        assert(ordinals_from(SELECT_USER@, 40) =~= seq![1int]);
    }
    assert(numbered_once(INSERT_USER@, 2)) by {
        reveal_strlit(
            "INSERT INTO users (firstname, lastname) VALUES ($1, $2) RETURNING id, firstname, lastname",
        );
        assert(ordinals_from(INSERT_USER@, 80) =~= Seq::empty());
        assert(ordinals_from(INSERT_USER@, 40) =~= seq![1int, 2]);
    }
    assert(numbered_once(UPDATE_USER@, 3)) by {
        reveal_strlit(
            "UPDATE users SET firstname = $1, lastname = $2 WHERE id = $3 RETURNING firstname, lastname",
        );
        assert(ordinals_from(UPDATE_USER@, 80) =~= Seq::empty());
        assert(ordinals_from(UPDATE_USER@, 40) =~= seq![2int, 3]);
    }
    assert(numbered_once(DELETE_USER@, 1)) by {
        reveal_strlit("DELETE FROM users WHERE id = $1 RETURNING firstname, lastname");
        assert(ordinals_from(DELETE_USER@, 40) =~= Seq::empty());
    }
}

/// The statement that [`get_users`] returns.
pub open spec fn get_users_statement() -> StatementView {
    StatementView { text: SELECT_USERS@, params: Seq::empty() }
}

/// The statement that [`get_user`] returns.
pub open spec fn get_user_statement(id: int) -> StatementView {
    StatementView { text: SELECT_USER@, params: seq![ValueView::Integer(id)] }
}

/// The statement that [`delete_user`] returns.
pub open spec fn delete_user_statement(id: int) -> StatementView {
    StatementView { text: DELETE_USER@, params: seq![ValueView::Integer(id)] }
}

/// The step that [`add_user`] takes.
pub open spec fn add_user_step(config: ConfigView, body: UserView) -> StepView<StoredUserView> {
    if name_accepted(body.firstname) {
        StepView::Execute(StatementView { text: INSERT_USER@, params: content_of(body) })
    } else {
        StepView::Reply(rejection_reply(config.signaling, config.rejection))
    }
}

/// The step that [`update_user`] takes.
pub open spec fn update_user_step(config: ConfigView, id: int, body: UserView) -> StepView<
    UserView,
> {
    if name_accepted(body.firstname) {
        StepView::Execute(
            StatementView {
                text: UPDATE_USER@,
                params: content_of(body).push(ValueView::Integer(id)),
            },
        )
    } else {
        StepView::Reply(rejection_reply(config.signaling, config.rejection))
    }
}

/// The reply that [`get_users_reply`] gives.
pub open spec fn get_users_outcome(fetched: FetchedView) -> ResponseView<UserView> {
    match all_rows(fetched) {
        Ok(rows) => match users_of(rows) {
            Some(users) => records_reply(users),
            None => server_error_reply(LIST_FAILED@),
        },
        Err(_) => server_error_reply(LIST_FAILED@),
    }
}

/// The reply that [`get_user_reply`] gives.
pub open spec fn get_user_outcome(signaling: Signaling, fetched: FetchedView) -> ResponseView<
    UserView,
> {
    match only_row(fetched) {
        Ok(row) => match user_of(row) {
            Some(user) => record_reply(user),
            None => server_error_reply(GET_FAILED@),
        },
        Err(failure) => failure_reply(signaling, failure, GET_FAILED@),
    }
}

/// The reply that [`add_user_reply`] gives.
pub open spec fn add_user_outcome(fetched: FetchedView) -> ResponseView<StoredUserView> {
    match only_row(fetched) {
        Ok(row) => match stored_user_of(row) {
            Some(stored) => record_reply(stored),
            None => server_error_reply(CREATE_FAILED@),
        },
        Err(_) => server_error_reply(CREATE_FAILED@),
    }
}

/// The reply that [`update_user_reply`] gives.
pub open spec fn update_user_outcome(fetched: FetchedView) -> ResponseView<UserView> {
    match all_rows(fetched) {
        Ok(rows) => match users_of(rows) {
            Some(users) => records_reply(users),
            None => server_error_reply(UPDATE_FAILED@),
        },
        Err(_) => server_error_reply(UPDATE_FAILED@),
    }
}

/// The reply that [`delete_user_reply`] gives.
pub open spec fn delete_user_outcome(signaling: Signaling, fetched: FetchedView) -> ResponseView<
    UserView,
> {
    match only_row(fetched) {
        Ok(row) => match user_of(row) {
            Some(user) => record_reply(user),
            None => server_error_reply(DELETE_FAILED@),
        },
        Err(failure) => failure_reply(signaling, failure, DELETE_FAILED@),
    }
}

/// The values of a user's content, in column order.
fn content(user: &User) -> (params: Vec<Value>)
    ensures
        cells(params@) == content_of(user@),
{
    let mut params: Vec<Value> = Vec::new();
    params.push(text_value(&user.firstname));
    params.push(text_value(&user.lastname));
    params
}

/// First half of the listing of all users: the statement to send. It
/// binds nothing.
pub fn get_users() -> (statement: Statement)
    ensures
        statement@ == get_users_statement(),
        statement@.well_formed(),
{
    let statement = Statement { text: SELECT_USERS, params: Vec::new() };
    proof {
        texts_are_numbered();
        assert(statement@.params =~= Seq::empty());
    }
    statement
}

/// Second half of the listing: the users that the rows hold become the
/// body, in the rows' order. No row at all is a success with an empty
/// sequence. A statement that failed, or a row of another shape, is
/// answered with a server error and the fixed message.
pub fn get_users_reply(fetched: Fetched) -> (response: Response<User>)
    ensures
        response@ == get_users_outcome(fetched@),
{
    match fetch_all(fetched) {
        Ok(rows) => match decode_users(&rows) {
            Some(users) => listed(users),
            None => server_error(LIST_FAILED),
        },
        Err(_) => server_error(LIST_FAILED),
    }
}

/// First half of the lookup of the user with key `id`: the statement to
/// send, with the key bound to its one placeholder.
pub fn get_user(id: i32) -> (statement: Statement)
    ensures
        statement@ == get_user_statement(id as int),
        statement@.well_formed(),
{
    let mut params: Vec<Value> = Vec::new();
    params.push(Value::Integer(id));
    let statement = Statement { text: SELECT_USER, params };
    proof {
        texts_are_numbered();
        assert(statement@.params =~= get_user_statement(id as int).params);
    }
    statement
}

/// Second half of the lookup: exactly one row of the right shape is the
/// user, sent with a success status. Anything else is a failure with the
/// fixed message. Its status is a server error, except that under
/// [`Signaling::Corrected`] a lookup that matched no row is answered with
/// the not-found status.
pub fn get_user_reply(signaling: Signaling, fetched: Fetched) -> (response: Response<User>)
    ensures
        response@ == get_user_outcome(signaling, fetched@),
{
    match fetch_one(fetched) {
        Ok(row) => match decode_user(&row) {
            Some(user) => found(user),
            None => server_error(GET_FAILED),
        },
        Err(failure) => failed(signaling, failure, GET_FAILED),
    }
}

/// First half of the creation of a user.
///
/// A body with an empty `firstname` is rejected with the configured
/// message, and no statement is sent. Otherwise the step is the insert
/// statement with the two fields bound in column order; the text is fixed
/// and holds none of the body.
pub fn add_user(config: &Config, body: &User) -> (step: Step<StoredUser>)
    ensures
        step@ == add_user_step(config@, body@),
        step matches Step::Execute(statement) ==> statement@.well_formed(),
{
    match body.validate(config.rejection.as_str()) {
        Validation::Accepted => {
            let statement = Statement { text: INSERT_USER, params: content(body) };
            proof {
                texts_are_numbered();
            }
            Step::Execute(statement)
        },
        Validation::Rejected(reason) => Step::Reply(rejected(config.signaling, reason)),
    }
}

/// Second half of the creation: exactly one row of the columns
/// `id, firstname, lastname` is the stored user, sent with a success
/// status. Anything else is answered with a server error and the fixed
/// message.
pub fn add_user_reply(fetched: Fetched) -> (response: Response<StoredUser>)
    ensures
        response@ == add_user_outcome(fetched@),
{
    match fetch_one(fetched) {
        Ok(row) => match decode_stored_user(&row) {
            Some(stored) => found(stored),
            None => server_error(CREATE_FAILED),
        },
        Err(_) => server_error(CREATE_FAILED),
    }
}

/// First half of the update of the user with key `id`.
///
/// A body with an empty `firstname` is rejected with the configured
/// message, and no statement is sent. Otherwise the step is the update
/// statement, with the two fields and then the key bound; the text is
/// fixed and holds none of the body.
pub fn update_user(config: &Config, id: i32, body: &User) -> (step: Step<User>)
    ensures
        step@ == update_user_step(config@, id as int, body@),
        step matches Step::Execute(statement) ==> statement@.well_formed(),
{
    match body.validate(config.rejection.as_str()) {
        Validation::Accepted => {
            let mut params = content(body);
            params.push(Value::Integer(id));
            let statement = Statement { text: UPDATE_USER, params };
            proof {
                texts_are_numbered();
                assert(statement@.params =~= content_of(body@).push(ValueView::Integer(id as int)));
            }
            Step::Execute(statement)
        },
        Validation::Rejected(reason) => Step::Reply(rejected(config.signaling, reason)),
    }
}

/// Second half of the update: the rows that the statement returned become
/// the body, in their order. No row at all, which is what an unknown key
/// gives, is a success with an empty sequence. A statement that failed,
/// or a row of another shape, is answered with a server error and the
/// fixed message.
pub fn update_user_reply(fetched: Fetched) -> (response: Response<User>)
    ensures
        response@ == update_user_outcome(fetched@),
{
    match fetch_all(fetched) {
        Ok(rows) => match decode_users(&rows) {
            Some(users) => listed(users),
            None => server_error(UPDATE_FAILED),
        },
        Err(_) => server_error(UPDATE_FAILED),
    }
}

/// First half of the removal of the user with key `id`: the statement to
/// send, with the key bound to its one placeholder.
pub fn delete_user(id: i32) -> (statement: Statement)
    ensures
        statement@ == delete_user_statement(id as int),
        statement@.well_formed(),
{
    let mut params: Vec<Value> = Vec::new();
    params.push(Value::Integer(id));
    let statement = Statement { text: DELETE_USER, params };
    proof {
        texts_are_numbered();
        assert(statement@.params =~= delete_user_statement(id as int).params);
    }
    statement
}

/// Second half of the removal: exactly one row of the right shape is the
/// content that the removed user last had, sent with a success status.
/// Anything else is a failure with the fixed message. Its status is a
/// server error, except that under [`Signaling::Corrected`] a removal that
/// matched no row is answered with the not-found status.
pub fn delete_user_reply(signaling: Signaling, fetched: Fetched) -> (response: Response<User>)
    ensures
        response@ == delete_user_outcome(signaling, fetched@),
{
    match fetch_one(fetched) {
        Ok(row) => match decode_user(&row) {
            Some(user) => found(user),
            None => server_error(DELETE_FAILED),
        },
        Err(failure) => failed(signaling, failure, DELETE_FAILED),
    }
}

/// A body whose `firstname` is empty never reaches the store: creation and
/// update both answer with the configured rejection, and neither sends a
/// statement.
pub proof fn empty_name_sends_nothing(config: ConfigView, id: int, body: UserView)
    requires
        body.firstname.len() == 0,
    ensures
        add_user_step(config, body) == StepView::<StoredUserView>::Reply(
            rejection_reply(config.signaling, config.rejection),
        ),
        update_user_step(config, id, body) == StepView::<UserView>::Reply(
            rejection_reply(config.signaling, config.rejection),
        ),
        add_user_step(config, body).statements_sent() == 0,
        update_user_step(config, id, body).statements_sent() == 0,
{
}

/// The library's share of reading back what was created. For an accepted
/// body, creation sends exactly the body's content; when the store
/// returns the row it made of that content under the key `id`, the reply
/// to the creation carries `id` and the body, the lookup of `id` binds
/// that key, and when the store returns the content for it, the reply to
/// the lookup carries a user equal to the body in every field.
pub proof fn created_user_reads_back(
    config: ConfigView,
    signaling: Signaling,
    id: int,
    body: UserView,
)
    requires
        name_accepted(body.firstname),
    ensures
        add_user_step(config, body) matches StepView::Execute(insert) && insert.params
            == content_of(body),
        add_user_outcome(FetchedView::Rows(seq![seq![ValueView::Integer(id)] + content_of(body)]))
            == record_reply(StoredUserView { id, user: body }),
        get_user_statement(id).params == seq![ValueView::Integer(id)],
        get_user_outcome(signaling, FetchedView::Rows(seq![content_of(body)])) == record_reply(
            body,
        ),
{
    let row = seq![ValueView::Integer(id)] + content_of(body);
    assert(stored_user_of(row) == Some(StoredUserView { id, user: body }));
    assert(user_of(content_of(body)) == Some(body));
}

/// A key that matches no row is a failure for lookup and removal alike,
/// never a record: a server error under [`Signaling::Compatible`], the
/// not-found status under [`Signaling::Corrected`], each with the fixed
/// message of the operation. Lookup and removal bind the same key, so a
/// lookup that follows the removal of its key is answered this way as
/// soon as the store returns no row for it.
pub proof fn missing_user_is_a_failure(signaling: Signaling, id: int)
    ensures
        get_user_statement(id).params == delete_user_statement(id).params,
        get_user_outcome(signaling, FetchedView::Rows(Seq::empty())) == failure_reply::<UserView>(
            signaling,
            StoreFailure::NoSuchResource,
            GET_FAILED@,
        ),
        delete_user_outcome(signaling, FetchedView::Rows(Seq::empty())) == failure_reply::<
            UserView,
        >(signaling, StoreFailure::NoSuchResource, DELETE_FAILED@),
        get_user_outcome(signaling, FetchedView::Rows(Seq::empty())).status != STATUS_OK,
        delete_user_outcome(signaling, FetchedView::Rows(Seq::empty())).status != STATUS_OK,
{
}

/// An empty table lists as an empty sequence with a success status, not
/// as a failure.
pub proof fn empty_listing_is_a_success()
    ensures
        get_users_outcome(FetchedView::Rows(Seq::empty())) == records_reply::<UserView>(
            Seq::empty(),
        ),
{
    let rows = Seq::<Seq<ValueView>>::empty();
    assert(users_of(rows).unwrap() =~= Seq::<UserView>::empty());
}

/// An update that matches no row is a success with an empty sequence, not
/// a failure. The statement that an update sends is never the one that
/// inserts, so an unknown key cannot make a row.
pub proof fn update_of_missing_user_is_empty(config: ConfigView, id: int, body: UserView)
    ensures
        update_user_outcome(FetchedView::Rows(Seq::empty())) == records_reply::<UserView>(
            Seq::empty(),
        ),
        update_user_step(config, id, body) matches StepView::Execute(statement)
            ==> statement.text == UPDATE_USER@ && statement.text != INSERT_USER@,
{
    let rows = Seq::<Seq<ValueView>>::empty();
    assert(users_of(rows).unwrap() =~= Seq::<UserView>::empty());
    reveal_strlit(
        "UPDATE users SET firstname = $1, lastname = $2 WHERE id = $3 RETURNING firstname, lastname",
    );
    reveal_strlit(
        "INSERT INTO users (firstname, lastname) VALUES ($1, $2) RETURNING id, firstname, lastname",
    );
    assert(UPDATE_USER@[0] != INSERT_USER@[0]);
}

} // verus!
