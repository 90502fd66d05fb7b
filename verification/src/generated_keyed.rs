//! The user resource under the generated identity scheme: rows of the
//! table `users2`, addressed by an identifier that the store generates
//! when it inserts the row. The library treats the identifier as an
//! opaque string and binds it as text.
//!
//! The operations have the same two halves as under the integer scheme.

use vstd::prelude::*;
use crate::response::{
    failed, failure_reply, found, listed, record_reply, records_reply, rejected, rejection_reply,
    server_error, server_error_reply, views, Config, ConfigView, Response, ResponseView, Signaling,
    STATUS_OK,
};
use crate::statement::{numbered_once, ordinals_from, Statement, StatementView};
use crate::step::{Step, StepView};
use crate::store::{
    all_rows, fetch_all, fetch_one, only_row, Fetched, FetchedView, StoreFailure,
};
use crate::validation::{name_accepted, validate_name, validation_of, Validation};
use crate::value::{as_text, cells, table, text_value, Row, Value, ValueView};

verus! {

/// Text of the statement that reads every user.
pub const SELECT_USERS: &'static str = "SELECT name, email, password1, password2 FROM users2";

/// Text of the statement that reads one user.
pub const SELECT_USER: &'static str =
    "SELECT name, email, password1, password2 FROM users2 WHERE uuid = $1::uuid";

/// Text of the statement that stores a new user.
pub const INSERT_USER: &'static str =
    "INSERT INTO users2 (name, email, password1, password2) VALUES ($1, $2, $3, $4) RETURNING uuid::text, name, email, password1, password2";

/// Text of the statement that changes one user.
pub const UPDATE_USER: &'static str =
    "UPDATE users2 SET name = $1, email = $2, password1 = $3, password2 = $4 WHERE uuid = $5::uuid RETURNING name, email, password1, password2";

/// Text of the statement that removes one user.
pub const DELETE_USER: &'static str =
    "DELETE FROM users2 WHERE uuid = $1::uuid RETURNING name, email, password1, password2";

/// Message of a failed listing.
pub const LIST_FAILED: &'static str = "Failed to get users";

/// Message of a failed lookup.
pub const GET_FAILED: &'static str = "Failed to get user";

/// Message of a failed creation.
pub const CREATE_FAILED: &'static str = "Failed to create user";

/// Message of a failed update.
pub const UPDATE_FAILED: &'static str = "Failed to update user";

/// Message of a failed removal.
pub const DELETE_FAILED: &'static str = "Failed to delete user";

/// A user as callers send and receive it. The two password fields are
/// carried as they come; nothing compares them.
#[derive(Debug, Clone, PartialEq, Eq)]
pub struct User {
    /// The primary name field; it must not be empty.
    pub name: String,
    pub email: String,
    pub password1: String,
    pub password2: String,
}

/// Mathematical value of a [`User`].
pub struct UserView {
    pub name: Seq<char>,
    pub email: Seq<char>,
    pub password1: Seq<char>,
    pub password2: Seq<char>,
}

impl View for User {
    type V = UserView;

    open spec fn view(&self) -> UserView {
        UserView {
            name: self.name@,
            email: self.email@,
            password1: self.password1@,
            password2: self.password2@,
        }
    }
}

impl User {
    /// Checks the one rule on a user: `name` must hold at least one
    /// character. A user that breaks it is rejected with `reason`.
    pub fn validate(&self, reason: &str) -> (verdict: Validation)
        ensures
            verdict@ == validation_of(self.name@, reason@),
    {
        validate_name(&self.name, reason)
    }
}

/// A user as the store holds it: the content and the identifier that the
/// store generated.
#[derive(Debug, Clone, PartialEq, Eq)]
pub struct StoredUser {
    pub uuid: String,
    pub user: User,
}

/// Mathematical value of a [`StoredUser`].
pub struct StoredUserView {
    pub uuid: Seq<char>,
    pub user: UserView,
}

impl View for StoredUser {
    type V = StoredUserView;

    open spec fn view(&self) -> StoredUserView {
        StoredUserView { uuid: self.uuid@, user: self.user@ }
    }
}

/// The user that a row of the columns `name, email, password1, password2`
/// holds, if the row has that shape: four cells, all text.
pub open spec fn user_of(row: Seq<ValueView>) -> Option<UserView> {
    if row.len() == 4 {
        match (row[0], row[1], row[2], row[3]) {
            (
                ValueView::Text(name),
                ValueView::Text(email),
                ValueView::Text(password1),
                ValueView::Text(password2),
            ) => Some(UserView { name, email, password1, password2 }),
            _ => None,
        }
    } else {
        None
    }
}

/// The stored user that a row of the columns
/// `uuid, name, email, password1, password2` holds, if the row has that
/// shape: five cells, all text.
pub open spec fn stored_user_of(row: Seq<ValueView>) -> Option<StoredUserView> {
    if row.len() == 5 {
        match (row[0], user_of(row.skip(1))) {
            (ValueView::Text(uuid), Some(user)) => Some(StoredUserView { uuid, user }),
            _ => None,
        }
    } else {
        None
    }
}

/// The users that the rows hold, in the rows' order, if every row has the
/// shape of a user.
pub open spec fn users_of(rows: Seq<Seq<ValueView>>) -> Option<Seq<UserView>> {
    if forall|i: int| 0 <= i < rows.len() ==> (#[trigger] user_of(rows[i])) is Some {
        Some(Seq::new(rows.len(), |i: int| user_of(rows[i]).unwrap()))
    } else {
        None
    }
}

/// The values that stand for a user's content in a statement or a row, in
/// column order.
pub open spec fn content_of(user: UserView) -> Seq<ValueView> {
    seq![
        ValueView::Text(user.name),
        ValueView::Text(user.email),
        ValueView::Text(user.password1),
        ValueView::Text(user.password2),
    ]
}

/// Decodes the four content cells that start at `from`.
fn decode_content(row: &Row, from: usize) -> (user: Option<User>)
    requires
        from + 4 == row.len(),
    ensures
        match user_of(cells(row@).skip(from as int)) {
            Some(held) => user matches Some(found) && found@ == held,
            None => user is None,
        },
{
    let ghost content = cells(row@).skip(from as int);
    assert(content[0] == row[from as int]@);
    assert(content[1] == row[from + 1]@);
    assert(content[2] == row[from + 2]@);
    assert(content[3] == row[from + 3]@);
    match (
        as_text(&row[from]),
        as_text(&row[from + 1]),
        as_text(&row[from + 2]),
        as_text(&row[from + 3]),
    ) {
        (Some(name), Some(email), Some(password1), Some(password2)) => Some(
            User { name, email, password1, password2 },
        ),
        _ => None,
    }
}

/// Decodes one row of the columns `name, email, password1, password2`,
/// cell by cell.
pub fn decode_user(row: &Row) -> (user: Option<User>)
    ensures
        match user_of(cells(row@)) {
            Some(held) => user matches Some(found) && found@ == held,
            None => user is None,
        },
{
    if row.len() != 4 {
        return None;
    }
    decode_content(row, 0)
}

/// Decodes one row of the columns
/// `uuid, name, email, password1, password2`, cell by cell.
pub fn decode_stored_user(row: &Row) -> (stored: Option<StoredUser>)
    ensures
        match stored_user_of(cells(row@)) {
            Some(held) => stored matches Some(found) && found@ == held,
            None => stored is None,
        },
{
    if row.len() != 5 {
        return None;
    }
    match (as_text(&row[0]), decode_content(row, 1)) {
        (Some(uuid), Some(user)) => Some(StoredUser { uuid, user }),
        _ => None,
    }
}

/// Decodes every row of a result set, keeping the order. One row of
/// another shape spoils the whole set.
pub fn decode_users(rows: &Vec<Row>) -> (users: Option<Vec<User>>)
    ensures
        match users_of(table(rows@)) {
            Some(held) => users matches Some(found) && views(found@) == held,
            None => users is None,
        },
{
    let mut users: Vec<User> = Vec::new();
    let mut at: usize = 0;
    while at < rows.len()
        invariant
            at <= rows.len(),
            users.len() == at,
            forall|i: int|
                0 <= i < at ==> user_of(#[trigger] table(rows@)[i]) == Some(users[i]@),
        decreases rows.len() - at,
    {
        match decode_user(&rows[at]) {
            Some(user) => {
                users.push(user);
            },
            None => {
                assert(user_of(table(rows@)[at as int]) is None);
                return None;
            },
        }
        at += 1;
    }
    Some(users)
}

/// The statement texts of this scheme bind every placeholder once: each
/// holds `$1` up to the number of values that its operation binds, in
/// order.
pub proof fn texts_are_numbered()
    ensures
        numbered_once(SELECT_USERS@, 0),
        numbered_once(SELECT_USER@, 1),
        numbered_once(INSERT_USER@, 4),
        numbered_once(UPDATE_USER@, 5),
        numbered_once(DELETE_USER@, 1),
{
    // Each text is walked from its end in stretches of forty characters, so
    // that no step has to unfold the definition further than that.
    reveal_with_fuel(ordinals_from, 50);
    assert(numbered_once(SELECT_USERS@, 0)) by {
        reveal_strlit("SELECT name, email, password1, password2 FROM users2");
        assert(ordinals_from(SELECT_USERS@, 40) =~= Seq::empty());
    }
    assert(numbered_once(SELECT_USER@, 1)) by {
        reveal_strlit("SELECT name, email, password1, password2 FROM users2 WHERE uuid = $1::uuid");
        assert(ordinals_from(SELECT_USER@, 40) =~= seq![1int]);
    }
    assert(numbered_once(INSERT_USER@, 4)) by {
        reveal_strlit(
            "INSERT INTO users2 (name, email, password1, password2) VALUES ($1, $2, $3, $4) RETURNING uuid::text, name, email, password1, password2",
        );
        assert(ordinals_from(INSERT_USER@, 120) =~= Seq::empty());
        assert(ordinals_from(INSERT_USER@, 80) =~= Seq::empty());
        assert(ordinals_from(INSERT_USER@, 40) =~= seq![1int, 2, 3, 4]);
    }
    assert(numbered_once(UPDATE_USER@, 5)) by {
        reveal_strlit(
            "UPDATE users2 SET name = $1, email = $2, password1 = $3, password2 = $4 WHERE uuid = $5::uuid RETURNING name, email, password1, password2",
        );
        assert(ordinals_from(UPDATE_USER@, 120) =~= Seq::empty());
        assert(ordinals_from(UPDATE_USER@, 80) =~= seq![5int]);
        assert(ordinals_from(UPDATE_USER@, 40) =~= seq![3int, 4, 5]);
    }
    assert(numbered_once(DELETE_USER@, 1)) by {
        reveal_strlit(
            "DELETE FROM users2 WHERE uuid = $1::uuid RETURNING name, email, password1, password2",
        );
        assert(ordinals_from(DELETE_USER@, 40) =~= Seq::empty());
    }
}

/// The statement that [`get_users`] returns.
pub open spec fn get_users_statement() -> StatementView {
    StatementView { text: SELECT_USERS@, params: Seq::empty() }
}

/// The statement that [`get_user`] returns.
pub open spec fn get_user_statement(uuid: Seq<char>) -> StatementView {
    StatementView { text: SELECT_USER@, params: seq![ValueView::Text(uuid)] }
}

/// The statement that [`delete_user`] returns.
pub open spec fn delete_user_statement(uuid: Seq<char>) -> StatementView {
    StatementView { text: DELETE_USER@, params: seq![ValueView::Text(uuid)] }
}

/// The step that [`add_user`] takes.
pub open spec fn add_user_step(config: ConfigView, body: UserView) -> StepView<StoredUserView> {
    if name_accepted(body.name) {
        StepView::Execute(StatementView { text: INSERT_USER@, params: content_of(body) })
    } else {
        StepView::Reply(rejection_reply(config.signaling, config.rejection))
    }
}

/// The step that [`update_user`] takes.
pub open spec fn update_user_step(config: ConfigView, uuid: Seq<char>, body: UserView) -> StepView<
    UserView,
> {
    if name_accepted(body.name) {
        StepView::Execute(
            StatementView {
                text: UPDATE_USER@,
                params: content_of(body).push(ValueView::Text(uuid)),
            },
        )
    } else {
        StepView::Reply(rejection_reply(config.signaling, config.rejection))
    }
}

/// The reply that [`get_users_reply`] gives.
pub open spec fn get_users_outcome(fetched: FetchedView) -> ResponseView<UserView> {
    match all_rows(fetched) {
        Ok(rows) => match users_of(rows) {
            Some(users) => records_reply(users),
            None => server_error_reply(LIST_FAILED@),
        },
        Err(_) => server_error_reply(LIST_FAILED@),
    }
}

/// The reply that [`get_user_reply`] gives.
pub open spec fn get_user_outcome(signaling: Signaling, fetched: FetchedView) -> ResponseView<
    UserView,
> {
    match only_row(fetched) {
        Ok(row) => match user_of(row) {
            Some(user) => record_reply(user),
            None => server_error_reply(GET_FAILED@),
        },
        Err(failure) => failure_reply(signaling, failure, GET_FAILED@),
    }
}

/// The reply that [`add_user_reply`] gives.
pub open spec fn add_user_outcome(fetched: FetchedView) -> ResponseView<StoredUserView> {
    match only_row(fetched) {
        Ok(row) => match stored_user_of(row) {
            Some(stored) => record_reply(stored),
            None => server_error_reply(CREATE_FAILED@),
        },
        Err(_) => server_error_reply(CREATE_FAILED@),
    }
}

/// The reply that [`update_user_reply`] gives.
pub open spec fn update_user_outcome(fetched: FetchedView) -> ResponseView<UserView> {
    match all_rows(fetched) {
        Ok(rows) => match users_of(rows) {
            Some(users) => records_reply(users),
            None => server_error_reply(UPDATE_FAILED@),
        },
        Err(_) => server_error_reply(UPDATE_FAILED@),
    }
}

/// The reply that [`delete_user_reply`] gives.
pub open spec fn delete_user_outcome(signaling: Signaling, fetched: FetchedView) -> ResponseView<
    UserView,
> {
    match only_row(fetched) {
        Ok(row) => match user_of(row) {
            Some(user) => record_reply(user),
            None => server_error_reply(DELETE_FAILED@),
        },
        Err(failure) => failure_reply(signaling, failure, DELETE_FAILED@),
    }
}

/// The values of a user's content, in column order.
fn content(user: &User) -> (params: Vec<Value>)
    ensures
        cells(params@) == content_of(user@),
{
    let mut params: Vec<Value> = Vec::new();
    params.push(text_value(&user.name));
    params.push(text_value(&user.email));
    params.push(text_value(&user.password1));
    params.push(text_value(&user.password2));
    params
}

/// The one bound value of a statement that addresses a row.
fn key(uuid: &str) -> (params: Vec<Value>)
    ensures
        cells(params@) == seq![ValueView::Text(uuid@)],
{
    let mut params: Vec<Value> = Vec::new();
    params.push(Value::Text(String::from_str(uuid)));
    params
}

/// First half of the listing of all users: the statement to send. It
/// binds nothing.
pub fn get_users() -> (statement: Statement)
    ensures
        statement@ == get_users_statement(),
        statement@.well_formed(),
{
    let statement = Statement { text: SELECT_USERS, params: Vec::new() };
    proof {
        texts_are_numbered();
        assert(statement@.params =~= Seq::empty());
    }
    statement
}

/// Second half of the listing: the users that the rows hold become the
/// body, in the rows' order. No row at all is a success with an empty
/// sequence. A statement that failed, or a row of another shape, is
/// answered with a server error and the fixed message.
pub fn get_users_reply(fetched: Fetched) -> (response: Response<User>)
    ensures
        response@ == get_users_outcome(fetched@),
{
    match fetch_all(fetched) {
        Ok(rows) => match decode_users(&rows) {
            Some(users) => listed(users),
            None => server_error(LIST_FAILED),
        },
        Err(_) => server_error(LIST_FAILED),
    }
}

/// First half of the lookup of the user with the identifier `uuid`: the
/// statement to send, with the identifier bound to its one placeholder.
pub fn get_user(uuid: &str) -> (statement: Statement)
    ensures
        statement@ == get_user_statement(uuid@),
        statement@.well_formed(),
{
    let statement = Statement { text: SELECT_USER, params: key(uuid) };
    proof {
        texts_are_numbered();
    }
    statement
}

/// Second half of the lookup: exactly one row of the right shape is the
/// user, sent with a success status. Anything else is a failure with the
/// fixed message. Its status is a server error, except that under
/// [`Signaling::Corrected`] a lookup that matched no row is answered with
/// the not-found status.
pub fn get_user_reply(signaling: Signaling, fetched: Fetched) -> (response: Response<User>)
    ensures
        response@ == get_user_outcome(signaling, fetched@),
{
    match fetch_one(fetched) {
        Ok(row) => match decode_user(&row) {
            Some(user) => found(user),
            None => server_error(GET_FAILED),
        },
        Err(failure) => failed(signaling, failure, GET_FAILED),
    }
}

/// First half of the creation of a user.
///
/// A body with an empty `name` is rejected with the configured message,
/// and no statement is sent. Otherwise the step is the insert statement
/// with the four fields bound in column order; the text is fixed and holds
/// none of the body.
pub fn add_user(config: &Config, body: &User) -> (step: Step<StoredUser>)
    ensures
        step@ == add_user_step(config@, body@),
        step matches Step::Execute(statement) ==> statement@.well_formed(),
{
    match body.validate(config.rejection.as_str()) {
        Validation::Accepted => {
            let statement = Statement { text: INSERT_USER, params: content(body) };
            proof {
                texts_are_numbered();
            }
            Step::Execute(statement)
        },
        Validation::Rejected(reason) => Step::Reply(rejected(config.signaling, reason)),
    }
}

/// Second half of the creation: exactly one row of the columns
/// `uuid, name, email, password1, password2` is the stored user, sent with
/// a success status. Anything else is answered with a server error and the
/// fixed message.
pub fn add_user_reply(fetched: Fetched) -> (response: Response<StoredUser>)
    ensures
        response@ == add_user_outcome(fetched@),
{
    match fetch_one(fetched) {
        Ok(row) => match decode_stored_user(&row) {
            Some(stored) => found(stored),
            None => server_error(CREATE_FAILED),
        },
        Err(_) => server_error(CREATE_FAILED),
    }
}

/// First half of the update of the user with the identifier `uuid`.
///
/// A body with an empty `name` is rejected with the configured message,
/// and no statement is sent. Otherwise the step is the update statement,
/// with the four fields and then the identifier bound; the text is fixed
/// and holds none of the body.
pub fn update_user(config: &Config, uuid: &str, body: &User) -> (step: Step<User>)
    ensures
        step@ == update_user_step(config@, uuid@, body@),
        step matches Step::Execute(statement) ==> statement@.well_formed(),
{
    match body.validate(config.rejection.as_str()) {
        Validation::Accepted => {
            let mut params = content(body);
            params.push(Value::Text(String::from_str(uuid)));
            let statement = Statement { text: UPDATE_USER, params };
            proof {
                texts_are_numbered();
                assert(statement@.params =~= content_of(body@).push(ValueView::Text(uuid@)));
            }
            Step::Execute(statement)
        },
        Validation::Rejected(reason) => Step::Reply(rejected(config.signaling, reason)),
    }
}

/// Second half of the update: the rows that the statement returned become
/// the body, in their order. No row at all, which is what an unknown
/// identifier gives, is a success with an empty sequence. A statement that
/// failed, or a row of another shape, is answered with a server error and
/// the fixed message.
pub fn update_user_reply(fetched: Fetched) -> (response: Response<User>)
    ensures
        response@ == update_user_outcome(fetched@),
{
    match fetch_all(fetched) {
        Ok(rows) => match decode_users(&rows) {
            Some(users) => listed(users),
            None => server_error(UPDATE_FAILED),
        },
        Err(_) => server_error(UPDATE_FAILED),
    }
}

/// First half of the removal of the user with the identifier `uuid`: the
/// statement to send, with the identifier bound to its one placeholder.
pub fn delete_user(uuid: &str) -> (statement: Statement)
    ensures
        statement@ == delete_user_statement(uuid@),
        statement@.well_formed(),
{
    let statement = Statement { text: DELETE_USER, params: key(uuid) };
    proof {
        texts_are_numbered();
    }
    statement
}

/// Second half of the removal: exactly one row of the right shape is the
/// content that the removed user last had, sent with a success status.
/// Anything else is a failure with the fixed message. Its status is a
/// server error, except that under [`Signaling::Corrected`] a removal that
/// matched no row is answered with the not-found status.
pub fn delete_user_reply(signaling: Signaling, fetched: Fetched) -> (response: Response<User>)
    ensures
        response@ == delete_user_outcome(signaling, fetched@),
{
    match fetch_one(fetched) {
        Ok(row) => match decode_user(&row) {
            Some(user) => found(user),
            None => server_error(DELETE_FAILED),
        },
        Err(failure) => failed(signaling, failure, DELETE_FAILED),
    }
}

/// A body whose `name` is empty never reaches the store: creation and
/// update both answer with the configured rejection, and neither sends a
/// statement.
pub proof fn empty_name_sends_nothing(config: ConfigView, uuid: Seq<char>, body: UserView)
    requires
        body.name.len() == 0,
    ensures
        add_user_step(config, body) == StepView::<StoredUserView>::Reply(
            rejection_reply(config.signaling, config.rejection),
        ),
        update_user_step(config, uuid, body) == StepView::<UserView>::Reply(
            rejection_reply(config.signaling, config.rejection),
        ),
        add_user_step(config, body).statements_sent() == 0,
        update_user_step(config, uuid, body).statements_sent() == 0,
{
}

/// The library's share of reading back what was created. For an accepted
/// body, creation sends exactly the body's content; when the store
/// returns the row it made of that content under the identifier `uuid`,
/// the reply to the creation carries `uuid` and the body, the lookup of
/// `uuid` binds that identifier, and when the store returns the content
/// for it, the reply to the lookup carries a user equal to the body in
/// every field.
pub proof fn created_user_reads_back(
    config: ConfigView,
    signaling: Signaling,
    uuid: Seq<char>,
    body: UserView,
)
    requires
        name_accepted(body.name),
    ensures
        add_user_step(config, body) matches StepView::Execute(insert) && insert.params
            == content_of(body),
        add_user_outcome(FetchedView::Rows(seq![seq![ValueView::Text(uuid)] + content_of(body)]))
            == record_reply(StoredUserView { uuid, user: body }),
        get_user_statement(uuid).params == seq![ValueView::Text(uuid)],
        get_user_outcome(signaling, FetchedView::Rows(seq![content_of(body)])) == record_reply(
            body,
        ),
{
    let row = seq![ValueView::Text(uuid)] + content_of(body);
    assert(row.skip(1) =~= content_of(body));
    assert(user_of(content_of(body)) == Some(body));
    assert(stored_user_of(row) == Some(StoredUserView { uuid, user: body }));
}

/// An identifier that matches no row is a failure for lookup and removal
/// alike, never a record: a server error under [`Signaling::Compatible`],
/// the not-found status under [`Signaling::Corrected`], each with the
/// fixed message of the operation. Lookup and removal bind the same
/// identifier, so a lookup that follows the removal of its identifier is
/// answered this way as soon as the store returns no row for it.
pub proof fn missing_user_is_a_failure(signaling: Signaling, uuid: Seq<char>)
    ensures
        get_user_statement(uuid).params == delete_user_statement(uuid).params,
        get_user_outcome(signaling, FetchedView::Rows(Seq::empty())) == failure_reply::<UserView>(
            signaling,
            StoreFailure::NoSuchResource,
            GET_FAILED@,
        ),
        delete_user_outcome(signaling, FetchedView::Rows(Seq::empty())) == failure_reply::<
            UserView,
        >(signaling, StoreFailure::NoSuchResource, DELETE_FAILED@),
        get_user_outcome(signaling, FetchedView::Rows(Seq::empty())).status != STATUS_OK,
        delete_user_outcome(signaling, FetchedView::Rows(Seq::empty())).status != STATUS_OK,
{
}

/// An empty table lists as an empty sequence with a success status, not
/// as a failure.
pub proof fn empty_listing_is_a_success()
    ensures
        get_users_outcome(FetchedView::Rows(Seq::empty())) == records_reply::<UserView>(
            Seq::empty(),
        ),
{
    let rows = Seq::<Seq<ValueView>>::empty();
    assert(users_of(rows).unwrap() =~= Seq::<UserView>::empty());
}

/// An update that matches no row is a success with an empty sequence, not
/// a failure. The statement that an update sends is never the one that
/// inserts, so an unknown identifier cannot make a row.
pub proof fn update_of_missing_user_is_empty(config: ConfigView, uuid: Seq<char>, body: UserView)
    ensures
        update_user_outcome(FetchedView::Rows(Seq::empty())) == records_reply::<UserView>(
            Seq::empty(),
        ),
        update_user_step(config, uuid, body) matches StepView::Execute(statement)
            ==> statement.text == UPDATE_USER@ && statement.text != INSERT_USER@,
{
    let rows = Seq::<Seq<ValueView>>::empty();
    assert(users_of(rows).unwrap() =~= Seq::<UserView>::empty());
    reveal_strlit(
        "UPDATE users2 SET name = $1, email = $2, password1 = $3, password2 = $4 WHERE uuid = $5::uuid RETURNING name, email, password1, password2",
    );
    reveal_strlit(
        "INSERT INTO users2 (name, email, password1, password2) VALUES ($1, $2, $3, $4) RETURNING uuid::text, name, email, password1, password2",
    );
    assert(UPDATE_USER@[0] != INSERT_USER@[0]);
}

} // verus!
