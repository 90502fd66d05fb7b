//! The response mapper: a pure function from validation verdicts and
//! store outcomes to a status code and a body.

use vstd::prelude::*;
use crate::store::StoreFailure;

verus! {

/// Status of a reply that carries a result, or a rejection under
/// [`Signaling::Compatible`].
pub const STATUS_OK: u16 = 200;

/// Status of a rejected representation under [`Signaling::Corrected`].
pub const STATUS_BAD_REQUEST: u16 = 400;

/// Status of a lookup that matched no row under [`Signaling::Corrected`].
pub const STATUS_NOT_FOUND: u16 = 404;

/// Status of every other store failure.
pub const STATUS_SERVER_ERROR: u16 = 500;

/// How failures that the caller caused are signalled.
#[derive(Debug, Clone, Copy, PartialEq, Eq)]
pub enum Signaling {
    /// The statuses that clients of the service have always seen: a
    /// rejected representation is answered with a success status, and a
    /// missing row is indistinguishable from any other store failure.
    Compatible,
    /// A rejected representation is answered with a client-error status,
    /// and a missing row with a not-found status.
    Corrected,
}

impl Default for Signaling {
    /// New deployments signal failures with the corrected statuses.
    fn default() -> (signaling: Signaling)
        ensures
            signaling == Signaling::Corrected,
    {
        Signaling::Corrected
    }
}

/// Settings of one deployment, fixed when it starts.
#[derive(Debug, Clone, PartialEq, Eq)]
pub struct Config {
    /// How caller-caused failures are signalled.
    pub signaling: Signaling,
    /// The message sent back when the primary name field is empty.
    pub rejection: String,
}

impl Config {
    /// Settings with the given signalling and rejection message.
    pub fn new(signaling: Signaling, rejection: &str) -> (config: Config)
        ensures
            config@ == (ConfigView { signaling, rejection: rejection@ }),
    {
        Config { signaling, rejection: String::from_str(rejection) }
    }
}

/// Body of a reply.
#[derive(Debug, Clone, PartialEq, Eq)]
pub enum Body<R> {
    /// Plain text, sent as it is.
    Text(String),
    /// A fixed message, sent as an encoded string.
    Message(String),
    /// One record.
    One(R),
    /// A sequence of records, possibly empty.
    Many(Vec<R>),
}

/// A reply: status code and body.
#[derive(Debug, Clone, PartialEq, Eq)]
pub struct Response<R> {
    pub status: u16,
    pub body: Body<R>,
}

/// The records of a sequence as mathematical values.
pub open spec fn views<R: View>(records: Seq<R>) -> Seq<R::V> {
    Seq::new(records.len(), |i: int| records[i]@)
}

/// Mathematical value of a [`Body`].
pub enum BodyView<V> {
    Text(Seq<char>),
    Message(Seq<char>),
    One(V),
    Many(Seq<V>),
}

/// Mathematical value of a [`Config`].
pub struct ConfigView {
    pub signaling: Signaling,
    pub rejection: Seq<char>,
}

impl View for Config {
    type V = ConfigView;

    open spec fn view(&self) -> ConfigView {
        ConfigView { signaling: self.signaling, rejection: self.rejection@ }
    }
}

/// Mathematical value of a [`Response`].
pub struct ResponseView<V> {
    pub status: int,
    pub body: BodyView<V>,
}

impl<R: View> View for Body<R> {
    type V = BodyView<R::V>;

    open spec fn view(&self) -> BodyView<R::V> {
        match self {
            Body::Text(text) => BodyView::Text(text@),
            Body::Message(message) => BodyView::Message(message@),
            Body::One(record) => BodyView::One(record@),
            Body::Many(records) => BodyView::Many(views(records@)),
        }
    }
}

impl<R: View> View for Response<R> {
    type V = ResponseView<R::V>;

    open spec fn view(&self) -> ResponseView<R::V> {
        ResponseView { status: self.status as int, body: self.body@ }
    }
}

/// Status of the reply to a rejected representation.
pub open spec fn rejection_status(signaling: Signaling) -> int {
    match signaling {
        Signaling::Compatible => STATUS_OK as int,
        Signaling::Corrected => STATUS_BAD_REQUEST as int,
    }
}

/// Status of the reply to a store failure.
pub open spec fn failure_status(signaling: Signaling, failure: StoreFailure) -> int {
    if signaling == Signaling::Corrected && failure == StoreFailure::NoSuchResource {
        STATUS_NOT_FOUND as int
    } else {
        STATUS_SERVER_ERROR as int
    }
}

/// The reply to a rejected representation.
pub open spec fn rejection_reply<V>(signaling: Signaling, reason: Seq<char>) -> ResponseView<V> {
    ResponseView { status: rejection_status(signaling), body: BodyView::Text(reason) }
}

/// The reply to a store failure.
pub open spec fn failure_reply<V>(
    signaling: Signaling,
    failure: StoreFailure,
    message: Seq<char>,
) -> ResponseView<V> {
    ResponseView { status: failure_status(signaling, failure), body: BodyView::Message(message) }
}

/// The reply to a failure that is never the caller's doing.
pub open spec fn server_error_reply<V>(message: Seq<char>) -> ResponseView<V> {
    ResponseView { status: STATUS_SERVER_ERROR as int, body: BodyView::Message(message) }
}

/// The reply that carries one record.
pub open spec fn record_reply<V>(record: V) -> ResponseView<V> {
    ResponseView { status: STATUS_OK as int, body: BodyView::One(record) }
}

/// The reply that carries a sequence of records.
pub open spec fn records_reply<V>(records: Seq<V>) -> ResponseView<V> {
    ResponseView { status: STATUS_OK as int, body: BodyView::Many(records) }
}

/// Answers a rejected representation: the reason is the whole body. The
/// status is a success under [`Signaling::Compatible`] and a client error
/// under [`Signaling::Corrected`].
pub fn rejected<R: View>(signaling: Signaling, reason: String) -> (response: Response<R>)
    ensures
        response@ == rejection_reply::<R::V>(signaling, reason@),
{
    let status: u16 = match signaling {
        Signaling::Compatible => STATUS_OK,
        Signaling::Corrected => STATUS_BAD_REQUEST,
    };
    Response { status, body: Body::Text(reason) }
}

/// Answers a store failure with the fixed message of the operation. The
/// cause is not shown; only under [`Signaling::Corrected`] does a missing
/// row get a status of its own.
pub fn failed<R: View>(signaling: Signaling, failure: StoreFailure, message: &str) -> (response:
    Response<R>)
    ensures
        response@ == failure_reply::<R::V>(signaling, failure, message@),
{
    let status: u16 = match (signaling, failure) {
        (Signaling::Corrected, StoreFailure::NoSuchResource) => STATUS_NOT_FOUND,
        _ => STATUS_SERVER_ERROR,
    };
    Response { status, body: Body::Message(String::from_str(message)) }
}

/// Answers a failure of an operation that cannot miss a row: a server
/// error with the fixed message of the operation.
pub fn server_error<R: View>(message: &str) -> (response: Response<R>)
    ensures
        response@ == server_error_reply::<R::V>(message@),
{
    Response { status: STATUS_SERVER_ERROR, body: Body::Message(String::from_str(message)) }
}

/// Answers with one record and a success status.
pub fn found<R: View>(record: R) -> (response: Response<R>)
    ensures
        response@ == record_reply::<R::V>(record@),
{
    Response { status: STATUS_OK, body: Body::One(record) }
}

/// Answers with a sequence of records and a success status. An empty
/// sequence is a result like any other.
pub fn listed<R: View>(records: Vec<R>) -> (response: Response<R>)
    ensures
        response@ == records_reply::<R::V>(views(records@)),
{
    Response { status: STATUS_OK, body: Body::Many(records) }
}

} // verus!
