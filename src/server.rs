use vstd::prelude::*;

use crate::dispatch::{is_custom, Versioned};
use crate::path::parsed_path;
use crate::text::push_char;
use crate::types::BidRequest;
use crate::error::{message_of, status_of, ApiError, BuilderError, Error};
use crate::fork::Fork;

verus! {

/// The body of a response.
#[derive(Clone, Debug, PartialEq, Eq)]
pub enum ReplyBody<T> {
    /// A success envelope: the data and the fork it is of.
    Envelope(Versioned<T>),
    /// No body.
    Empty,
    /// The `{code, message}` record of an error.
    Error(ApiError),
}

/// A response: its HTTP status and its body.
#[derive(Clone, Debug, PartialEq, Eq)]
pub struct Reply<T> {
    pub status: u16,
    pub body: ReplyBody<T>,
}

/// `r` reports the error `e`.
pub open spec fn reports_error<T>(r: Reply<T>, e: Error) -> bool {
    &&& r.status == status_of(e)
    &&& r.body matches ReplyBody::Error(a) && a.code == status_of(e) && a.message@ == message_of(e)
}

/// `r` is a success envelope of `data` under `fork`.
pub open spec fn reports_data<T>(r: Reply<T>, fork: Fork, data: T) -> bool {
    &&& r.status == 200
    &&& r.body == ReplyBody::Envelope(Versioned { version: fork, data })
}

/// The response that reports an error: 500 for internal faults, 400 for the
/// other kinds, with the `{code, message}` record.
pub fn reply_error<T>(e: Error) -> (r: Reply<T>)
    ensures
        reports_error(r, e),
{
    let a = e.into_response();
    Reply { status: a.code, body: ReplyBody::Error(a) }
}

/// The response to the status check.
pub fn reply_status() -> (r: Reply<()>)
    ensures
        r.status == 200,
        r.body == ReplyBody::<()>::Empty,
{
    Reply { status: 200, body: ReplyBody::Empty }
}

/// The response to a registration: success with an empty body, or the error.
pub fn reply_registration(result: Result<(), Error>) -> (r: Reply<()>)
    ensures
        match result {
            Ok(_) => r.status == 200 && r.body == ReplyBody::<()>::Empty,
            Err(e) => reports_error(r, e),
        },
{
    match result {
        Ok(()) => Reply { status: 200, body: ReplyBody::Empty },
        Err(e) => reply_error(e),
    }
}

/// The response that carries a payload, or the error; the envelope's
/// version is the negotiated fork.
pub fn reply_payload<T>(fork: Fork, result: Result<T, Error>) -> (r: Reply<T>)
    ensures
        match result {
            Ok(d) => reports_data(r, fork, d),
            Err(e) => reports_error(r, e),
        },
{
    match result {
        Ok(data) => Reply { status: 200, body: ReplyBody::Envelope(Versioned { version: fork, data }) },
        Err(e) => reply_error(e),
    }
}

/// The response to a bid fetch: the bid's envelope under the negotiated fork,
/// no content when no header is prepared, or the error.
pub fn reply_bid<T>(fork: Fork, result: Result<T, Error>) -> (r: Reply<T>)
    ensures
        match result {
            Ok(d) => reports_data(r, fork, d),
            Err(Error::Builder(BuilderError::NoHeaderPrepared(_))) => r.status == 204 && r.body
                == ReplyBody::<T>::Empty,
            Err(e) => reports_error(r, e),
        },
{
    match result {
        Err(Error::Builder(BuilderError::NoHeaderPrepared(_))) => Reply {
            status: 204,
            body: ReplyBody::Empty,
        },
        other => reply_payload(fork, other),
    }
}

/// The message for path segments that form no bid request.
pub open spec fn invalid_request_message() -> Seq<char> {
    "invalid bid request"@
}

/// The path formed by the three segments of a bid fetch.
pub open spec fn joined_segments(slot: Seq<char>, parent_hash: Seq<char>, public_key: Seq<char>) -> Seq<char> {
    slot + seq!['/'] + parent_hash + seq!['/'] + public_key
}

/// The bid request that the three path segments of a bid fetch name, or the
/// invalid-request error when they name none.
pub fn bid_request_from_segments(slot: &str, parent_hash: &str, public_key: &str) -> (r: Result<
    BidRequest,
    Error,
>)
    ensures
        match parsed_path(joined_segments(slot@, parent_hash@, public_key@)) {
            Some(q) => r == Ok::<BidRequest, Error>(q),
            None => is_custom(r, invalid_request_message()),
        },
{
    let mut path = String::from_str(slot);
    push_char(&mut path, '/');
    path.append(parent_hash);
    push_char(&mut path, '/');
    path.append(public_key);
    assert(path@ =~= joined_segments(slot@, parent_hash@, public_key@));
    match BidRequest::from_path(path.as_str()) {
        Some(q) => Ok(q),
        None => Err(Error::Custom(String::from_str("invalid bid request"))),
    }
}

} // verus!
