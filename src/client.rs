use vstd::prelude::*;

use crate::error::{error_of_client, ApiError, BuilderError, ClientError, Error};
use crate::path::path_of;
use crate::types::BidRequest;

verus! {

/// The path of the status check.
pub const STATUS_PATH: &'static str = "/eth/v1/builder/status";

/// The path of validator registration.
pub const VALIDATORS_PATH: &'static str = "/eth/v1/builder/validators";

/// The path under which bids are fetched.
pub const HEADER_PATH: &'static str = "/eth/v1/builder/header/";

/// The path of blinded block submission.
pub const BLINDED_BLOCKS_PATH: &'static str = "/eth/v1/builder/blinded_blocks";

/// The HTTP status that signals that no bid is available.
pub const NO_CONTENT: u16 = 204;

/// A decoded response body: the success data, or a structured error.
#[derive(Clone, Debug, PartialEq, Eq)]
pub enum ApiResult<T> {
    Success(T),
    Failure(ApiError),
}

/// The target of a bid fetch: the header path followed by the request's path form.
pub open spec fn bid_target(r: BidRequest) -> Seq<char> {
    "/eth/v1/builder/header/"@ + path_of(r)
}

/// The target of the bid fetch for a request.
pub fn fetch_bid_target(request: &BidRequest) -> (r: String)
    ensures
        r@ == bid_target(*request),
{
    let mut target = String::from_str(HEADER_PATH);
    let path = request.to_path();
    target.append(path.as_str());
    target
}

/// The outcome of a call that answers with an empty body on success: success
/// on a 2xx status, else the decoded error (`decoded_error` is ignored on success).
pub fn empty_from_response(status: u16, decoded_error: Result<ApiError, ClientError>) -> (r: Result<(), Error>)
    ensures
        200 <= status < 300 ==> r == Ok::<(), Error>(()),
        !(200 <= status < 300) ==> match decoded_error {
            Ok(a) => r == Err::<(), Error>(Error::Api(a)),
            Err(c) => r == Err::<(), Error>(error_of_client(c)),
        },
{
    if 200 <= status && status < 300 {
        Ok(())
    } else {
        match decoded_error {
            Ok(a) => Err(Error::Api(a)),
            Err(c) => Err(Error::from(c)),
        }
    }
}

/// The outcome of a bid fetch: no content means no header is prepared for
/// the request that was sent, which the error carries; otherwise the decoded
/// body gives the bid or the error (`decoded` is ignored on no content).
pub fn bid_from_response<B>(
    request: &BidRequest,
    status: u16,
    decoded: Result<ApiResult<B>, ClientError>,
) -> (r: Result<B, Error>)
    ensures
        status == NO_CONTENT ==> r == Err::<B, Error>(
            Error::Builder(BuilderError::NoHeaderPrepared(*request)),
        ),
        status != NO_CONTENT ==> match decoded {
            Ok(ApiResult::Success(b)) => r == Ok::<B, Error>(b),
            Ok(ApiResult::Failure(a)) => r == Err::<B, Error>(Error::Api(a)),
            Err(c) => r == Err::<B, Error>(error_of_client(c)),
        },
{
    if status == NO_CONTENT {
        return Err(Error::Builder(BuilderError::NoHeaderPrepared(*request)));
    }
    match decoded {
        Ok(ApiResult::Success(b)) => Ok(b),
        Ok(ApiResult::Failure(a)) => Err(Error::Api(a)),
        Err(c) => Err(Error::from(c)),
    }
}

/// The outcome of opening a bid: the decoded payload, or the failure of the exchange.
pub fn payload_from_response<P>(decoded: Result<P, ClientError>) -> (r: Result<P, Error>)
    ensures
        match decoded {
            Ok(p) => r == Ok::<P, Error>(p),
            Err(c) => r == Err::<P, Error>(error_of_client(c)),
        },
{
    match decoded {
        Ok(p) => Ok(p),
        Err(c) => Err(Error::from(c)),
    }
}

} // verus!
