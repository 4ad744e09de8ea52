use vstd::prelude::*;

use crate::types::BidRequest;

verus! {

/// A structured error as it travels in a response body: an HTTP status code
/// and a message.
#[derive(Clone, Debug, PartialEq, Eq)]
pub struct ApiError {
    pub code: u16,
    pub message: String,
}

/// Conditions of the protocol itself.
#[derive(Clone, Debug, PartialEq, Eq)]
pub enum BuilderError {
    /// The builder holds no bid for the request, which is carried unchanged.
    NoHeaderPrepared(BidRequest),
}

/// Failures of an outbound call, as the HTTP client reports them.
#[derive(Clone, Debug, PartialEq, Eq)]
pub enum ClientError {
    /// The remote service answered with a structured error.
    Api(ApiError),
    /// The exchange itself failed (connection, decoding), with its description.
    Http(String),
}

/// Every failure that crosses the protocol interface.
#[derive(Clone, Debug, PartialEq, Eq)]
pub enum Error {
    /// A validation or state-transition failure of the consensus layer.
    Consensus(String),
    /// A structured error surfaced by a remote builder or relay.
    Api(ApiError),
    /// A condition of the protocol, such as no prepared header.
    Builder(BuilderError),
    /// An unexpected local fault; its detail is not shown to callers.
    Internal(String),
    /// A free-form condition, such as a missing or unsupported fork header.
    Custom(String),
}

/// The message of the no-header condition.
pub open spec fn no_header_message() -> Seq<char> {
    "no header prepared for the bid request"@
}

/// The message of an internal fault, shown in place of its detail.
pub open spec fn internal_message() -> Seq<char> {
    "internal server error"@
}

/// The HTTP status that reports an error: 500 for internal faults, 400 for
/// every other kind.
pub open spec fn status_of(e: Error) -> u16 {
    match e {
        Error::Internal(_) => 500,
        _ => 400,
    }
}

/// The message that reports an error to callers.
pub open spec fn message_of(e: Error) -> Seq<char> {
    match e {
        Error::Consensus(m) => m@,
        Error::Api(a) => a.message@,
        Error::Builder(BuilderError::NoHeaderPrepared(_)) => no_header_message(),
        Error::Internal(_) => internal_message(),
        Error::Custom(m) => m@,
    }
}

/// The unified error for a failed outbound call: a structured remote error
/// stays one, any other failure is internal.
pub open spec fn error_of_client(c: ClientError) -> Error {
    match c {
        ClientError::Api(a) => Error::Api(a),
        ClientError::Http(m) => Error::Internal(m),
    }
}

impl Error {
    /// The HTTP status that reports this error.
    pub fn status_code(&self) -> (r: u16)
        ensures
            r == status_of(*self),
    {
        match self {
            Error::Internal(_) => 500,
            _ => 400,
        }
    }

    /// The message that reports this error to callers.
    pub fn message(&self) -> (r: String)
        ensures
            r@ == message_of(*self),
    {
        match self {
            Error::Consensus(m) => m.clone(),
            Error::Api(a) => a.message.clone(),
            Error::Builder(BuilderError::NoHeaderPrepared(_)) => String::from_str(
                "no header prepared for the bid request",
            ),
            Error::Internal(_) => String::from_str("internal server error"),
            Error::Custom(m) => m.clone(),
        }
    }

    /// The `{code, message}` record that reports this error in a response body.
    pub fn into_response(self) -> (r: ApiError)
        ensures
            r.code == status_of(self),
            r.message@ == message_of(self),
    {
        let code = self.status_code();
        let message = self.message();
        ApiError { code, message }
    }
}

impl From<ClientError> for Error {
    fn from(c: ClientError) -> (r: Error) {
        match c {
            ClientError::Api(a) => Error::Api(a),
            ClientError::Http(m) => Error::Internal(m),
        }
    }
}

impl vstd::std_specs::convert::FromSpecImpl<ClientError> for Error {
    open spec fn obeys_from_spec() -> bool {
        true
    }

    open spec fn from_spec(c: ClientError) -> Error {
        error_of_client(c)
    }
}

} // verus!
