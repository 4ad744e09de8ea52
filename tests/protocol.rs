use mev_build_rs::client::{
    bid_from_response, empty_from_response, fetch_bid_target, payload_from_response, ApiResult,
};
use mev_build_rs::dispatch::{negotiate, open_bid_fork, Versioned};
use mev_build_rs::error::{ApiError, BuilderError, ClientError, Error};
use mev_build_rs::fork::{select_fork, Fork, ForkSelection, CONSENSUS_VERSION_HEADER};
use mev_build_rs::server::{
    bid_request_from_segments,
    reply_bid, reply_error, reply_payload, reply_registration, reply_status, Reply, ReplyBody,
};
use mev_build_rs::types::BidRequest;

fn sample_request() -> BidRequest {
    let mut parent_hash = [0u8; 32];
    for (i, b) in parent_hash.iter_mut().enumerate() {
        *b = i as u8;
    }
    let mut public_key = [0u8; 48];
    for (i, b) in public_key.iter_mut().enumerate() {
        *b = 0xff - i as u8;
    }
    BidRequest { slot: 1234, parent_hash, public_key }
}

fn custom(message: &str) -> Error {
    Error::Custom(message.to_string())
}

#[test]
fn unsupported_fork_header_is_not_supported() {
    assert_eq!(select_fork(Some("capella")), ForkSelection::NotSupported(Fork::Capella));
    assert_eq!(negotiate(Some("capella")), Err(custom("fork not supported")));
}

#[test]
fn missing_header_names_the_header() {
    assert_eq!(select_fork(None), ForkSelection::Missing);
    let expected = format!("Missing {} header", CONSENSUS_VERSION_HEADER);
    assert_eq!(expected, "Missing Eth-Consensus-Version header");
    assert_eq!(negotiate(None), Err(Error::Custom(expected.clone())));
    assert_eq!(negotiate(Some("phase0")), Err(Error::Custom(expected.clone())));
    assert_eq!(negotiate(Some("Bellatrix")), Err(Error::Custom(expected)));
}

#[test]
fn supported_fork_header_selects_the_fork() {
    assert_eq!(select_fork(Some("bellatrix")), ForkSelection::Supported(Fork::Bellatrix));
    assert_eq!(negotiate(Some("bellatrix")), Ok(Fork::Bellatrix));
    assert_eq!(Fork::Bellatrix.name(), "bellatrix");
    assert_eq!(Fork::Capella.name(), "capella");
    assert!(Fork::Bellatrix.is_supported());
    assert!(!Fork::Capella.is_supported());
}

#[test]
fn no_content_carries_the_request() {
    let request = sample_request();
    let decoded: Result<ApiResult<u32>, ClientError> =
        Err(ClientError::Http("EOF while parsing".to_string()));
    let r = bid_from_response(&request, 204, decoded);
    assert_eq!(r, Err(Error::Builder(BuilderError::NoHeaderPrepared(request))));
    let r = bid_from_response(&request, 204, Ok(ApiResult::Success(7u32)));
    assert_eq!(r, Err(Error::Builder(BuilderError::NoHeaderPrepared(sample_request()))));
}

#[test]
fn bid_response_outcomes() {
    let request = sample_request();
    assert_eq!(bid_from_response(&request, 200, Ok(ApiResult::Success(7u32))), Ok(7));
    let api = ApiError { code: 400, message: "unknown parent".to_string() };
    assert_eq!(
        bid_from_response::<u32>(&request, 400, Ok(ApiResult::Failure(api.clone()))),
        Err(Error::Api(api))
    );
    assert_eq!(
        bid_from_response::<u32>(&request, 200, Err(ClientError::Http("bad json".to_string()))),
        Err(Error::Internal("bad json".to_string()))
    );
}

#[test]
fn open_bid_rejects_a_block_of_another_fork() {
    let block = Versioned { version: Fork::Capella, data: 5u8 };
    assert_eq!(
        open_bid_fork(Fork::Bellatrix, &block),
        Err(custom("block does not match the declared fork"))
    );
    assert_eq!(open_bid_fork(Fork::Capella, &block), Err(custom("fork not supported")));
    let block = Versioned { version: Fork::Bellatrix, data: 5u8 };
    assert_eq!(open_bid_fork(Fork::Bellatrix, &block), Ok(Fork::Bellatrix));
    assert_eq!(
        open_bid_fork(Fork::Capella, &block),
        Err(custom("block does not match the declared fork"))
    );
}

#[test]
fn path_round_trip() {
    let request = sample_request();
    let path = request.to_path();
    assert_eq!(BidRequest::from_path(&path), Some(request));
    let zero = BidRequest { slot: 0, parent_hash: [0u8; 32], public_key: [0u8; 48] };
    assert_eq!(BidRequest::from_path(&zero.to_path()), Some(zero));
    assert_eq!(zero, BidRequest::default());
    let top = BidRequest { slot: u64::MAX, parent_hash: [0xab; 32], public_key: [0x0f; 48] };
    assert_eq!(BidRequest::from_path(&top.to_path()), Some(top));
}

#[test]
fn path_form_is_exact() {
    let request = BidRequest { slot: 42, parent_hash: [0x1f; 32], public_key: [0xa0; 48] };
    let expected = format!("42/0x{}/0x{}", "1f".repeat(32), "a0".repeat(48));
    assert_eq!(request.to_path(), expected);
    assert_eq!(fetch_bid_target(&request), format!("/eth/v1/builder/header/{}", expected));
}

#[test]
fn malformed_paths_are_rejected() {
    let good = format!("42/0x{}/0x{}", "1f".repeat(32), "a0".repeat(48));
    assert!(BidRequest::from_path(&good).is_some());
    let leading_zero = format!("042/0x{}/0x{}", "1f".repeat(32), "a0".repeat(48));
    assert_eq!(BidRequest::from_path(&leading_zero), None);
    let upper = format!("42/0x{}/0x{}", "1F".repeat(32), "a0".repeat(48));
    assert_eq!(BidRequest::from_path(&upper), None);
    let short = format!("42/0x{}/0x{}", "1f".repeat(31), "a0".repeat(48));
    assert_eq!(BidRequest::from_path(&short), None);
    let no_prefix = format!("42/00{}/0x{}", "1f".repeat(32), "a0".repeat(48));
    assert_eq!(BidRequest::from_path(&no_prefix), None);
    let overflow = format!("18446744073709551616/0x{}/0x{}", "1f".repeat(32), "a0".repeat(48));
    assert_eq!(BidRequest::from_path(&overflow), None);
    let max = format!("18446744073709551615/0x{}/0x{}", "1f".repeat(32), "a0".repeat(48));
    assert_eq!(BidRequest::from_path(&max).map(|r| r.slot), Some(u64::MAX));
    assert_eq!(BidRequest::from_path(""), None);
}

#[test]
fn error_status_and_message() {
    assert_eq!(Error::Internal("disk on fire".to_string()).status_code(), 500);
    assert_eq!(Error::Internal("disk on fire".to_string()).message(), "internal server error");
    assert_eq!(custom("oops").status_code(), 400);
    assert_eq!(custom("oops").message(), "oops");
    assert_eq!(Error::Consensus("bad signature".to_string()).status_code(), 400);
    assert_eq!(Error::Consensus("bad signature".to_string()).message(), "bad signature");
    let api = ApiError { code: 404, message: "no such slot".to_string() };
    assert_eq!(Error::Api(api.clone()).status_code(), 400);
    assert_eq!(Error::Api(api).message(), "no such slot");
    let no_header = Error::Builder(BuilderError::NoHeaderPrepared(sample_request()));
    assert_eq!(no_header.status_code(), 400);
    assert_eq!(no_header.message(), "no header prepared for the bid request");
    assert_eq!(
        Error::Internal("secret".to_string()).into_response(),
        ApiError { code: 500, message: "internal server error".to_string() }
    );
}

#[test]
fn client_errors_are_unified() {
    let api = ApiError { code: 400, message: "bad".to_string() };
    assert_eq!(Error::from(ClientError::Api(api.clone())), Error::Api(api));
    assert_eq!(
        Error::from(ClientError::Http("timeout".to_string())),
        Error::Internal("timeout".to_string())
    );
}

#[test]
fn empty_response_outcomes() {
    let api = ApiError { code: 400, message: "bad".to_string() };
    assert_eq!(empty_from_response(200, Err(ClientError::Http("empty".to_string()))), Ok(()));
    assert_eq!(empty_from_response(299, Ok(api.clone())), Ok(()));
    assert_eq!(empty_from_response(400, Ok(api.clone())), Err(Error::Api(api)));
    assert_eq!(
        empty_from_response(503, Err(ClientError::Http("no body".to_string()))),
        Err(Error::Internal("no body".to_string()))
    );
}

#[test]
fn payload_response_outcomes() {
    assert_eq!(payload_from_response::<u8>(Ok(3)), Ok(3));
    assert_eq!(
        payload_from_response::<u8>(Err(ClientError::Http("eof".to_string()))),
        Err(Error::Internal("eof".to_string()))
    );
}

#[test]
fn replies() {
    assert_eq!(reply_status(), Reply { status: 200, body: ReplyBody::Empty });
    assert_eq!(reply_registration(Ok(())), Reply { status: 200, body: ReplyBody::Empty });
    let r: Reply<u8> = reply_error(Error::Internal("x".to_string()));
    assert_eq!(r.status, 500);
    assert_eq!(
        r.body,
        ReplyBody::Error(ApiError { code: 500, message: "internal server error".to_string() })
    );
    let r = reply_bid::<u8>(
        Fork::Bellatrix,
        Err(Error::Builder(BuilderError::NoHeaderPrepared(sample_request()))),
    );
    assert_eq!(r, Reply { status: 204, body: ReplyBody::Empty });
    let r = reply_payload::<u8>(Fork::Bellatrix, Err(custom("fork not supported")));
    assert_eq!(r.status, 400);
}

/// A builder that keeps registered keys and the bids prepared for requests.
struct StubBuilder {
    registered: Vec<[u8; 48]>,
    bids: Vec<(BidRequest, u64)>,
}

impl StubBuilder {
    fn register(&mut self, keys: &[[u8; 48]]) -> Result<(), Error> {
        self.registered.extend_from_slice(keys);
        for key in keys {
            let request = BidRequest { slot: 7, parent_hash: [1u8; 32], public_key: *key };
            self.bids.push((request, 100));
        }
        Ok(())
    }

    fn fetch(&self, request: &BidRequest) -> Result<u64, Error> {
        for (r, bid) in &self.bids {
            if r == request {
                return Ok(*bid);
            }
        }
        Err(Error::Builder(BuilderError::NoHeaderPrepared(*request)))
    }
}

#[test]
fn register_then_fetch_bid_under_bellatrix() {
    let mut builder = StubBuilder { registered: Vec::new(), bids: Vec::new() };
    let keys = [[3u8; 48], [4u8; 48]];
    let reply = reply_registration(builder.register(&keys));
    assert_eq!(reply, Reply { status: 200, body: ReplyBody::Empty });
    assert_eq!(builder.registered.len(), 2);

    let request = BidRequest { slot: 7, parent_hash: [1u8; 32], public_key: [4u8; 48] };
    let routed = BidRequest::from_path(&request.to_path()).unwrap();
    let fork = negotiate(Some("bellatrix")).unwrap();
    let reply = reply_bid(fork, builder.fetch(&routed));
    assert_eq!(reply.status, 200);
    match reply.body {
        ReplyBody::Envelope(envelope) => {
            assert_eq!(envelope.version_name(), "bellatrix");
            assert_eq!(envelope.data, 100);
        }
        other => panic!("unexpected body {other:?}"),
    }
}

#[test]
fn fetch_without_prepared_bid_is_no_content_then_no_header_error() {
    let builder = StubBuilder { registered: Vec::new(), bids: Vec::new() };
    let request = sample_request();
    let fork = negotiate(Some("bellatrix")).unwrap();
    let reply = reply_bid(fork, builder.fetch(&request));
    assert_eq!(reply.status, 204);
    assert_eq!(reply.body, ReplyBody::Empty);
    let decoded: Result<ApiResult<u64>, ClientError> = Err(ClientError::Http(String::new()));
    let outcome = bid_from_response(&request, reply.status, decoded);
    assert_eq!(outcome, Err(Error::Builder(BuilderError::NoHeaderPrepared(request))));
}

#[test]
fn open_bid_envelope_echoes_the_header() {
    let header = "bellatrix";
    let fork = negotiate(Some(header)).unwrap();
    let block = Versioned { version: Fork::Bellatrix, data: "signed blinded block" };
    let fork = open_bid_fork(fork, &block).unwrap();
    let reply = reply_payload(fork, Ok(vec![1u8, 2, 3]));
    assert_eq!(reply.status, 200);
    match reply.body {
        ReplyBody::Envelope(envelope) => {
            assert_eq!(envelope.version_name(), header);
            assert_eq!(envelope.data, vec![1u8, 2, 3]);
        }
        other => panic!("unexpected body {other:?}"),
    }
}

#[test]
fn segments_name_a_bid_request() {
    let request = sample_request();
    let parent = format!("0x{}", request.parent_hash.iter().map(|b| format!("{b:02x}")).collect::<String>());
    let key = format!("0x{}", request.public_key.iter().map(|b| format!("{b:02x}")).collect::<String>());
    assert_eq!(bid_request_from_segments("1234", &parent, &key), Ok(request));
    assert_eq!(
        bid_request_from_segments("12a4", &parent, &key),
        Err(custom("invalid bid request"))
    );
    assert_eq!(bid_request_from_segments("1234", &key, &parent), Err(custom("invalid bid request")));
}
