use vstd::prelude::*;

use crate::error::Error;
use crate::fork::{CONSENSUS_VERSION_HEADER, fork_name, fork_supported, header_view, select_fork, selection_of, Fork, ForkSelection};

verus! {

/// A value tagged with the fork whose wire type it has. In a response it is
/// the envelope `{data, meta: {version}}`.
#[derive(Clone, Debug, PartialEq, Eq)]
pub struct Versioned<T> {
    pub version: Fork,
    pub data: T,
}

impl<T> Versioned<T> {
    /// The version token of the value's fork.
    pub fn version_name(&self) -> (r: &'static str)
        ensures
            r@ == fork_name(self.version),
    {
        self.version.name()
    }
}

/// The message for a known fork whose types are not wired in.
pub open spec fn not_supported_message() -> Seq<char> {
    "fork not supported"@
}

/// The message for an absent or unrecognized version header; it names the header.
pub open spec fn missing_header_message() -> Seq<char> {
    "Missing Eth-Consensus-Version header"@
}

/// The message for a value whose fork is not the declared one.
pub open spec fn fork_mismatch_message() -> Seq<char> {
    "block does not match the declared fork"@
}

/// `r` is the custom error with message `m`.
pub open spec fn is_custom<T>(r: Result<T, Error>, m: Seq<char>) -> bool {
    r matches Err(Error::Custom(s)) && s@ == m
}

/// The fork to use for a request, from its version header (`None` when the
/// header is absent): a supported fork, or the not-supported or the
/// missing-header condition.
pub fn negotiate(header: Option<&str>) -> (r: Result<Fork, Error>)
    ensures
        match selection_of(header_view(header)) {
            ForkSelection::Supported(f) => r == Ok::<Fork, Error>(f),
            ForkSelection::NotSupported(_) => is_custom(r, not_supported_message()),
            ForkSelection::Missing => is_custom(r, missing_header_message()),
        },
{
    match select_fork(header) {
        ForkSelection::Supported(f) => Ok(f),
        ForkSelection::NotSupported(_) => Err(Error::Custom(String::from_str("fork not supported"))),
        ForkSelection::Missing => Err(
            Error::Custom(String::from_str("Missing Eth-Consensus-Version header")),
        ),
    }
}

/// The fork under which a block is opened: the declared one, when the block
/// is of that fork and the fork is supported. Checked before any exchange.
pub fn open_bid_fork<B>(declared: Fork, block: &Versioned<B>) -> (r: Result<Fork, Error>)
    ensures
        declared == block.version && fork_supported(declared) ==> r == Ok::<Fork, Error>(declared),
        declared != block.version ==> is_custom(r, fork_mismatch_message()),
        declared == block.version && !fork_supported(declared) ==> is_custom(
            r,
            not_supported_message(),
        ),
{
    if declared != block.version {
        Err(Error::Custom(String::from_str("block does not match the declared fork")))
    } else if !declared.is_supported() {
        Err(Error::Custom(String::from_str("fork not supported")))
    } else {
        Ok(declared)
    }
}

/// A version header that names a known fork whose types are not wired in
/// always gives the not-supported condition, whatever the request.
pub proof fn lemma_unsupported_fork_header(f: Fork)
    requires
        !fork_supported(f),
    ensures
        selection_of(Some(fork_name(f))) == ForkSelection::NotSupported(f),
{
    reveal_strlit("bellatrix");
    reveal_strlit("capella");
    assert(fork_name(Fork::Bellatrix)[0] != fork_name(Fork::Capella)[0]);
}

/// An absent version header always gives the missing-header condition, and
/// its message names the header.
pub proof fn lemma_missing_header()
    ensures
        selection_of(None) == ForkSelection::Missing,
        missing_header_message() == "Missing "@ + CONSENSUS_VERSION_HEADER@ + " header"@,
{
    reveal_strlit("Missing Eth-Consensus-Version header");
    reveal_strlit("Missing ");
    reveal_strlit("Eth-Consensus-Version");
    reveal_strlit(" header");
    assert(missing_header_message() =~= "Missing "@ + CONSENSUS_VERSION_HEADER@ + " header"@);
}

} // verus!
