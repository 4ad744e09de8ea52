use vstd::prelude::*;

use crate::text::str_eq;

verus! {

/// The name of the request header that carries the negotiated fork.
pub const CONSENSUS_VERSION_HEADER: &'static str = "Eth-Consensus-Version";

/// The consensus forks that the protocol knows by name.
#[derive(Clone, Copy, Debug, PartialEq, Eq, Structural, Hash)]
pub enum Fork {
    Bellatrix,
    Capella,
}

/// The version token of a fork, as it stands in headers and in response metadata.
pub open spec fn fork_name(f: Fork) -> Seq<char> {
    match f {
        Fork::Bellatrix => "bellatrix"@,
        Fork::Capella => "capella"@,
    }
}

/// Whether the wire types of a fork are wired into the protocol.
pub open spec fn fork_supported(f: Fork) -> bool {
    f == Fork::Bellatrix
}

impl Fork {
    /// The version token of this fork.
    pub fn name(&self) -> (r: &'static str)
        ensures
            r@ == fork_name(*self),
    {
        match self {
            Fork::Bellatrix => "bellatrix",
            Fork::Capella => "capella",
        }
    }

    /// Whether this fork's wire types are wired in.
    pub fn is_supported(&self) -> (r: bool)
        ensures
            r == fork_supported(*self),
    {
        match self {
            Fork::Bellatrix => true,
            Fork::Capella => false,
        }
    }
}

/// The outcome of reading the version header.
#[derive(Clone, Copy, Debug, PartialEq, Eq, Structural)]
pub enum ForkSelection {
    /// The header names a fork whose types are wired in.
    Supported(Fork),
    /// The header names a known fork whose types are not wired in.
    NotSupported(Fork),
    /// The header is absent, or names no known fork.
    Missing,
}

/// The fork that a version token names, if any.
pub open spec fn fork_named(v: Seq<char>) -> Option<Fork> {
    if v == fork_name(Fork::Bellatrix) {
        Some(Fork::Bellatrix)
    } else if v == fork_name(Fork::Capella) {
        Some(Fork::Capella)
    } else {
        None
    }
}

/// The outcome for a header value (`None` when the header is absent).
pub open spec fn selection_of(header: Option<Seq<char>>) -> ForkSelection {
    match header {
        Some(v) => match fork_named(v) {
            Some(f) => if fork_supported(f) {
                ForkSelection::Supported(f)
            } else {
                ForkSelection::NotSupported(f)
            },
            None => ForkSelection::Missing,
        },
        None => ForkSelection::Missing,
    }
}

/// The view of an optional header value.
pub open spec fn header_view(header: Option<&str>) -> Option<Seq<char>> {
    match header {
        Some(h) => Some(h@),
        None => None,
    }
}

/// Reads the version header by exact match against the known forks.
pub fn select_fork(header: Option<&str>) -> (r: ForkSelection)
    ensures
        r == selection_of(header_view(header)),
{
    match header {
        None => ForkSelection::Missing,
        Some(h) => {
            let named = if str_eq(h, Fork::Bellatrix.name()) {
                Some(Fork::Bellatrix)
            } else if str_eq(h, Fork::Capella.name()) {
                Some(Fork::Capella)
            } else {
                None
            };
            match named {
                Some(f) => if f.is_supported() {
                    ForkSelection::Supported(f)
                } else {
                    ForkSelection::NotSupported(f)
                },
                None => ForkSelection::Missing,
            }
        },
    }
}

} // verus!
