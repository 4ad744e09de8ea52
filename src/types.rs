use vstd::prelude::*;

verus! {

/// A fork's execution payload.
pub trait ExecutionPayload {}

/// A fork's builder bid over the payload type `T`.
pub trait BuilderBid<T: ExecutionPayload> {}

/// A fork's signed builder bid over the payload type `T`.
pub trait SignedBuilderBid<T: ExecutionPayload> {}

/// A fork's signed blinded beacon block.
pub trait SignedBlindedBeaconBlock {}

/// The 256-bit unsigned integer of the SSZ library, carried as it is.
#[verifier::external_type_specification]
#[verifier::external_body]
pub struct ExU256(ssz_rs::U256);

/// Relies on the derived `Clone` of `ssz_rs::U256`, which copies the number;
/// nothing is claimed of the copy.
pub assume_specification[ <ssz_rs::U256 as Clone>::clone ](u: &ssz_rs::U256) -> ssz_rs::U256;

/// A payload together with its value.
pub struct ExecutionPayloadWithValue<T: ExecutionPayload> {
    pub payload: T,
    pub value: ssz_rs::U256,
}

/// Identifies a bid opportunity: a slot, the parent block's hash and the
/// proposer's public key.
#[derive(Clone, Copy, Debug, Hash)]
pub struct BidRequest {
    pub slot: u64,
    pub parent_hash: [u8; 32],
    pub public_key: [u8; 48],
}

/// Byte-wise comparison of two arrays of one length.
fn bytes_eq<const N: usize>(a: &[u8; N], b: &[u8; N]) -> (r: bool)
    ensures
        r == (a@ == b@),
{
    let mut i: usize = 0;
    while i < N
        invariant
            a@.len() == N,
            b@.len() == N,
            i <= N,
            forall|j: int| 0 <= j < i ==> a@[j] == b@[j],
        decreases N - i,
    {
        if a[i] != b[i] {
            return false;
        }
        i = i + 1;
    }
    proof {
        assert(a@ =~= b@);
    }
    true
}

/// Two requests are equal when all three fields are.
pub open spec fn same_request(a: BidRequest, b: BidRequest) -> bool {
    a.slot == b.slot && a.parent_hash@ == b.parent_hash@ && a.public_key@ == b.public_key@
}

impl PartialEq for BidRequest {
    fn eq(&self, o: &BidRequest) -> (r: bool) {
        self.slot == o.slot && bytes_eq(&self.parent_hash, &o.parent_hash) && bytes_eq(
            &self.public_key,
            &o.public_key,
        )
    }
}

impl vstd::std_specs::cmp::PartialEqSpecImpl for BidRequest {
    open spec fn obeys_eq_spec() -> bool {
        true
    }

    open spec fn eq_spec(&self, o: &BidRequest) -> bool {
        same_request(*self, *o)
    }
}

impl Eq for BidRequest {}

impl Default for BidRequest {
    fn default() -> (r: BidRequest)
        ensures
            r.slot == 0,
            forall|i: int| 0 <= i < 32 ==> r.parent_hash[i] == 0,
            forall|i: int| 0 <= i < 48 ==> r.public_key[i] == 0,
    {
        BidRequest { slot: 0, parent_hash: [0u8; 32], public_key: [0u8; 48] }
    }
}

} // verus!
