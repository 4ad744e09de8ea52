use vstd::prelude::*;

use crate::types::{BuilderBid, ExecutionPayload, SignedBuilderBid};

verus! {

/// The header of a Bellatrix execution payload: the payload with its
/// transactions replaced by their root.
#[derive(Clone, Debug, PartialEq, Eq)]
pub struct ExecutionPayloadHeaderBellatrix {
    pub parent_hash: [u8; 32],
    pub fee_recipient: [u8; 20],
    pub state_root: [u8; 32],
    pub receipts_root: [u8; 32],
    pub logs_bloom: [u8; 256],
    pub prev_randao: [u8; 32],
    pub block_number: u64,
    pub gas_limit: u64,
    pub gas_used: u64,
    pub timestamp: u64,
    pub extra_data: Vec<u8>,
    pub base_fee_per_gas: ssz_rs::U256,
    pub block_hash: [u8; 32],
    pub transactions_root: [u8; 32],
}

/// A Bellatrix execution payload.
#[derive(Clone, Debug, PartialEq, Eq)]
pub struct ExecutionPayloadBellatrix {
    pub parent_hash: [u8; 32],
    pub fee_recipient: [u8; 20],
    pub state_root: [u8; 32],
    pub receipts_root: [u8; 32],
    pub logs_bloom: [u8; 256],
    pub prev_randao: [u8; 32],
    pub block_number: u64,
    pub gas_limit: u64,
    pub gas_used: u64,
    pub timestamp: u64,
    pub extra_data: Vec<u8>,
    pub base_fee_per_gas: ssz_rs::U256,
    pub block_hash: [u8; 32],
    pub transactions: Vec<Vec<u8>>,
}

impl ExecutionPayload for ExecutionPayloadBellatrix {}

/// A Bellatrix builder bid: the header it offers, its value and the builder's key.
#[derive(Clone, Debug, PartialEq, Eq)]
pub struct BuilderBidBellatrix {
    pub header: ExecutionPayloadHeaderBellatrix,
    pub value: ssz_rs::U256,
    pub public_key: [u8; 48],
}

impl BuilderBid<ExecutionPayloadBellatrix> for BuilderBidBellatrix {}

/// A Bellatrix builder bid with the builder's signature over it.
#[derive(Clone, Debug, PartialEq, Eq)]
pub struct SignedBuilderBidBellatrix {
    pub message: BuilderBidBellatrix,
    pub signature: [u8; 96],
}

impl SignedBuilderBid<ExecutionPayloadBellatrix> for SignedBuilderBidBellatrix {}

} // verus!
