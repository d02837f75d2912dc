//! The static genesis configuration and the deterministic construction of
//! the height-0 header, the network's root of trust.

use crate::digest::{zero_digest, H256};
use crate::hashes::sha3_of;
use crate::header::{
    spec_header_bytes, BlockNumber, Header, HeaderBuilder, RawHeaderView,
};
use crate::u256::U256;
use vstd::prelude::*;

verus! {

/// An amount of chain capacity, such as the initial block reward.
pub type Capacity = u64;

/// The static configuration a node reads once at bootstrap. Every node
/// started from the same configuration derives a byte-identical genesis
/// header.
pub struct Config {
    // genesis data
    pub version: u32,
    pub parent_hash: H256,
    pub timestamp: u64,
    pub txs_commit: H256,
    pub difficulty: U256,
    pub number: BlockNumber,
    pub nonce: u64,
    pub proof_bytes: Vec<u8>,
    // other config
    pub initial_block_reward: Capacity,
}

impl Config {
    pub fn default() -> (r: Config)
        ensures
            r.version == 0,
            r.parent_hash@ == zero_digest(),
            r.timestamp == 0,
            r.txs_commit@ == zero_digest(),
            r.difficulty.val() == 0,
            r.number == 0,
            r.nonce == 0,
            r.proof_bytes@ == Seq::<u8>::empty(),
            r.initial_block_reward == 0,
    {
        Config {
            version: 0,
            parent_hash: H256::zero(),
            timestamp: 0,
            txs_commit: H256::zero(),
            difficulty: U256::zero(),
            number: 0,
            nonce: 0,
            proof_bytes: Vec::new(),
            initial_block_reward: 0,
        }
    }

    /// Builds the genesis header this configuration describes, through the
    /// same canonical serialization and hashing used everywhere else.
    pub fn genesis_block(&self) -> (h: Header)
        ensures
            h@.raw == (RawHeaderView {
                version: self.version,
                parent_hash: self.parent_hash@,
                timestamp: self.timestamp,
                number: self.number,
                txs_commit: self.txs_commit@,
                txs_proposal: zero_digest(),
                difficulty: self.difficulty,
                cellbase_id: zero_digest(),
                uncles_hash: zero_digest(),
                uncles_count: 0,
            }),
            h@.seal.nonce == self.nonce,
            h@.seal.proof_bytes == self.proof_bytes@,
            h@.hash == sha3_of(spec_header_bytes(h@.raw, h@.seal)),
            h@.wf(),
    {
        let mut proof_copy: Vec<u8> = Vec::new();
        crate::codec::push_bytes(&mut proof_copy, self.proof_bytes.as_slice());
        let builder = HeaderBuilder::default().version(self.version).parent_hash(
            &self.parent_hash,
        ).timestamp(self.timestamp).number(self.number).txs_commit(&self.txs_commit).difficulty(
            &self.difficulty,
        ).nonce(self.nonce).proof_bytes(proof_copy);
        let h = builder.build();
        proof {
            assert(h@.raw =~= RawHeaderView {
                version: self.version,
                parent_hash: self.parent_hash@,
                timestamp: self.timestamp,
                number: self.number,
                txs_commit: self.txs_commit@,
                txs_proposal: zero_digest(),
                difficulty: self.difficulty,
                cellbase_id: zero_digest(),
                uncles_hash: zero_digest(),
                uncles_count: 0,
            });
        }
        h
    }
}

} // verus!
