//! Consensus-critical block-header commitments and proof-of-work difficulty
//! retargeting.

pub mod adjuster;
pub mod codec;
pub mod config;
pub mod digest;
pub mod error;
pub mod hashes;
pub mod header;
pub mod params;
pub mod target;
pub mod u256;
