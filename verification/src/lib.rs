//! A minimal blockchain header layer: hash-linked block headers with a
//! verified ancestry (sub-chain) checker, and a pluggable consensus
//! capability implemented by several interchangeable engines.

pub mod consensus;
pub mod engines;
pub mod header;

pub use consensus::Consensus;
pub use consensus::ConsensusAuthority;
pub use consensus::PreData;
pub use engines::Dictator;
pub use engines::EvenOnly;
pub use engines::Interleave;
pub use engines::InterleaveDigest;
pub use engines::Poa;
pub use engines::Pow;
pub use header::Header;
