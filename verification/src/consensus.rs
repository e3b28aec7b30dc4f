//! The consensus capability: an interface that decides whether a header is
//! allowed to exist, independently of ancestry and of execution logic.

use vstd::prelude::*;

verus! {

/// The digest type produced by the hashing utility.
pub type Hash = u64;

/// Everything about a prospective header except its seal: the exact input
/// that sealing and consensus validation operate over. The seal is excluded
/// so that validating a seal can never trivially read it.
#[derive(Clone, Copy, Debug, PartialEq, Eq, Hash, Structural)]
pub struct PreData {
    pub parent: Hash,
    pub height: u64,
    pub state_root: Hash,
    pub extrinsics_root: Hash,
}

/// A consensus engine, responsible for authoring and importing blocks.
///
/// Consensus exists independently of execution logic, and therefore operates
/// only on the block headers (here: on their pre-seal data).
pub trait Consensus {
    /// The engine-chosen shape of a seal: a work proof, a signature-like
    /// authority marker, or a tag around an inner engine's digest.
    type Digest;

    /// The engine's legitimacy predicate: exactly which seals this engine
    /// accepts for which pre-seal data.
    spec fn spec_valid(pre_data: PreData, seal: Self::Digest) -> bool;

    /// The pre-seal data on which this engine's `seal` is guaranteed to
    /// produce an accepted seal.
    spec fn spec_can_seal(pre_data: PreData) -> bool;

    /// Validates that a header is valid according to consensus rules. This
    /// function checks ONLY consensus-related aspects such as the signature
    /// or the attached work proof. It does not check ancestry, execution, or
    /// anything else. Never panics: an uninterpretable seal is a rejection.
    fn validate(pre_data: &PreData, seal: Self::Digest) -> (valid: bool)
        ensures
            valid == Self::spec_valid(*pre_data, seal),
    ;

    /// Produces a seal for the given pre-seal data, typically by attaching a
    /// signature or proving work. Wherever this engine can seal at all, the
    /// produced seal passes this engine's own validation.
    fn seal(pre_data: &PreData) -> (digest: Self::Digest)
        ensures
            Self::spec_can_seal(*pre_data) ==> Self::spec_valid(*pre_data, digest),
    ;

    /// A human-readable name for this engine. This may be used in user-facing
    /// programs for error reporting, and plays no role in correctness.
    fn human_name() -> String {
        String::from_str("Unnamed Consensus Engine")
    }
}

/// The closed set of consensus authority accounts that identity-based
/// engines draw their signers and slot-holders from.
#[derive(Clone, Copy, Debug, PartialEq, Eq, Hash, Structural)]
pub enum ConsensusAuthority {
    Alice,
    Bob,
    Charlie,
}

} // verus!
