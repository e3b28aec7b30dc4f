//! Concrete consensus engines: proof of work, a dictator, rotating proof of
//! authority, a parity-restricted engine, and a composite that interleaves
//! two engines by height.

use std::collections::hash_map::DefaultHasher;
use std::hash::Hasher;
use vstd::bytes::spec_u64_to_le_bytes;
use vstd::bytes::u64_to_le_bytes;
use vstd::prelude::*;
use vstd::std_specs::hash::DefaultHasherAdditionalSpecFns;

use crate::consensus::Consensus;
use crate::consensus::ConsensusAuthority;
use crate::consensus::PreData;

verus! {

/// Every work hash must fall strictly below this fixed difficulty target for
/// the proof of work to count.
pub const POW_THRESHOLD: u64 = 0x0100_0000_0000_0000;

/// The byte strings that the work hash commits to: every pre-seal field and
/// the candidate nonce, little-endian.
spec fn work_bytes(pre_data: PreData, nonce: u64) -> Seq<Seq<u8>> {
    seq![
        spec_u64_to_le_bytes(pre_data.parent),
        spec_u64_to_le_bytes(pre_data.height),
        spec_u64_to_le_bytes(pre_data.state_root),
        spec_u64_to_le_bytes(pre_data.extrinsics_root),
        spec_u64_to_le_bytes(nonce),
    ]
}

/// The work hash of pre-seal data combined with a nonce: a pure function of
/// its two arguments.
pub closed spec fn work_hash_spec(pre_data: PreData, nonce: u64) -> u64 {
    DefaultHasher::spec_finish(work_bytes(pre_data, nonce))
}

/// Hashes pre-seal data together with a candidate nonce, using Rust's
/// built-in hasher.
pub fn work_hash(pre_data: &PreData, nonce: u64) -> (digest: u64)
    ensures
        digest == work_hash_spec(*pre_data, nonce),
{
    let mut hasher = DefaultHasher::new();
    let parent_bytes = u64_to_le_bytes(pre_data.parent);
    hasher.write(parent_bytes.as_slice());
    let height_bytes = u64_to_le_bytes(pre_data.height);
    hasher.write(height_bytes.as_slice());
    let state_bytes = u64_to_le_bytes(pre_data.state_root);
    hasher.write(state_bytes.as_slice());
    let extrinsics_bytes = u64_to_le_bytes(pre_data.extrinsics_root);
    hasher.write(extrinsics_bytes.as_slice());
    let nonce_bytes = u64_to_le_bytes(nonce);
    hasher.write(nonce_bytes.as_slice());
    proof {
        assert(hasher@ =~= work_bytes(*pre_data, nonce));
    }
    hasher.finish()
}

/// The proof-of-work engine: the seal is a nonce such that hashing the
/// pre-seal data together with that nonce falls under the difficulty target.
/// Sealing searches nonces incrementally; validation recomputes one hash.
pub struct Pow;

impl Consensus for Pow {
    type Digest = u64;

    open spec fn spec_valid(pre_data: PreData, seal: u64) -> bool {
        work_hash_spec(pre_data, seal) < POW_THRESHOLD
    }

    open spec fn spec_can_seal(pre_data: PreData) -> bool {
        exists|nonce: u64| #[trigger] work_hash_spec(pre_data, nonce) < POW_THRESHOLD
    }

    fn validate(pre_data: &PreData, seal: u64) -> (valid: bool) {
        work_hash(pre_data, seal) < POW_THRESHOLD
    }

    fn seal(pre_data: &PreData) -> (digest: u64) {
        let mut nonce: u64 = 0;
        loop
            invariant
                forall|j: u64| j < nonce ==> #[trigger] work_hash_spec(*pre_data, j)
                    >= POW_THRESHOLD,
            decreases u64::MAX - nonce,
        {
            let candidate = work_hash(pre_data, nonce);
            if candidate < POW_THRESHOLD {
                return nonce;
            }
            if nonce == u64::MAX {
                // Every nonce failed, so no winning nonce exists and nothing
                // is owed of the returned value.
                proof {
                    assert(forall|j: u64| #[trigger] work_hash_spec(*pre_data, j)
                        >= POW_THRESHOLD);
                }
                return 0;
            }
            nonce = nonce + 1;
        }
    }

    fn human_name() -> String {
        String::from_str("Proof of Work")
    }
}

/// The dictator engine: a single fixed authority seals every block, and only
/// that authority's marker is ever a valid seal. It is proof of authority
/// restricted to a one-member authority set.
pub struct Dictator;

impl Dictator {
    /// The one authority this engine obeys.
    pub open spec fn spec_authority() -> ConsensusAuthority {
        ConsensusAuthority::Alice
    }

    /// The one authority this engine obeys.
    pub fn authority() -> (a: ConsensusAuthority)
        ensures
            a == Self::spec_authority(),
    {
        ConsensusAuthority::Alice
    }
}

impl Consensus for Dictator {
    type Digest = ConsensusAuthority;

    open spec fn spec_valid(pre_data: PreData, seal: ConsensusAuthority) -> bool {
        seal == Self::spec_authority()
    }

    open spec fn spec_can_seal(pre_data: PreData) -> bool {
        true
    }

    fn validate(pre_data: &PreData, seal: ConsensusAuthority) -> (valid: bool) {
        match seal {
            ConsensusAuthority::Alice => true,
            _ => false,
        }
    }

    fn seal(pre_data: &PreData) -> (digest: ConsensusAuthority) {
        Self::authority()
    }

    fn human_name() -> String {
        String::from_str("Dictator")
    }
}

/// The dictator's own seal always validates, whatever the pre-seal data; a
/// seal naming any other authority never does.
pub proof fn lemma_dictator_seal(pre_data: PreData, other: ConsensusAuthority)
    requires
        other != Dictator::spec_authority(),
    ensures
        Dictator::spec_valid(pre_data, Dictator::spec_authority()),
        !Dictator::spec_valid(pre_data, other),
{
}

/// Rotating proof of authority: at height `h`, only the authority whose slot
/// it is — round-robin over the whole authority set — may seal.
pub struct Poa;

impl Poa {
    /// The authority whose slot the given height falls in.
    pub open spec fn spec_slot_authority(height: u64) -> ConsensusAuthority {
        if height % 3 == 0 {
            ConsensusAuthority::Alice
        } else if height % 3 == 1 {
            ConsensusAuthority::Bob
        } else {
            ConsensusAuthority::Charlie
        }
    }

    /// The authority whose slot the given height falls in.
    pub fn slot_authority(height: u64) -> (a: ConsensusAuthority)
        ensures
            a == Self::spec_slot_authority(height),
    {
        let rem = height % 3;
        if rem == 0 {
            ConsensusAuthority::Alice
        } else if rem == 1 {
            ConsensusAuthority::Bob
        } else {
            ConsensusAuthority::Charlie
        }
    }
}

impl Consensus for Poa {
    type Digest = ConsensusAuthority;

    open spec fn spec_valid(pre_data: PreData, seal: ConsensusAuthority) -> bool {
        seal == Self::spec_slot_authority(pre_data.height)
    }

    open spec fn spec_can_seal(pre_data: PreData) -> bool {
        true
    }

    fn validate(pre_data: &PreData, seal: ConsensusAuthority) -> (valid: bool) {
        seal == Self::slot_authority(pre_data.height)
    }

    fn seal(pre_data: &PreData) -> (digest: ConsensusAuthority) {
        Self::slot_authority(pre_data.height)
    }

    fn human_name() -> String {
        String::from_str("Rotating Proof of Authority")
    }
}

/// A deliberately restrictive engine: it accepts a block purely on a parity
/// constraint over its height — only even heights may be sealed — and is
/// indifferent to who sealed it. The seal carries no information.
pub struct EvenOnly;

impl Consensus for EvenOnly {
    type Digest = ();

    open spec fn spec_valid(pre_data: PreData, seal: ()) -> bool {
        pre_data.height % 2 == 0
    }

    open spec fn spec_can_seal(pre_data: PreData) -> bool {
        pre_data.height % 2 == 0
    }

    fn validate(pre_data: &PreData, seal: ()) -> (valid: bool) {
        pre_data.height % 2 == 0
    }

    fn seal(pre_data: &PreData) -> (digest: ()) {
        ()
    }

    fn human_name() -> String {
        String::from_str("Even Heights Only")
    }
}

/// The seal of the interleaved composite: a tagged union recording which
/// inner engine produced it.
#[derive(Clone, Debug, PartialEq, Eq, Hash)]
pub enum InterleaveDigest<DA, DB> {
    /// A seal from the engine that owns the even heights.
    Even(DA),
    /// A seal from the engine that owns the odd heights.
    Odd(DB),
}

/// A composite engine wrapping two inner engines: `A` is authoritative at
/// even heights, `B` at odd heights. Sealing and validation dispatch by the
/// same selection rule, and a seal whose tag does not match the engine
/// assigned to its height is rejected outright.
pub struct Interleave<A, B> {
    even_engine: core::marker::PhantomData<A>,
    odd_engine: core::marker::PhantomData<B>,
}

impl<A: Consensus, B: Consensus> Consensus for Interleave<A, B> {
    type Digest = InterleaveDigest<A::Digest, B::Digest>;

    open spec fn spec_valid(pre_data: PreData, seal: Self::Digest) -> bool {
        match seal {
            InterleaveDigest::Even(inner) => pre_data.height % 2 == 0 && A::spec_valid(
                pre_data,
                inner,
            ),
            InterleaveDigest::Odd(inner) => pre_data.height % 2 == 1 && B::spec_valid(
                pre_data,
                inner,
            ),
        }
    }

    open spec fn spec_can_seal(pre_data: PreData) -> bool {
        if pre_data.height % 2 == 0 {
            A::spec_can_seal(pre_data)
        } else {
            B::spec_can_seal(pre_data)
        }
    }

    fn validate(pre_data: &PreData, seal: Self::Digest) -> (valid: bool) {
        match seal {
            InterleaveDigest::Even(inner) => pre_data.height % 2 == 0 && A::validate(
                pre_data,
                inner,
            ),
            InterleaveDigest::Odd(inner) => pre_data.height % 2 == 1 && B::validate(
                pre_data,
                inner,
            ),
        }
    }

    fn seal(pre_data: &PreData) -> (digest: Self::Digest) {
        if pre_data.height % 2 == 0 {
            InterleaveDigest::Even(A::seal(pre_data))
        } else {
            InterleaveDigest::Odd(B::seal(pre_data))
        }
    }

    fn human_name() -> String {
        String::from_str("Interleaved Composite")
    }
}

/// At an even height the composite accepts an even-tagged seal exactly when
/// the even-side engine accepts its payload; presenting any even-tagged seal
/// at an odd height fails validation outright.
pub proof fn lemma_interleave_dispatch<A: Consensus, B: Consensus>(
    pre_even: PreData,
    pre_odd: PreData,
    inner: A::Digest,
)
    requires
        pre_even.height % 2 == 0,
        pre_odd.height % 2 == 1,
    ensures
        Interleave::<A, B>::spec_valid(pre_even, InterleaveDigest::Even(inner)) == A::spec_valid(
            pre_even,
            inner,
        ),
        !Interleave::<A, B>::spec_valid(pre_odd, InterleaveDigest::Even(inner)),
{
}

} // verus!
