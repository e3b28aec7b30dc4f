//! The hash-linked block header and the ancestry (sub-chain) verifier.

use std::collections::hash_map::DefaultHasher;
use std::hash::Hasher;
use vstd::bytes::spec_u64_to_le_bytes;
use vstd::bytes::u64_to_le_bytes;
use vstd::prelude::*;
use vstd::std_specs::hash::DefaultHasherAdditionalSpecFns;

verus! {

/// The digest type produced by the hashing utility.
pub type Hash = u64;

/// The sentinel digest stored as the genesis header's parent.
pub const GENESIS_PARENT: Hash = 0;

/// The most basic blockchain header possible: hash-linked block metadata.
///
/// `extrinsics_root` and `state_root` are placeholders for commitments owned
/// by the execution layer, and `consensus_digest` for a seal; this core
/// carries them but never interprets them.
#[derive(Clone, Copy, Debug, PartialEq, Eq, Hash)]
pub struct Header {
    pub parent: Hash,
    pub height: u64,
    pub extrinsics_root: (),
    pub state_root: (),
    pub consensus_digest: (),
}

/// The byte strings of a header that the hashing utility commits to: its
/// parent digest and its height, little-endian. The placeholder fields are
/// unit values and carry no data.
spec fn header_bytes(h: Header) -> Seq<Seq<u8>> {
    seq![spec_u64_to_le_bytes(h.parent), spec_u64_to_le_bytes(h.height)]
}

/// The digest of a header. A pure function of the header's fields, so equal
/// headers always hash alike.
pub closed spec fn hash_spec(h: Header) -> Hash {
    DefaultHasher::spec_finish(header_bytes(h))
}

/// The hashing utility over headers, built on Rust's built-in hasher.
pub fn hash(header: &Header) -> (digest: Hash)
    ensures
        digest == hash_spec(*header),
{
    let mut hasher = DefaultHasher::new();
    let parent_bytes = u64_to_le_bytes(header.parent);
    hasher.write(parent_bytes.as_slice());
    let height_bytes = u64_to_le_bytes(header.height);
    hasher.write(height_bytes.as_slice());
    proof {
        assert(hasher@ =~= header_bytes(*header));
    }
    hasher.finish()
}

/// The child of a header: linked to it by hash, one level higher. The
/// truncating cast only matters at the maximal height, which `child` rules
/// out.
pub open spec fn child_spec(h: Header) -> Header {
    Header {
        parent: hash_spec(h),
        height: (h.height + 1) as u64,
        extrinsics_root: (),
        state_root: (),
        consensus_digest: (),
    }
}

/// Ancestry check: the candidate headers in `chain`, taken in order, extend
/// `trusted` one level at a time, each storing the digest of the header just
/// before it. An empty candidate sequence is trivially valid.
pub open spec fn chain_valid_from(trusted: Header, chain: Seq<Header>) -> bool
    decreases chain.len(),
{
    chain.len() == 0 || {
        &&& chain[0].height == trusted.height + 1
        &&& chain[0].parent == hash_spec(trusted)
        &&& chain_valid_from(chain[0], chain.drop_first())
    }
}

impl Header {
    /// Returns the canonical root header: sentinel parent, height zero,
    /// placeholder roots. Always produces the identical value.
    pub fn genesis() -> (g: Header)
        ensures
            g.parent == GENESIS_PARENT,
            g.height == 0,
    {
        Header {
            parent: GENESIS_PARENT,
            height: 0,
            extrinsics_root: (),
            state_root: (),
            consensus_digest: (),
        }
    }

    /// Creates and returns a valid child header: its parent digest is this
    /// header's hash and its height is one greater. Does not mutate `self`.
    pub fn child(&self) -> (c: Header)
        requires
            self.height < u64::MAX,
        ensures
            c == child_spec(*self),
            c.height == self.height + 1,
            c.parent == hash_spec(*self),
    {
        let parent_hash = hash(self);
        Header {
            parent: parent_hash,
            height: self.height + 1,
            extrinsics_root: (),
            state_root: (),
            consensus_digest: (),
        }
    }

    /// Verifies that the given headers form a valid chain from this header to
    /// the tip. An entire chain can be verified by calling this method on a
    /// genesis header; calling it on a later header verifies the suffix that
    /// follows it. The header it is called on is taken as already trusted;
    /// every header in `chain` is checked, and the walk stops at the first
    /// violated check.
    pub fn verify_sub_chain(&self, chain: &[Header]) -> (valid: bool)
        ensures
            valid == chain_valid_from(*self, chain@),
    {
        let mut current: Header = *self;
        let n = chain.len();
        let mut i: usize = 0;
        proof {
            assert(chain@.skip(0) =~= chain@);
        }
        while i < n
            invariant
                0 <= i <= n,
                n == chain@.len(),
                chain_valid_from(*self, chain@) == chain_valid_from(current, chain@.skip(i as int)),
            decreases n - i,
        {
            let block = *vstd::slice::slice_index_get(chain, i);
            proof {
                assert(chain@.skip(i as int)[0] == chain@[i as int]);
                assert(chain@.skip(i as int).drop_first() =~= chain@.skip(i as int + 1));
            }
            if current.height == u64::MAX || block.height != current.height + 1 {
                return false;
            }
            if block.parent != hash(&current) {
                return false;
            }
            current = block;
            i = i + 1;
        }
        proof {
            assert(chain@.skip(n as int) =~= Seq::<Header>::empty());
        }
        true
    }
}

/// `chain` was built by repeated `child` calls: after the first element,
/// every header is the child of the one just before it.
pub open spec fn built_by_children(chain: Seq<Header>) -> bool {
    forall|i: int| 1 <= i < chain.len() ==> #[trigger] chain[i] == child_spec(chain[i - 1])
}

/// Every height along `chain` except possibly the last is below the maximal
/// height, so taking each link's child never truncates.
pub open spec fn heights_below_max(chain: Seq<Header>) -> bool {
    forall|i: int| 0 <= i < chain.len() - 1 ==> #[trigger] chain[i].height < u64::MAX
}

/// An empty candidate sequence verifies against any trusted header.
pub proof fn lemma_empty_chain_valid(trusted: Header)
    ensures
        chain_valid_from(trusted, Seq::<Header>::empty()),
{
}

/// A chain built purely by repeated `child` calls verifies in full against
/// its own first element.
#[verifier::rlimit(50)]
pub proof fn lemma_child_chain_valid(chain: Seq<Header>)
    requires
        chain.len() >= 1,
        built_by_children(chain),
        heights_below_max(chain),
    ensures
        chain_valid_from(chain[0], chain.drop_first()),
    decreases chain.len(),
{
    let tail = chain.drop_first();
    if chain.len() > 1 {
        assert forall|i: int| 1 <= i < tail.len() implies #[trigger] tail[i] == child_spec(
            tail[i - 1],
        ) by {
            assert(chain[i + 1] == child_spec(chain[i]));
        }
        assert forall|i: int| 0 <= i < tail.len() - 1 implies #[trigger] tail[i].height
            < u64::MAX by {
            assert(chain[i + 1].height < u64::MAX);
        }
        lemma_child_chain_valid(tail);
        assert(chain[1] == child_spec(chain[0]));
        assert(chain[0].height < u64::MAX);
    }
}

/// Every non-empty suffix of a valid chain is itself valid against the header
/// just before it: verifying from an arbitrary trusted midpoint succeeds.
pub proof fn lemma_valid_chain_suffix(trusted: Header, chain: Seq<Header>, i: int)
    requires
        chain_valid_from(trusted, chain),
        0 <= i < chain.len(),
    ensures
        chain_valid_from(chain[i], chain.skip(i + 1)),
    decreases i,
{
    if i == 0 {
        assert(chain.drop_first() =~= chain.skip(1));
    } else {
        lemma_valid_chain_suffix(chain[0], chain.drop_first(), i - 1);
        assert(chain.drop_first()[i - 1] == chain[i]);
        assert(chain.drop_first().skip(i) =~= chain.skip(i + 1));
    }
}

/// Corrupting the stored height or the stored parent digest of any element of
/// a valid candidate sequence makes the whole sequence fail verification.
pub proof fn lemma_corrupted_chain_invalid(trusted: Header, chain: Seq<Header>, i: int, bad: Header)
    requires
        chain_valid_from(trusted, chain),
        0 <= i < chain.len(),
        bad.height != chain[i].height || bad.parent != chain[i].parent,
    ensures
        !chain_valid_from(trusted, chain.update(i, bad)),
    decreases i,
{
    let corrupted = chain.update(i, bad);
    if i == 0 {
        assert(corrupted[0] == bad);
    } else {
        lemma_corrupted_chain_invalid(chain[0], chain.drop_first(), i - 1, bad);
        assert(corrupted.drop_first() =~= chain.drop_first().update(i - 1, bad));
        assert(corrupted[0] == chain[0]);
    }
}

/// Builds and returns a valid chain with exactly five blocks, the genesis
/// block included.
pub fn build_valid_chain_length_5() -> (chain: Vec<Header>)
    ensures
        chain@.len() == 5,
        chain@[0].parent == GENESIS_PARENT && chain@[0].height == 0,
        built_by_children(chain@),
        chain_valid_from(chain@[0], chain@.skip(1)),
{
    let b1 = Header::genesis();
    let b2 = b1.child();
    let b3 = b2.child();
    let b4 = b3.child();
    let b5 = b4.child();
    let chain = vec![b1, b2, b3, b4, b5];
    proof {
        assert(chain@ =~= seq![b1, b2, b3, b4, b5]);
        lemma_child_chain_valid(chain@);
        assert(chain@.drop_first() =~= chain@.skip(1));
    }
    chain
}

/// Builds and returns a chain of three headers that starts with a proper
/// genesis header but is not valid as a whole: the second header's height was
/// corrupted.
pub fn build_an_invalid_chain() -> (chain: Vec<Header>)
    ensures
        chain@.len() == 3,
        chain@[0].parent == GENESIS_PARENT && chain@[0].height == 0,
        !chain_valid_from(chain@[0], chain@.skip(1)),
{
    let b1 = Header::genesis();
    let mut b2 = b1.child();
    let b3 = b2.child();
    b2.height = 10;
    let chain = vec![b1, b2, b3];
    proof {
        assert(chain@ =~= seq![b1, b2, b3]);
        assert(chain@.skip(1)[0] == b2);
    }
    chain
}

} // verus!
