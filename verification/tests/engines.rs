use header_chain::Consensus;
use header_chain::ConsensusAuthority;
use header_chain::Dictator;
use header_chain::EvenOnly;
use header_chain::Interleave;
use header_chain::InterleaveDigest;
use header_chain::Poa;
use header_chain::Pow;
use header_chain::PreData;

fn pre_at(height: u64) -> PreData {
    PreData {
        parent: 7,
        height,
        state_root: 11,
        extrinsics_root: 13,
    }
}

#[test]
fn dictator_own_seal_always_validates() {
    for height in 0..6 {
        let pre = pre_at(height);
        let seal = Dictator::seal(&pre);
        assert_eq!(seal, ConsensusAuthority::Alice);
        assert!(Dictator::validate(&pre, seal));
    }
}

#[test]
fn dictator_rejects_other_authorities() {
    for height in 0..6 {
        let pre = pre_at(height);
        assert!(!Dictator::validate(&pre, ConsensusAuthority::Bob));
        assert!(!Dictator::validate(&pre, ConsensusAuthority::Charlie));
    }
}

#[test]
fn poa_slots_rotate_through_all_authorities() {
    assert!(Poa::validate(&pre_at(0), ConsensusAuthority::Alice));
    assert!(Poa::validate(&pre_at(1), ConsensusAuthority::Bob));
    assert!(Poa::validate(&pre_at(2), ConsensusAuthority::Charlie));
    assert!(Poa::validate(&pre_at(3), ConsensusAuthority::Alice));
    assert!(!Poa::validate(&pre_at(0), ConsensusAuthority::Bob));
    assert!(!Poa::validate(&pre_at(1), ConsensusAuthority::Charlie));
}

#[test]
fn poa_seal_matches_its_slot() {
    for height in 0..9 {
        let pre = pre_at(height);
        let seal = Poa::seal(&pre);
        assert!(Poa::validate(&pre, seal));
    }
}

#[test]
fn even_only_accepts_even_heights_only() {
    assert!(EvenOnly::validate(&pre_at(4), ()));
    assert!(!EvenOnly::validate(&pre_at(5), ()));
    let pre = pre_at(8);
    let seal = EvenOnly::seal(&pre);
    assert!(EvenOnly::validate(&pre, seal));
}

#[test]
fn pow_seal_meets_the_target() {
    let pre = pre_at(3);
    let nonce = Pow::seal(&pre);
    assert!(Pow::validate(&pre, nonce));
}

#[test]
fn pow_rejects_earlier_nonces() {
    let pre = pre_at(3);
    let nonce = Pow::seal(&pre);
    // The search returns the first winning nonce, so every earlier one fails.
    if nonce > 0 {
        assert!(!Pow::validate(&pre, 0));
        assert!(!Pow::validate(&pre, nonce - 1));
    }
}

#[test]
fn pow_validation_is_deterministic() {
    let pre = pre_at(12);
    let nonce = Pow::seal(&pre);
    assert_eq!(Pow::validate(&pre, nonce), Pow::validate(&pre, nonce));
}

type Composite = Interleave<Dictator, Poa>;

#[test]
fn interleave_seal_validates_at_its_own_height() {
    let pre4 = pre_at(4);
    let seal = Composite::seal(&pre4);
    assert_eq!(seal, InterleaveDigest::Even(ConsensusAuthority::Alice));
    assert!(Composite::validate(&pre4, seal));

    let pre5 = pre_at(5);
    let seal = Composite::seal(&pre5);
    assert_eq!(seal, InterleaveDigest::Odd(ConsensusAuthority::Charlie));
    assert!(Composite::validate(&pre5, seal));
}

#[test]
fn interleave_rejects_seal_at_wrong_parity() {
    let pre4 = pre_at(4);
    let seal = Composite::seal(&pre4);
    assert!(Composite::validate(&pre4, seal.clone()));
    // The same seal presented at height 5, where the other engine rules.
    let pre5 = pre_at(5);
    assert!(!Composite::validate(&pre5, seal));
}

#[test]
fn interleave_rejects_mismatched_tag() {
    // An odd-tagged seal at an even height fails even with the right signer.
    let pre4 = pre_at(4);
    assert!(!Composite::validate(
        &pre4,
        InterleaveDigest::Odd(ConsensusAuthority::Bob)
    ));
    // An even-tagged seal at an odd height fails too.
    let pre5 = pre_at(5);
    assert!(!Composite::validate(
        &pre5,
        InterleaveDigest::Even(ConsensusAuthority::Alice)
    ));
}

#[test]
fn engines_report_their_names() {
    assert_eq!(Dictator::human_name(), "Dictator");
    assert_eq!(Pow::human_name(), "Proof of Work");
    assert_eq!(Poa::human_name(), "Rotating Proof of Authority");
    assert_eq!(EvenOnly::human_name(), "Even Heights Only");
    assert_eq!(Composite::human_name(), "Interleaved Composite");
}
