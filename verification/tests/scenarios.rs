//! End-to-end scenarios over the protocol's verified core, at the scale
//! the system is designed for: an access set of `2^20` identity
//! commitments, a signaler at index 12, a second at index 3005, and a
//! pairwise aggregation exposing exactly the two nullifiers. The backend
//! hashing and proving sit outside the library, so the scenarios drive the
//! planning, layout and outcome-handling steps with fixed digests.

use semaphore::access_set::AccessSet;
use semaphore::error::SemaphoreError;
use semaphore::field::Digest;
use semaphore::signal::{Signal, VerifierMetadata};
use semaphore::tree::CommitmentTree;

fn digest(a: u64, b: u64, c: u64, d: u64) -> Digest {
    Digest::from_elements(a, b, c, d).unwrap()
}

/// A commitment standing for the member with the given index.
fn member_commitment(i: u64) -> Digest {
    digest(i, i.wrapping_mul(31) % 1000, i % 7, 1)
}

fn large_access_set() -> AccessSet {
    let n: u64 = 1 << 20;
    let mut leaves: Vec<Digest> = Vec::with_capacity(n as usize);
    for i in 0..n {
        leaves.push(member_commitment(i));
    }
    let cap = digest(1000, 2000, 3000, 4000);
    AccessSet(CommitmentTree::new(leaves, cap).unwrap())
}

#[test]
fn test_semaphore() {
    let set = large_access_set();
    assert_eq!(set.member_count(), 1 << 20);
    assert_eq!(set.0.height, 20);

    let i: usize = 12;
    let secret = vec![120, 121, 122, 123];
    let topic = digest(7, 8, 9, 10);

    let plan = set.make_signal(&secret, &topic, i, &member_commitment(i as u64)).unwrap();
    assert_eq!(plan.sibling_positions.len(), 20);
    assert_eq!(plan.sibling_positions[0], 13);
    // index 12 is 0b1100, little-endian, padded to the tree height
    assert_eq!(plan.index_bits.len(), 20);
    assert_eq!(&plan.index_bits[0..4], &[false, false, true, true]);
    assert!(plan.index_bits[4..].iter().all(|b| !b));
    assert_eq!(plan.leaf_input, vec![120, 121, 122, 123, 0, 0, 0, 0]);
    assert_eq!(plan.nullifier_input, vec![120, 121, 122, 123, 7, 8, 9, 10]);

    // the backend hashes plan.nullifier_input and proves; its output becomes
    // the signal, and verification checks exactly the bound public inputs.
    let nullifier = digest(90, 91, 92, 93);
    let signal = Signal::from_prover_output(nullifier, Some(vec![0xF0, 0xF1])).unwrap();
    let inputs = set.verification_inputs(&topic, &signal);
    assert_eq!(inputs, vec![1000, 2000, 3000, 4000, 90, 91, 92, 93, 7, 8, 9, 10]);
    assert!(set.verify_signal(&topic, &signal, true).is_ok());
    assert_eq!(
        set.verify_signal(&topic, &signal, false).err(),
        Some(SemaphoreError::VerificationFailed)
    );
}

#[test]
fn test_recursion() {
    let set = large_access_set();

    let i: usize = 12;
    let j: usize = 3005;
    let topic0 = digest(7, 8, 9, 10);
    let topic1 = digest(17, 18, 19, 20);

    let plan0 = set.make_signal(&vec![1, 2, 3, 4], &topic0, i, &member_commitment(i as u64))
        .unwrap();
    let plan1 = set.make_signal(&vec![5, 6, 7, 8], &topic1, j, &member_commitment(j as u64))
        .unwrap();
    assert_eq!(plan0.sibling_positions.len(), 20);
    assert_eq!(plan1.sibling_positions.len(), 20);

    let signal0 = Signal::from_prover_output(digest(90, 91, 92, 93), Some(vec![0xA0])).unwrap();
    let signal1 = Signal::from_prover_output(digest(80, 81, 82, 83), Some(vec![0xA1])).unwrap();

    let meta = VerifierMetadata { key_bytes: vec![1, 2, 3], num_public_inputs: 12 };
    let plan = set.aggregate_signals(&topic0, &signal0, &topic1, &signal1, &meta).unwrap();

    // both inner proofs are re-bound to this set's one cap
    assert_eq!(&plan.public_inputs0[0..4], &[1000, 2000, 3000, 4000]);
    assert_eq!(&plan.public_inputs1[0..4], &[1000, 2000, 3000, 4000]);
    assert_eq!(&plan.public_inputs0[8..12], &[7, 8, 9, 10]);
    assert_eq!(&plan.public_inputs1[8..12], &[17, 18, 19, 20]);

    // the aggregated proof exposes exactly (nullifier0, nullifier1)
    assert_eq!(plan.outer_public_inputs, vec![90, 91, 92, 93, 80, 81, 82, 83]);

    let agg = set.complete_aggregation(&plan, Some(vec![0xBB]), true).unwrap();
    assert_eq!(agg.nullifier0, digest(90, 91, 92, 93));
    assert_eq!(agg.nullifier1, digest(80, 81, 82, 83));
}

#[test]
fn make_signal_boundary_at_leaf_count() {
    let set = large_access_set();
    let n: usize = 1 << 20;
    let r = set.make_signal(&vec![1, 2, 3, 4], &digest(7, 8, 9, 10), n, &member_commitment(0));
    assert_eq!(r.err(), Some(SemaphoreError::IndexOutOfRange));
}
