//! Unit tests over the protocol's data model: digests, the commitment
//! tree, signal planning, verification inputs, and aggregation planning.

use semaphore::access_set::AccessSet;
use semaphore::error::SemaphoreError;
use semaphore::field::{Digest, FIELD_ORDER};
use semaphore::gadgets::NumericCustomGate;
use semaphore::recursion::AggregationPlan;
use semaphore::signal::{
    aggregated_public_inputs, signal_public_inputs, split_signal_public_inputs, Signal,
    VerifierMetadata,
};
use semaphore::tree::CommitmentTree;

fn digest(a: u64, b: u64, c: u64, d: u64) -> Digest {
    Digest::from_elements(a, b, c, d).unwrap()
}

/// A small set of eight distinct commitments with a fixed cap digest.
fn eight_member_set() -> AccessSet {
    let leaves: Vec<Digest> = (0..8u64).map(|i| digest(i, i + 100, i + 200, i + 300)).collect();
    let cap = digest(11, 22, 33, 44);
    AccessSet(CommitmentTree::new(leaves, cap).unwrap())
}

#[test]
fn digest_rejects_out_of_range_elements() {
    assert!(Digest::from_elements(FIELD_ORDER, 0, 0, 0).is_none());
    assert!(Digest::from_elements(0, FIELD_ORDER, 0, 0).is_none());
    let d = Digest::from_elements(FIELD_ORDER - 1, 0, 1, 2).unwrap();
    assert_eq!(d.e0, FIELD_ORDER - 1);
    assert_eq!(d.e3, 2);
}

#[test]
fn tree_rejects_empty_leaves() {
    let r = CommitmentTree::new(Vec::new(), digest(0, 0, 0, 0));
    assert_eq!(r.err(), Some(SemaphoreError::UnsupportedLeafCount));
}

#[test]
fn tree_rejects_non_power_of_two_leaves() {
    let leaves = vec![digest(1, 0, 0, 0), digest(2, 0, 0, 0), digest(3, 0, 0, 0)];
    let r = CommitmentTree::new(leaves, digest(0, 0, 0, 0));
    assert_eq!(r.err(), Some(SemaphoreError::UnsupportedLeafCount));
}

#[test]
fn tree_stores_leaves_and_cap() {
    let set = eight_member_set();
    assert_eq!(set.member_count(), 8);
    assert_eq!(set.0.height, 3);
    assert_eq!(set.cap(), digest(11, 22, 33, 44));
    assert_eq!(set.0.leaf(5).unwrap(), digest(5, 105, 205, 305));
    assert_eq!(set.0.leaf(8).err(), Some(SemaphoreError::IndexOutOfRange));
}

#[test]
fn tree_path_gives_sibling_positions() {
    let set = eight_member_set();
    // leaf 5 = 0b101: siblings are node 4 at the leaf level, node 3 above,
    // node 0 below the root.
    assert_eq!(set.0.path(5).unwrap(), vec![4, 3, 0]);
    assert_eq!(set.0.path(0).unwrap(), vec![1, 1, 1]);
    assert_eq!(set.0.path(8).err(), Some(SemaphoreError::IndexOutOfRange));
}

#[test]
fn make_signal_plans_witnesses_and_preimages() {
    let set = eight_member_set();
    let secret = vec![9, 8, 7, 6];
    let topic = digest(41, 42, 43, 44);
    let commitment = digest(5, 105, 205, 305);
    let plan = set.make_signal(&secret, &topic, 5, &commitment).unwrap();
    assert_eq!(plan.secret, vec![9, 8, 7, 6]);
    assert_eq!(plan.topic, topic);
    assert_eq!(plan.index, 5);
    assert_eq!(plan.leaf_input, vec![9, 8, 7, 6, 0, 0, 0, 0]);
    assert_eq!(plan.nullifier_input, vec![9, 8, 7, 6, 41, 42, 43, 44]);
    assert_eq!(plan.sibling_positions, vec![4, 3, 0]);
    // index 5 is 0b101, little-endian
    assert_eq!(plan.index_bits, vec![true, false, true]);
}

#[test]
fn make_signal_index_one_past_end_fails() {
    let set = eight_member_set();
    let secret = vec![9, 8, 7, 6];
    let topic = digest(41, 42, 43, 44);
    let commitment = digest(5, 105, 205, 305);
    // index equal to the leaf count, one past the end
    let r = set.make_signal(&secret, &topic, 8, &commitment);
    assert_eq!(r.err(), Some(SemaphoreError::IndexOutOfRange));
}

#[test]
fn make_signal_wrong_commitment_fails() {
    let set = eight_member_set();
    let secret = vec![9, 8, 7, 6];
    let topic = digest(41, 42, 43, 44);
    // the commitment of leaf 4, claimed for index 5
    let commitment = digest(4, 104, 204, 304);
    let r = set.make_signal(&secret, &topic, 5, &commitment);
    assert_eq!(r.err(), Some(SemaphoreError::WitnessMismatch));
}

#[test]
fn make_signal_wrong_secret_arity_fails() {
    let set = eight_member_set();
    let topic = digest(41, 42, 43, 44);
    let commitment = digest(5, 105, 205, 305);
    let r = set.make_signal(&vec![1, 2, 3], &topic, 5, &commitment);
    assert_eq!(r.err(), Some(SemaphoreError::ArityMismatch));
    let r = set.make_signal(&vec![1, 2, 3, 4, 5], &topic, 5, &commitment);
    assert_eq!(r.err(), Some(SemaphoreError::ArityMismatch));
}

#[test]
fn verification_inputs_follow_the_fixed_layout() {
    let set = eight_member_set();
    let topic = digest(41, 42, 43, 44);
    let signal = Signal { nullifier: digest(1, 2, 3, 4), proof: vec![0xAB, 0xCD] };
    let v = set.verification_inputs(&topic, &signal);
    assert_eq!(v, vec![11, 22, 33, 44, 1, 2, 3, 4, 41, 42, 43, 44]);
}

#[test]
fn verification_inputs_change_with_topic_or_nullifier() {
    let set = eight_member_set();
    let signal = Signal { nullifier: digest(1, 2, 3, 4), proof: vec![0xAB] };
    let bound = set.verification_inputs(&digest(41, 42, 43, 44), &signal);
    let other_topic = set.verification_inputs(&digest(41, 42, 43, 45), &signal);
    assert_ne!(bound, other_topic);
    let tampered = Signal { nullifier: digest(1, 2, 3, 5), proof: vec![0xAB] };
    let other_nullifier = set.verification_inputs(&digest(41, 42, 43, 44), &tampered);
    assert_ne!(bound, other_nullifier);
}

#[test]
fn verify_signal_maps_the_backend_verdict() {
    let set = eight_member_set();
    let topic = digest(41, 42, 43, 44);
    let signal = Signal { nullifier: digest(1, 2, 3, 4), proof: vec![0xAB] };
    assert!(set.verify_signal(&topic, &signal, true).is_ok());
    assert_eq!(
        set.verify_signal(&topic, &signal, false).err(),
        Some(SemaphoreError::VerificationFailed)
    );
}

#[test]
fn signal_from_prover_output_maps_failure_to_witness_mismatch() {
    let n = digest(1, 2, 3, 4);
    let s = Signal::from_prover_output(n, Some(vec![1, 2, 3])).unwrap();
    assert_eq!(s.nullifier, n);
    assert_eq!(s.proof, vec![1, 2, 3]);
    let r = Signal::from_prover_output(n, None);
    assert_eq!(r.err(), Some(SemaphoreError::WitnessMismatch));
}

#[test]
fn public_inputs_split_inverts_assembly() {
    let cap = digest(11, 22, 33, 44);
    let nullifier = digest(1, 2, 3, 4);
    let topic = digest(41, 42, 43, 44);
    let pis = signal_public_inputs(&cap, &nullifier, &topic);
    let (c, n, t) = split_signal_public_inputs(&pis).unwrap();
    assert_eq!(c, cap);
    assert_eq!(n, nullifier);
    assert_eq!(t, topic);
    assert!(split_signal_public_inputs(&vec![1, 2, 3]).is_none());
}

#[test]
fn aggregation_plan_reconstructs_both_inner_inputs() {
    let set = eight_member_set();
    let topic0 = digest(41, 42, 43, 44);
    let topic1 = digest(51, 52, 53, 54);
    let signal0 = Signal { nullifier: digest(1, 2, 3, 4), proof: vec![0xA0] };
    let signal1 = Signal { nullifier: digest(5, 6, 7, 8), proof: vec![0xA1] };
    let meta = VerifierMetadata { key_bytes: vec![9, 9], num_public_inputs: 12 };
    let plan: AggregationPlan =
        set.aggregate_signals(&topic0, &signal0, &topic1, &signal1, &meta).unwrap();
    assert_eq!(plan.public_inputs0, vec![11, 22, 33, 44, 1, 2, 3, 4, 41, 42, 43, 44]);
    assert_eq!(plan.public_inputs1, vec![11, 22, 33, 44, 5, 6, 7, 8, 51, 52, 53, 54]);
    assert_eq!(plan.outer_public_inputs, vec![1, 2, 3, 4, 5, 6, 7, 8]);
    assert_eq!(plan.outer_public_inputs, aggregated_public_inputs(&signal0.nullifier, &signal1.nullifier));
    assert_eq!(plan.nullifier0, signal0.nullifier);
    assert_eq!(plan.nullifier1, signal1.nullifier);
}

#[test]
fn aggregation_rejects_mismatched_circuit_shape() {
    let set = eight_member_set();
    let topic = digest(41, 42, 43, 44);
    let signal = Signal { nullifier: digest(1, 2, 3, 4), proof: vec![0xA0] };
    let meta = VerifierMetadata { key_bytes: vec![9], num_public_inputs: 13 };
    let r = set.aggregate_signals(&topic, &signal, &topic, &signal, &meta);
    assert_eq!(r.err(), Some(SemaphoreError::IncompatibleCircuitShape));
}

#[test]
fn complete_aggregation_surfaces_every_outcome() {
    let set = eight_member_set();
    let plan = AggregationPlan {
        public_inputs0: vec![0; 12],
        public_inputs1: vec![0; 12],
        outer_public_inputs: vec![0; 8],
        nullifier0: digest(1, 2, 3, 4),
        nullifier1: digest(5, 6, 7, 8),
    };
    let r = set.complete_aggregation(&plan, None, false);
    assert_eq!(r.err(), Some(SemaphoreError::IncompatibleCircuitShape));
    let r = set.complete_aggregation(&plan, Some(vec![7]), false);
    assert_eq!(r.err(), Some(SemaphoreError::SelfCheckFailed));
    let agg = set.complete_aggregation(&plan, Some(vec![7, 8]), true).unwrap();
    assert_eq!(agg.nullifier0, digest(1, 2, 3, 4));
    assert_eq!(agg.nullifier1, digest(5, 6, 7, 8));
    assert_eq!(agg.proof, vec![7, 8]);
}

#[test]
fn gate_wire_ranges_partition_each_operation() {
    assert_eq!(NumericCustomGate::<2>::wires_multiplicand_0(0), 0..2);
    assert_eq!(NumericCustomGate::<2>::wires_multiplicand_1(0), 2..4);
    assert_eq!(NumericCustomGate::<2>::wires_output(0), 4..6);
    assert_eq!(NumericCustomGate::<2>::wires_multiplicand_0(1), 6..8);
    assert_eq!(NumericCustomGate::<2>::wires_multiplicand_1(1), 8..10);
    assert_eq!(NumericCustomGate::<2>::wires_output(1), 10..12);
    assert_eq!(NumericCustomGate::<4>::wires_multiplicand_0(1), 12..16);
}
