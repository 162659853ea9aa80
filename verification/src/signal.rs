//! Signal artifacts and the fixed public-input layout.
//!
//! A proof's public inputs are laid out as `cap ‖ nullifier ‖ topic`,
//! twelve field elements. Signal creation, signal verification and
//! aggregation all assemble that sequence through the one function below,
//! so prover and verifier stay in lockstep: a layout mismatch between the
//! two would silently break soundness.

use vstd::prelude::*;

use crate::field::Digest;

verus! {

/// Elements in one digest.
pub const DIGEST_ELEMENTS: usize = 4;

/// Public inputs of a signal's proof: cap, nullifier and topic digests.
pub const SIGNAL_PUBLIC_INPUT_COUNT: usize = 12;

/// The artifact of one signaling event: a nullifier and a succinct proof,
/// the proof carried as opaque bytes produced by the proving backend.
#[derive(Clone, Debug)]
pub struct Signal {
    pub nullifier: Digest,
    pub proof: Vec<u8>,
}

/// The artifact of one pairwise aggregation: both inner nullifiers and a
/// single proof attesting that both inner signals verified.
#[derive(Clone, Debug)]
pub struct AggregatedSignal {
    pub nullifier0: Digest,
    pub nullifier1: Digest,
    pub proof: Vec<u8>,
}

/// Circuit-shape-dependent data a verifier needs: the backend's serialized
/// verification key and the circuit's public-input count. Verification and
/// aggregation must be given the same metadata the proof was built under.
#[derive(Clone, Debug)]
pub struct VerifierMetadata {
    pub key_bytes: Vec<u8>,
    pub num_public_inputs: usize,
}

impl Signal {
    /// Packages the prover's output. A backend that failed to generate
    /// the witness or the proof yields no bytes; that failure surfaces as
    /// an explicit `WitnessMismatch`, never as a panic. On success the
    /// signal carries exactly the nullifier digest the backend derived
    /// and the proof bytes it produced.
    pub fn from_prover_output(nullifier: Digest, proof_bytes: Option<Vec<u8>>) -> (r: Result<
        Signal,
        crate::error::SemaphoreError,
    >)
        ensures
            r is Ok <==> proof_bytes is Some,
            proof_bytes is None ==> r == Result::<Signal, crate::error::SemaphoreError>::Err(
                crate::error::SemaphoreError::WitnessMismatch,
            ),
            r is Ok ==> r->Ok_0.nullifier == nullifier && r->Ok_0.proof@ == proof_bytes->Some_0@,
    {
        match proof_bytes {
            Some(bytes) => Ok(Signal { nullifier, proof: bytes }),
            None => Err(crate::error::SemaphoreError::WitnessMismatch),
        }
    }
}

/// The public-input sequence a signal's proof is bound to:
/// `cap ‖ nullifier ‖ topic`.
pub open spec fn signal_public_inputs_spec(cap: Seq<u64>, nullifier: Seq<u64>, topic: Seq<u64>)
    -> Seq<u64> {
    cap + nullifier + topic
}

/// The public-input sequence of an aggregated proof: exactly the two inner
/// nullifiers, `nullifier0 ‖ nullifier1`.
pub open spec fn aggregated_public_inputs_spec(nullifier0: Seq<u64>, nullifier1: Seq<u64>)
    -> Seq<u64> {
    nullifier0 + nullifier1
}

/// Assembles the twelve public inputs a signal's proof is checked against.
pub fn signal_public_inputs(cap: &Digest, nullifier: &Digest, topic: &Digest) -> (r: Vec<u64>)
    ensures
        r@ == signal_public_inputs_spec(cap@, nullifier@, topic@),
        r@.len() == SIGNAL_PUBLIC_INPUT_COUNT,
{
    let r: Vec<u64> = vec![
        cap.e0,
        cap.e1,
        cap.e2,
        cap.e3,
        nullifier.e0,
        nullifier.e1,
        nullifier.e2,
        nullifier.e3,
        topic.e0,
        topic.e1,
        topic.e2,
        topic.e3,
    ];
    proof {
        assert(r@ =~= signal_public_inputs_spec(cap@, nullifier@, topic@));
    }
    r
}

/// Assembles the public inputs an aggregated proof exposes: the two inner
/// nullifiers, nothing else.
pub fn aggregated_public_inputs(nullifier0: &Digest, nullifier1: &Digest) -> (r: Vec<u64>)
    ensures
        r@ == aggregated_public_inputs_spec(nullifier0@, nullifier1@),
        r@.len() == 2 * DIGEST_ELEMENTS,
{
    let r: Vec<u64> = vec![
        nullifier0.e0,
        nullifier0.e1,
        nullifier0.e2,
        nullifier0.e3,
        nullifier1.e0,
        nullifier1.e1,
        nullifier1.e2,
        nullifier1.e3,
    ];
    proof {
        assert(r@ =~= aggregated_public_inputs_spec(nullifier0@, nullifier1@));
    }
    r
}

/// Splits a public-input sequence back into cap, nullifier and topic;
/// rejects any sequence that is not exactly twelve elements.
pub fn split_signal_public_inputs(pis: &Vec<u64>) -> (r: Option<(Digest, Digest, Digest)>)
    ensures
        r is Some <==> pis@.len() == SIGNAL_PUBLIC_INPUT_COUNT,
        r is Some ==> pis@ == signal_public_inputs_spec(
            r->Some_0.0@,
            r->Some_0.1@,
            r->Some_0.2@,
        ),
{
    if pis.len() != SIGNAL_PUBLIC_INPUT_COUNT {
        return None;
    }
    let cap = Digest { e0: pis[0], e1: pis[1], e2: pis[2], e3: pis[3] };
    let nullifier = Digest { e0: pis[4], e1: pis[5], e2: pis[6], e3: pis[7] };
    let topic = Digest { e0: pis[8], e1: pis[9], e2: pis[10], e3: pis[11] };
    proof {
        assert(pis@ =~= signal_public_inputs_spec(cap@, nullifier@, topic@));
    }
    Some((cap, nullifier, topic))
}

/// The layout is invertible: each of the three digests reads back out of
/// the assembled sequence at its fixed offset.
pub proof fn lemma_public_inputs_round_trip(cap: Digest, nullifier: Digest, topic: Digest)
    ensures
        signal_public_inputs_spec(cap@, nullifier@, topic@).subrange(0, 4) == cap@,
        signal_public_inputs_spec(cap@, nullifier@, topic@).subrange(4, 8) == nullifier@,
        signal_public_inputs_spec(cap@, nullifier@, topic@).subrange(8, 12) == topic@,
{
    let s = signal_public_inputs_spec(cap@, nullifier@, topic@);
    assert(s.subrange(0, 4) =~= cap@);
    assert(s.subrange(4, 8) =~= nullifier@);
    assert(s.subrange(8, 12) =~= topic@);
}

/// The layout is injective: two equal public-input sequences can only have
/// been assembled from the same cap, the same nullifier and the same
/// topic. A proof bound to one topic therefore never matches the inputs
/// reconstructed for another topic or for a tampered nullifier.
pub proof fn lemma_public_inputs_injective(
    cap0: Seq<u64>,
    nullifier0: Seq<u64>,
    topic0: Seq<u64>,
    cap1: Seq<u64>,
    nullifier1: Seq<u64>,
    topic1: Seq<u64>,
)
    requires
        cap0.len() == 4 && nullifier0.len() == 4 && topic0.len() == 4,
        cap1.len() == 4 && nullifier1.len() == 4 && topic1.len() == 4,
        signal_public_inputs_spec(cap0, nullifier0, topic0) == signal_public_inputs_spec(
            cap1,
            nullifier1,
            topic1,
        ),
    ensures
        cap0 == cap1,
        nullifier0 == nullifier1,
        topic0 == topic1,
{
    let s = signal_public_inputs_spec(cap0, nullifier0, topic0);
    assert(cap0 =~= s.subrange(0, 4));
    assert(nullifier0 =~= s.subrange(4, 8));
    assert(topic0 =~= s.subrange(8, 12));
    assert(cap1 =~= s.subrange(0, 4));
    assert(nullifier1 =~= s.subrange(4, 8));
    assert(topic1 =~= s.subrange(8, 12));
}

/// A verifier checking a signal under any other topic, or with a tampered
/// nullifier, checks against a different public-input sequence than the
/// one the proof was bound to at creation.
pub proof fn lemma_verification_inputs_discriminate(
    cap: Seq<u64>,
    nullifier: Seq<u64>,
    topic: Seq<u64>,
    other_nullifier: Seq<u64>,
    other_topic: Seq<u64>,
)
    requires
        cap.len() == 4 && nullifier.len() == 4 && topic.len() == 4,
        other_nullifier.len() == 4 && other_topic.len() == 4,
        other_topic != topic || other_nullifier != nullifier,
    ensures
        signal_public_inputs_spec(cap, nullifier, topic) != signal_public_inputs_spec(
            cap,
            other_nullifier,
            other_topic,
        ),
{
    if signal_public_inputs_spec(cap, nullifier, topic) == signal_public_inputs_spec(
        cap,
        other_nullifier,
        other_topic,
    ) {
        lemma_public_inputs_injective(
            cap,
            nullifier,
            topic,
            cap,
            other_nullifier,
            other_topic,
        );
    }
}

/// The aggregated layout is injective in the same way: an aggregated proof
/// exposing a nullifier pair exposes exactly that pair.
pub proof fn lemma_aggregated_inputs_injective(
    a0: Seq<u64>,
    b0: Seq<u64>,
    a1: Seq<u64>,
    b1: Seq<u64>,
)
    requires
        a0.len() == 4 && b0.len() == 4,
        a1.len() == 4 && b1.len() == 4,
        aggregated_public_inputs_spec(a0, b0) == aggregated_public_inputs_spec(a1, b1),
    ensures
        a0 == a1,
        b0 == b1,
{
    let s = aggregated_public_inputs_spec(a0, b0);
    assert(a0 =~= s.subrange(0, 4));
    assert(b0 =~= s.subrange(4, 8));
    assert(a1 =~= s.subrange(0, 4));
    assert(b1 =~= s.subrange(4, 8));
}

} // verus!
