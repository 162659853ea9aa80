//! Recursive two-signal aggregation.
//!
//! An outer circuit re-verifies two inner signal proofs and exposes their
//! two nullifiers as its only public inputs. The library's share is every
//! datum that crosses into that circuit: the per-signal public inputs are
//! reconstructed here as `cap ‖ nullifier ‖ topic` — exactly the sequence
//! each inner proof was bound to, under this set's one cap — and the outer
//! layout is fixed to the nullifier pair. The backend builds, proves and
//! self-verifies the outer circuit on this plan; its outcome is folded
//! back into an explicit result, never a panic.

use vstd::prelude::*;

use crate::access_set::AccessSet;
use crate::error::SemaphoreError;
use crate::field::Digest;
use crate::signal::{
    aggregated_public_inputs, aggregated_public_inputs_spec, signal_public_inputs,
    signal_public_inputs_spec, AggregatedSignal, Signal, VerifierMetadata,
    SIGNAL_PUBLIC_INPUT_COUNT,
};

verus! {

/// Everything the backend needs to build and prove one outer aggregation
/// circuit: both inner proofs' reconstructed public inputs, and the outer
/// circuit's designed public-input layout — the two nullifiers, in order.
#[derive(Clone, Debug)]
pub struct AggregationPlan {
    /// Public inputs the first inner proof is verified against in-circuit.
    pub public_inputs0: Vec<u64>,
    /// Public inputs the second inner proof is verified against in-circuit.
    pub public_inputs1: Vec<u64>,
    /// The outer proof's own public inputs: `nullifier0 ‖ nullifier1`.
    pub outer_public_inputs: Vec<u64>,
    /// Nullifier of the first inner signal, recorded for bookkeeping.
    pub nullifier0: Digest,
    /// Nullifier of the second inner signal, recorded for bookkeeping.
    pub nullifier1: Digest,
}

impl AccessSet {
    /// Lays out the aggregation of two signals under this set's cap and
    /// the shared verifier metadata. Fails fast with
    /// `IncompatibleCircuitShape` when the metadata's public-input count
    /// is not the signal circuit's twelve — such material cannot have
    /// come from a compatible circuit. On success, each inner proof's
    /// public inputs are reconstructed through the same fixed layout used
    /// at creation and verification, both under this one cap, and the
    /// outer public inputs are exactly the two nullifiers.
    pub fn aggregate_signals(
        &self,
        topic0: &Digest,
        signal0: &Signal,
        topic1: &Digest,
        signal1: &Signal,
        verifier_data: &VerifierMetadata,
    ) -> (r: Result<AggregationPlan, SemaphoreError>)
        requires
            self.wf(),
        ensures
            r is Ok <==> verifier_data.num_public_inputs == SIGNAL_PUBLIC_INPUT_COUNT,
            r is Err ==> r == Result::<AggregationPlan, SemaphoreError>::Err(
                SemaphoreError::IncompatibleCircuitShape,
            ),
            r is Ok ==> {
                &&& r->Ok_0.public_inputs0@ == signal_public_inputs_spec(
                    self.cap_spec(),
                    signal0.nullifier@,
                    topic0@,
                )
                &&& r->Ok_0.public_inputs1@ == signal_public_inputs_spec(
                    self.cap_spec(),
                    signal1.nullifier@,
                    topic1@,
                )
                &&& r->Ok_0.outer_public_inputs@ == aggregated_public_inputs_spec(
                    signal0.nullifier@,
                    signal1.nullifier@,
                )
                &&& r->Ok_0.nullifier0 == signal0.nullifier
                &&& r->Ok_0.nullifier1 == signal1.nullifier
            },
    {
        if verifier_data.num_public_inputs != SIGNAL_PUBLIC_INPUT_COUNT {
            return Err(SemaphoreError::IncompatibleCircuitShape);
        }
        let cap = self.cap();
        let public_inputs0 = signal_public_inputs(&cap, &signal0.nullifier, topic0);
        let public_inputs1 = signal_public_inputs(&cap, &signal1.nullifier, topic1);
        let outer_public_inputs = aggregated_public_inputs(&signal0.nullifier, &signal1.nullifier);
        Ok(
            AggregationPlan {
                public_inputs0,
                public_inputs1,
                outer_public_inputs,
                nullifier0: signal0.nullifier,
                nullifier1: signal1.nullifier,
            },
        )
    }

    /// Folds the backend's outcome on an aggregation plan into the final
    /// artifact. A prover that rejected the plan — inner proofs not
    /// accepted by the in-circuit verifier, so built under a different
    /// cap or circuit shape — surfaces as `IncompatibleCircuitShape`. A
    /// proof that was produced but failed the aggregator's own post-build
    /// verification is never returned: that is `SelfCheckFailed`, a fatal
    /// defect. Otherwise the aggregated signal carries exactly the plan's
    /// two nullifiers and the backend's proof bytes.
    pub fn complete_aggregation(
        &self,
        plan: &AggregationPlan,
        proof_bytes: Option<Vec<u8>>,
        self_check_passed: bool,
    ) -> (r: Result<AggregatedSignal, SemaphoreError>)
        ensures
            r is Ok <==> proof_bytes is Some && self_check_passed,
            proof_bytes is None ==> r == Result::<AggregatedSignal, SemaphoreError>::Err(
                SemaphoreError::IncompatibleCircuitShape,
            ),
            proof_bytes is Some && !self_check_passed ==> r == Result::<
                AggregatedSignal,
                SemaphoreError,
            >::Err(SemaphoreError::SelfCheckFailed),
            r is Ok ==> {
                &&& r->Ok_0.nullifier0 == plan.nullifier0
                &&& r->Ok_0.nullifier1 == plan.nullifier1
                &&& r->Ok_0.proof@ == proof_bytes->Some_0@
            },
    {
        match proof_bytes {
            None => Err(SemaphoreError::IncompatibleCircuitShape),
            Some(bytes) => {
                if !self_check_passed {
                    Err(SemaphoreError::SelfCheckFailed)
                } else {
                    Ok(
                        AggregatedSignal {
                            nullifier0: plan.nullifier0,
                            nullifier1: plan.nullifier1,
                            proof: bytes,
                        },
                    )
                }
            },
        }
    }
}

/// Aggregation binds both inner proofs to one root: whatever two signals
/// are laid out, the two reconstructed public-input sequences begin with
/// the same cap — this set's own. A signal produced under a different
/// root is bound to different public inputs, so the in-circuit check of
/// its proof cannot accept the reconstruction.
pub proof fn lemma_aggregation_binds_one_root(
    cap: Seq<u64>,
    nullifier0: Seq<u64>,
    topic0: Seq<u64>,
    nullifier1: Seq<u64>,
    topic1: Seq<u64>,
)
    requires
        cap.len() == 4,
        nullifier0.len() == 4,
        nullifier1.len() == 4,
    ensures
        signal_public_inputs_spec(cap, nullifier0, topic0).subrange(0, 4)
            == signal_public_inputs_spec(cap, nullifier1, topic1).subrange(0, 4),
        signal_public_inputs_spec(cap, nullifier0, topic0).subrange(0, 4) == cap,
{
    assert(signal_public_inputs_spec(cap, nullifier0, topic0).subrange(0, 4) =~= cap);
    assert(signal_public_inputs_spec(cap, nullifier1, topic1).subrange(0, 4) =~= cap);
}

} // verus!
