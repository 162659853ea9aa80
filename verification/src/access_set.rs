//! The access set: binds a commitment tree to the signaling protocol.
//!
//! Signal creation splits into a verified planning step — membership and
//! witness validation, witness layout, public-input assembly — and the
//! backend's hashing and proving, which the surrounding application runs
//! on the plan. Verification likewise: the library fixes the exact public
//! inputs the proof must be checked against, the backend only says yes or
//! no to the proof itself.

use vstd::prelude::*;
use vstd::arithmetic::power2::pow2;

use crate::error::SemaphoreError;
use crate::field::{all_canonical, Digest};
use crate::signal::{signal_public_inputs, signal_public_inputs_spec, Signal};
use crate::tree::{sibling_of, CommitmentTree};

verus! {

/// Field elements in an identity secret.
pub const SECRET_ELEMENTS: usize = 4;

/// Everything the proving backend needs to produce one signal's proof:
/// the private witness values, the membership path to walk, and the two
/// hash preimages whose digests become the leaf commitment and the
/// nullifier. Assembled only by `AccessSet::make_signal`, after the
/// membership and witness checks have passed.
#[derive(Clone, Debug)]
pub struct SignalPlan {
    /// The identity secret, witnessed privately; four field elements.
    pub secret: Vec<u64>,
    /// The topic the signal is bound to; a public input.
    pub topic: Digest,
    /// The member's leaf index, witnessed privately.
    pub index: usize,
    /// Per level, the position of the sibling node of the membership path.
    pub sibling_positions: Vec<usize>,
    /// The leaf index in little-endian bits, one per tree level; the
    /// witness form in which the index steers the membership check.
    pub index_bits: Vec<bool>,
    /// Preimage of the leaf commitment: `secret ‖ 0,0,0,0`.
    pub leaf_input: Vec<u64>,
    /// Preimage of the nullifier: `secret ‖ topic`.
    pub nullifier_input: Vec<u64>,
}

/// An access set: one commitment tree whose cap, together with the shared
/// depth constant, is the only public datum a verifier needs. Read-only
/// after construction and safely shared by signalers and verifiers.
pub struct AccessSet(pub CommitmentTree);

impl AccessSet {
    /// The identity commitments the set was built over.
    pub open spec fn leaves(&self) -> Seq<Seq<u64>> {
        self.0.leaves()
    }

    /// The tree's public commitment digest.
    pub open spec fn cap_spec(&self) -> Seq<u64> {
        self.0.cap_spec()
    }

    /// Depth shared by prover and verifier.
    pub open spec fn height(&self) -> nat {
        self.0.height()
    }

    /// The underlying tree is structurally sound.
    pub open spec fn wf(&self) -> bool {
        self.0.wf()
    }

    /// Number of members.
    pub fn member_count(&self) -> (r: usize)
        ensures
            r == self.leaves().len(),
    {
        self.0.leaf_count()
    }

    /// The public cap digest a verifier checks against.
    pub fn cap(&self) -> (r: Digest)
        ensures
            r@ == self.cap_spec(),
    {
        self.0.cap()
    }

    /// Validates a signaling request and lays out the proof's witnesses:
    /// the secret must have exactly four elements, the index must name a
    /// leaf, and the caller-computed commitment digest of
    /// `secret ‖ 0,0,0,0` must equal the leaf stored at that index — a
    /// mismatch is caught here, before any expensive proving. On success
    /// the plan fixes the private witness, the membership path and the
    /// two hash preimages the backend must use.
    pub fn make_signal(
        &self,
        secret: &Vec<u64>,
        topic: &Digest,
        index: usize,
        commitment: &Digest,
    ) -> (r: Result<SignalPlan, SemaphoreError>)
        requires
            self.wf(),
            all_canonical(secret@),
            topic.wf(),
        ensures
            r == Result::<SignalPlan, SemaphoreError>::Err(SemaphoreError::ArityMismatch)
                <==> secret@.len() != SECRET_ELEMENTS,
            secret@.len() == SECRET_ELEMENTS ==> (r == Result::<SignalPlan, SemaphoreError>::Err(
                SemaphoreError::IndexOutOfRange,
            ) <==> index >= self.leaves().len()),
            secret@.len() == SECRET_ELEMENTS && index < self.leaves().len() ==> (r == Result::<
                SignalPlan,
                SemaphoreError,
            >::Err(SemaphoreError::WitnessMismatch) <==> commitment@ != self.leaves()[
                index as int
            ]),
            r is Ok <==> (secret@.len() == SECRET_ELEMENTS && index < self.leaves().len()
                && commitment@ == self.leaves()[index as int]),
            r is Ok ==> {
                &&& r->Ok_0.secret@ == secret@
                &&& r->Ok_0.topic == *topic
                &&& r->Ok_0.index == index
                &&& r->Ok_0.leaf_input@ == secret@ + seq![0u64, 0u64, 0u64, 0u64]
                &&& r->Ok_0.nullifier_input@ == secret@ + topic@
                &&& r->Ok_0.sibling_positions@.len() == self.height()
                &&& forall|k: int| 0 <= k < r->Ok_0.sibling_positions@.len()
                    ==> #[trigger] r->Ok_0.sibling_positions@[k] == sibling_of(
                    index as int / pow2(k as nat) as int,
                )
                &&& r->Ok_0.index_bits@.len() == self.height()
                &&& forall|k: int| 0 <= k < r->Ok_0.index_bits@.len()
                    ==> #[trigger] r->Ok_0.index_bits@[k] == (index as int / pow2(k as nat) as int
                    % 2 == 1)
            },
    {
        if secret.len() != SECRET_ELEMENTS {
            return Err(SemaphoreError::ArityMismatch);
        }
        if index >= self.0.leaf_count() {
            return Err(SemaphoreError::IndexOutOfRange);
        }
        let stored = match self.0.leaf(index) {
            Ok(d) => d,
            Err(e) => { return Err(e) },
        };
        proof {
            crate::field::lemma_digest_view_eq(stored, *commitment);
        }
        if !(stored.e0 == commitment.e0 && stored.e1 == commitment.e1 && stored.e2
            == commitment.e2 && stored.e3 == commitment.e3) {
            return Err(SemaphoreError::WitnessMismatch);
        }
        let path = match self.0.path(index) {
            Ok(p) => p,
            Err(e) => { return Err(e) },
        };
        let mut index_bits: Vec<bool> = Vec::new();
        let mut cur: usize = index;
        let ghost original = index as int;
        proof {
            vstd::arithmetic::power2::lemma2_to64();
            vstd::arithmetic::div_mod::lemma_div_basics(original);
        }
        let height = self.0.height;
        for k in 0..height
            invariant
                index_bits@.len() == k,
                cur == original / pow2(k as nat) as int,
                0 <= cur <= original,
                original < self.0.leaves@.len(),
                forall|j: int| 0 <= j < k ==> #[trigger] index_bits@[j] == (original / pow2(
                    j as nat,
                ) as int % 2 == 1),
        {
            index_bits.push(cur % 2 == 1);
            proof {
                vstd::arithmetic::power2::lemma_pow2_adds(k as nat, 1);
                vstd::arithmetic::power2::lemma_pow2_pos(k as nat);
                vstd::arithmetic::power2::lemma2_to64();
                vstd::arithmetic::div_mod::lemma_div_denominator(
                    original,
                    pow2(k as nat) as int,
                    2,
                );
            }
            cur = cur / 2;
        }
        let mut leaf_input: Vec<u64> = Vec::new();
        let mut nullifier_input: Vec<u64> = Vec::new();
        let mut secret_copy: Vec<u64> = Vec::new();
        for k in 0..secret.len()
            invariant
                secret_copy@ == secret@.take(k as int),
                leaf_input@ == secret@.take(k as int),
                nullifier_input@ == secret@.take(k as int),
        {
            secret_copy.push(secret[k]);
            leaf_input.push(secret[k]);
            nullifier_input.push(secret[k]);
        }
        leaf_input.push(0);
        leaf_input.push(0);
        leaf_input.push(0);
        leaf_input.push(0);
        nullifier_input.push(topic.e0);
        nullifier_input.push(topic.e1);
        nullifier_input.push(topic.e2);
        nullifier_input.push(topic.e3);
        proof {
            assert(secret@.take(secret@.len() as int) =~= secret@);
            assert(leaf_input@ =~= secret@ + seq![0u64, 0u64, 0u64, 0u64]);
            assert(nullifier_input@ =~= secret@ + topic@);
        }
        Ok(
            SignalPlan {
                secret: secret_copy,
                topic: *topic,
                index,
                sibling_positions: path,
                index_bits,
                leaf_input,
                nullifier_input,
            },
        )
    }

    /// The exact public inputs a signal's proof must be verified against:
    /// the set's cap, the signal's nullifier, and the supplied topic, in
    /// the fixed layout. Any other topic or a tampered nullifier yields a
    /// different sequence, so the proof cannot be checked against it.
    pub fn verification_inputs(&self, topic: &Digest, signal: &Signal) -> (v: Vec<u64>)
        ensures
            v@ == signal_public_inputs_spec(self.cap_spec(), signal.nullifier@, topic@),
    {
        let cap = self.0.cap();
        signal_public_inputs(&cap, &signal.nullifier, topic)
    }

    /// Turns the backend verifier's verdict on exactly the sequence
    /// `verification_inputs` fixes into the protocol's result: success
    /// when and only when the proof was accepted, `VerificationFailed`
    /// otherwise. Replay tracking of seen nullifiers stays with the
    /// caller; the cryptographic check alone cannot provide it.
    pub fn verify_signal(&self, topic: &Digest, signal: &Signal, accepted: bool) -> (r: Result<
        (),
        SemaphoreError,
    >)
        ensures
            r is Ok <==> accepted,
            !accepted ==> r == Result::<(), SemaphoreError>::Err(
                SemaphoreError::VerificationFailed,
            ),
    {
        if accepted {
            Ok(())
        } else {
            Err(SemaphoreError::VerificationFailed)
        }
    }
}

} // verus!
