//! The error kinds the protocol surfaces. None is retried: proof
//! construction is deterministic in its inputs, so every failure is
//! reported to the caller as an explicit result.

use vstd::prelude::*;

verus! {

/// Why a protocol operation failed.
#[derive(Clone, Copy, Debug, PartialEq, Eq, Structural)]
pub enum SemaphoreError {
    /// A membership index at or beyond the tree's leaf count.
    IndexOutOfRange,
    /// The secret does not correspond to the claimed leaf, or witness
    /// generation failed before proof construction.
    WitnessMismatch,
    /// The wrong number of private input elements was supplied.
    ArityMismatch,
    /// The proof was rejected: malformed, wrong public inputs, or wrong
    /// verifier metadata.
    VerificationFailed,
    /// Aggregation was given material from a differently shaped circuit.
    IncompatibleCircuitShape,
    /// The aggregator's own post-build verification failed; fatal.
    SelfCheckFailed,
    /// A leaf sequence that no fixed-depth tree accepts: empty, not a
    /// power of two, or beyond the maximum depth's capacity.
    UnsupportedLeafCount,
}

} // verus!
