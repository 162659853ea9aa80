//! An anonymous-signaling library: members of a committed access set emit
//! single-use, topic-bound signals without revealing which member signed,
//! and pairs of signals can be folded into one recursively verified proof.
//!
//! The collision-resistant hash and the succinct-proof backend are outside
//! collaborators reached only from the surrounding application; this crate
//! holds every decision the protocol makes — set construction, membership
//! and witness validation, the public-input layout that keeps prover and
//! verifier in lockstep, and the assembly of signals and aggregates — as
//! verified functions over plain field-element values.

pub mod access_set;
pub mod error;
pub mod field;
pub mod gadgets;
pub mod recursion;
pub mod signal;
pub mod tree;
