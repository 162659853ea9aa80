//! Wire layout of a custom arithmetization gate for degree-4 multiplicative
//! constraints, `output = (a * b)^2` per operation.
//!
//! Each of a row's operations occupies `3 * D` consecutive routed wires:
//! `D` wires for each multiplicand and `D` for the output, where `D` is the
//! extension degree. This module fixes that layout; constraint
//! evaluation lives with the circuit plumbing outside the library.

use vstd::prelude::*;

verus! {

/// A gate computing `output = (multiplicand_0 * multiplicand_1)^2` over the
/// degree-`D` extension field, for as many operations as fit in a row.
pub struct NumericCustomGate<const D: usize> {
    /// Number of operations performed in one row.
    pub num_ops: usize,
}

impl<const D: usize> NumericCustomGate<D> {
    /// Wires occupied by one operation: `3 * D` of them, starting at the
    /// operation's offset.
    pub open spec fn op_wires_start(i: usize) -> int {
        3 * (D as int) * (i as int)
    }

    /// The whole layout of operation `i` stays within `usize` bounds.
    pub open spec fn op_in_bounds(i: usize) -> bool {
        Self::op_wires_start(i) + 3 * (D as int) <= usize::MAX
    }

    /// Routed wires holding the first multiplicand of operation `i`.
    pub fn wires_multiplicand_0(i: usize) -> (r: core::ops::Range<usize>)
        requires
            Self::op_in_bounds(i),
        ensures
            r.start == Self::op_wires_start(i),
            r.end == Self::op_wires_start(i) + D,
    {
        core::ops::Range { start: 3 * D * i, end: 3 * D * i + D }
    }

    /// Routed wires holding the second multiplicand of operation `i`.
    pub fn wires_multiplicand_1(i: usize) -> (r: core::ops::Range<usize>)
        requires
            Self::op_in_bounds(i),
        ensures
            r.start == Self::op_wires_start(i) + D,
            r.end == Self::op_wires_start(i) + 2 * (D as int),
    {
        core::ops::Range { start: 3 * D * i + D, end: 3 * D * i + 2 * D }
    }

    /// Routed wires holding the output of operation `i`.
    pub fn wires_output(i: usize) -> (r: core::ops::Range<usize>)
        requires
            Self::op_in_bounds(i),
        ensures
            r.start == Self::op_wires_start(i) + 2 * (D as int),
            r.end == Self::op_wires_start(i) + 3 * (D as int),
    {
        core::ops::Range { start: 3 * D * i + 2 * D, end: 3 * D * i + 3 * D }
    }
}

} // verus!
