//! The commitment tree: an ordered, fixed-depth binary Merkle tree over
//! identity commitments.
//!
//! The library owns the tree's structure — its leaves, its depth, and the
//! sibling positions a membership path visits — while the hashing of inner
//! nodes is the backend's work; the resulting public cap digest is handed
//! in at construction and is immutable afterwards.

use vstd::prelude::*;
use vstd::arithmetic::div_mod::lemma_div_denominator;
use vstd::arithmetic::power2::{
    lemma2_to64, lemma_pow2_adds, lemma_pow2_pos, lemma_pow2_strictly_increases, pow2,
};

use crate::error::SemaphoreError;
use crate::field::Digest;

verus! {

/// Deepest tree this protocol supports; capacity `2^32` commitments.
pub const MAX_TREE_HEIGHT: usize = 32;

/// The inner node a leaf's path partners with at one level: the sibling of
/// node `n` is the neighbour with the opposite last bit.
pub open spec fn sibling_of(n: int) -> int {
    if n % 2 == 0 {
        n + 1
    } else {
        n - 1
    }
}

/// An ordered, fixed-depth binary Merkle tree over identity commitments.
/// Leaves are stored in insertion order, which is also proof-index order;
/// the tree is rebuilt, never updated, so all fields are read-only.
pub struct CommitmentTree {
    pub leaves: Vec<Digest>,
    pub height: usize,
    pub cap: Digest,
}

impl CommitmentTree {
    /// The stored leaf digests, in insertion order.
    pub open spec fn leaves(&self) -> Seq<Seq<u64>> {
        self.leaves@.map_values(|d: Digest| d@)
    }

    /// Levels between a leaf and the root.
    pub open spec fn height(&self) -> nat {
        self.height as nat
    }

    /// The tree's public commitment digest.
    pub open spec fn cap_spec(&self) -> Seq<u64> {
        self.cap@
    }

    /// Structural soundness: a power-of-two leaf count matching the
    /// height, within the supported depth, all digests canonical.
    pub open spec fn wf(&self) -> bool {
        &&& self.leaves@.len() == pow2(self.height())
        &&& self.height <= MAX_TREE_HEIGHT
        &&& self.cap.wf()
        &&& forall|i: int| 0 <= i < self.leaves@.len() ==> (#[trigger] self.leaves@[i]).wf()
    }

    /// Builds the tree deterministically from an ordered sequence of
    /// identity commitments and the backend-computed cap digest. Fails
    /// exactly when the leaf count fits no fixed-depth binary tree:
    /// empty, not a power of two, or over the maximum depth's capacity.
    pub fn new(leaves: Vec<Digest>, cap: Digest) -> (r: Result<CommitmentTree, SemaphoreError>)
        requires
            forall|i: int| 0 <= i < leaves@.len() ==> (#[trigger] leaves@[i]).wf(),
            cap.wf(),
        ensures
            r is Err ==> r == Result::<CommitmentTree, SemaphoreError>::Err(
                SemaphoreError::UnsupportedLeafCount,
            ),
            r is Ok <==> exists|h: nat|
                h <= MAX_TREE_HEIGHT && #[trigger] pow2(h) == leaves@.len(),
            r is Ok ==> {
                &&& r->Ok_0.wf()
                &&& r->Ok_0.leaves() == leaves@.map_values(|d: Digest| d@)
                &&& r->Ok_0.cap_spec() == cap@
                &&& leaves@.len() == pow2(r->Ok_0.height())
            },
    {
        let ghost n = leaves@.len() as int;
        if leaves.len() == 0 {
            proof {
                assert forall|h: nat| #[trigger] pow2(h) != leaves@.len() by {
                    lemma_pow2_pos(h);
                }
            }
            return Err(SemaphoreError::UnsupportedLeafCount);
        }
        let mut m: usize = leaves.len();
        let mut height: usize = 0;
        proof {
            lemma2_to64();
        }
        while m % 2 == 0 && height <= MAX_TREE_HEIGHT
            invariant
                n == m * pow2(height as nat),
                n == leaves@.len(),
                m >= 1,
                height <= MAX_TREE_HEIGHT + 1,
            decreases m,
        {
            proof {
                lemma_pow2_adds(height as nat, 1);
                lemma_pow2_pos(height as nat);
                lemma2_to64();
                assert((m / 2) * pow2(height as nat + 1) == m * pow2(height as nat))
                    by (nonlinear_arith)
                    requires
                        m % 2 == 0,
                        m >= 1,
                        pow2(height as nat + 1) == 2 * pow2(height as nat),
                ;
            }
            m = m / 2;
            height = height + 1;
        }
        if m != 1 || height > MAX_TREE_HEIGHT {
            proof {
                if m == 1 || m % 2 == 0 {
                    // the loop left only because the height cap was passed, so
                    // the count is at least a power of two deeper than any
                    // supported tree allows.
                    assert(height > MAX_TREE_HEIGHT);
                    assert forall|h: nat| h <= MAX_TREE_HEIGHT implies #[trigger] pow2(h)
                        != leaves@.len() by {
                        lemma_pow2_strictly_increases(h, height as nat);
                        lemma_pow2_pos(height as nat);
                        assert(pow2(height as nat) <= m * pow2(height as nat))
                            by (nonlinear_arith)
                            requires
                                m >= 1,
                                pow2(height as nat) > 0,
                        ;
                    }
                } else {
                    // an odd factor above one survived: no power of two at all.
                    assert forall|h: nat| #[trigger] pow2(h) != leaves@.len() by {
                        lemma_pow2_no_odd_factor(h, m as nat, height as nat);
                    }
                }
            }
            return Err(SemaphoreError::UnsupportedLeafCount);
        }
        proof {
            assert(pow2(height as nat) == leaves@.len());
        }
        Ok(CommitmentTree { leaves, height, cap })
    }

    /// Leaf count of the tree.
    pub fn leaf_count(&self) -> (r: usize)
        ensures
            r == self.leaves().len(),
    {
        self.leaves.len()
    }

    /// The public cap digest.
    pub fn cap(&self) -> (r: Digest)
        ensures
            r@ == self.cap_spec(),
    {
        self.cap
    }

    /// The commitment stored at the given index; fails exactly when the
    /// index is at or beyond the leaf count.
    pub fn leaf(&self, index: usize) -> (r: Result<Digest, SemaphoreError>)
        ensures
            r is Ok <==> index < self.leaves().len(),
            r is Err ==> r == Result::<Digest, SemaphoreError>::Err(
                SemaphoreError::IndexOutOfRange,
            ),
            r is Ok ==> r->Ok_0@ == self.leaves()[index as int],
    {
        if index < self.leaves.len() {
            Ok(self.leaves[index])
        } else {
            Err(SemaphoreError::IndexOutOfRange)
        }
    }

    /// The membership path for the given leaf: at each level, the position
    /// of the sibling node the path partners with, from the leaf level
    /// upwards. Fails exactly when the index is out of range.
    pub fn path(&self, index: usize) -> (r: Result<Vec<usize>, SemaphoreError>)
        requires
            self.wf(),
        ensures
            r is Ok <==> index < self.leaves().len(),
            r is Err ==> r == Result::<Vec<usize>, SemaphoreError>::Err(
                SemaphoreError::IndexOutOfRange,
            ),
            r is Ok ==> {
                &&& r->Ok_0@.len() == self.height()
                &&& forall|k: int| 0 <= k < r->Ok_0@.len() ==> #[trigger] r->Ok_0@[k]
                    == sibling_of(index as int / pow2(k as nat) as int)
            },
    {
        if index >= self.leaves.len() {
            return Err(SemaphoreError::IndexOutOfRange);
        }
        let mut positions: Vec<usize> = Vec::new();
        let mut cur: usize = index;
        let ghost original = index as int;
        proof {
            lemma2_to64();
            vstd::arithmetic::div_mod::lemma_div_basics(original);
            assert(original / pow2(0) as int == original);
        }
        for k in 0..self.height
            invariant
                positions@.len() == k,
                cur == original / pow2(k as nat) as int,
                0 <= cur <= original,
                original < self.leaves@.len(),
                self.wf(),
                forall|j: int| 0 <= j < k ==> #[trigger] positions@[j] == sibling_of(
                    original / pow2(j as nat) as int,
                ),
        {
            if cur % 2 == 0 {
                positions.push(cur + 1);
            } else {
                positions.push(cur - 1);
            }
            proof {
                lemma_pow2_adds(k as nat, 1);
                lemma_pow2_pos(k as nat);
                lemma2_to64();
                lemma_div_denominator(original, pow2(k as nat) as int, 2);
            }
            cur = cur / 2;
        }
        Ok(positions)
    }
}

/// A number with an odd factor above one at some scale is no power of two.
proof fn lemma_pow2_no_odd_factor(h: nat, m: nat, scale: nat)
    requires
        m % 2 == 1,
        m > 1,
    ensures
        pow2(h) != m * pow2(scale),
    decreases h + scale,
{
    lemma_pow2_pos(h);
    lemma_pow2_pos(scale);
    lemma2_to64();
    if scale == 0 {
        if h == 0 {
        } else {
            // pow2(h) is even for h >= 1, while m * 1 is odd.
            lemma_pow2_adds((h - 1) as nat, 1);
            assert(pow2(h) % 2 == 0) by (nonlinear_arith)
                requires
                    pow2(h) == pow2((h - 1) as nat) * pow2(1),
                    pow2(1) == 2,
            ;
        }
    } else {
        if h == 0 {
            assert(m * pow2(scale) > 1) by (nonlinear_arith)
                requires
                    m > 1,
                    pow2(scale) >= 1,
            ;
        } else {
            lemma_pow2_adds((h - 1) as nat, 1);
            lemma_pow2_adds((scale - 1) as nat, 1);
            lemma_pow2_no_odd_factor((h - 1) as nat, m, (scale - 1) as nat);
            assert(pow2((h - 1) as nat) * 2 != (m * pow2((scale - 1) as nat)) * 2)
                by (nonlinear_arith)
                requires
                    pow2((h - 1) as nat) != m * pow2((scale - 1) as nat),
            ;
            assert(m * pow2(scale) == (m * pow2((scale - 1) as nat)) * 2) by (nonlinear_arith)
                requires
                    pow2(scale) == pow2((scale - 1) as nat) * 2,
            ;
            assert(pow2(h) == pow2((h - 1) as nat) * 2) by (nonlinear_arith)
                requires
                    pow2(h) == pow2((h - 1) as nat) * pow2(1),
                    pow2(1) == 2,
            ;
        }
    }
}

} // verus!
