//! The numeric domain of the protocol: vectors of four elements of the
//! Goldilocks prime field, held as canonical `u64` values.

use vstd::prelude::*;

verus! {

/// Order of the Goldilocks field, `2^64 - 2^32 + 1`. Every secret, topic,
/// nullifier and digest element must lie strictly below it.
pub const FIELD_ORDER: u64 = 0xFFFF_FFFF_0000_0001;

/// A canonical field element: a `u64` strictly below the field order.
pub open spec fn is_canonical(x: u64) -> bool {
    x < FIELD_ORDER
}

/// Every element of the sequence is a canonical field element.
pub open spec fn all_canonical(s: Seq<u64>) -> bool {
    forall|i: int| 0 <= i < s.len() ==> is_canonical(#[trigger] s[i])
}

/// A vector of four canonical field elements: the shape shared by identity
/// secrets, identity commitments, topics and nullifiers.
#[derive(Clone, Copy, Debug, PartialEq, Eq, Structural)]
pub struct Digest {
    pub e0: u64,
    pub e1: u64,
    pub e2: u64,
    pub e3: u64,
}

impl View for Digest {
    type V = Seq<u64>;

    open spec fn view(&self) -> Seq<u64> {
        seq![self.e0, self.e1, self.e2, self.e3]
    }
}

impl Digest {
    /// All four elements are canonical field elements.
    pub open spec fn wf(&self) -> bool {
        all_canonical(self@)
    }

    /// Accepts four raw words as a digest only when each is a canonical
    /// field element; values outside the canonical range are rejected.
    pub fn from_elements(e0: u64, e1: u64, e2: u64, e3: u64) -> (r: Option<Digest>)
        ensures
            r is Some <==> (is_canonical(e0) && is_canonical(e1) && is_canonical(e2)
                && is_canonical(e3)),
            r is Some ==> r->0@ == seq![e0, e1, e2, e3] && r->0.wf(),
    {
        if e0 < FIELD_ORDER && e1 < FIELD_ORDER && e2 < FIELD_ORDER && e3 < FIELD_ORDER {
            Some(Digest { e0, e1, e2, e3 })
        } else {
            None
        }
    }

}

/// Two digests are equal exactly when their element sequences are.
pub proof fn lemma_digest_view_eq(a: Digest, b: Digest)
    ensures
        a == b <==> a@ == b@,
{
    if a@ == b@ {
        assert(a.e0 == a@[0] && a.e1 == a@[1] && a.e2 == a@[2] && a.e3 == a@[3]);
        assert(b.e0 == b@[0] && b.e1 == b@[1] && b.e2 == b@[2] && b.e3 == b@[3]);
    }
}

} // verus!
