//! The DNA of a kitty and the crossover rule that breeds a child from two
//! parents.

use vstd::prelude::*;

verus! {

/// The 16-byte DNA of a kitty.
pub type Dna = [u8; 16];

/// One byte of a child: each bit is taken from `dna_1` where the selector
/// bit is set, and from `dna_2` where it is clear.
pub open spec fn cross_byte(selector: u8, dna_1: u8, dna_2: u8) -> u8 {
    (selector & dna_1) | (!selector & dna_2)
}

/// The child DNA bred from two parents under a selector: byte `i` of the
/// result is `cross_byte` of the three bytes at position `i`.
pub open spec fn cross(selector: Seq<u8>, dna_1: Seq<u8>, dna_2: Seq<u8>) -> Seq<u8> {
    Seq::new(16, |i: int| cross_byte(selector[i], dna_1[i], dna_2[i]))
}

/// Breeds a child DNA from two parents, bit by bit, under `selector`.
pub fn crossover(selector: &Dna, dna_1: &Dna, dna_2: &Dna) -> (child: Dna)
    ensures
        child@ == cross(selector@, dna_1@, dna_2@),
        forall|i: int| 0 <= i < 16 ==> child@[i] == (selector@[i] & dna_1@[i]) | (!selector@[i] & dna_2@[i]),
{
    let mut child: Dna = [0u8; 16];
    let mut i: usize = 0;
    while i < 16
        invariant
            i <= 16,
            forall|j: int| 0 <= j < i ==> child@[j] == cross_byte(selector@[j], dna_1@[j], dna_2@[j]),
        decreases 16 - i,
    {
        child[i] = (selector[i] & dna_1[i]) | (!selector[i] & dna_2[i]);
        i += 1;
    }
    child
}

} // verus!
