//! The hash accumulator and the bucket selector.
//!
//! The hash of a token is the sum of its squared codes; the bucket is that sum
//! modulo the palette size. The accumulator is 128 bits wide, so the sum is
//! exact for every slice a machine can hold.

use vstd::prelude::*;

verus! {

/// The number of buckets. It is the number of palette entries: the two are
/// one constant.
pub const PALETTE_SIZE: u32 = 5;

/// The sum of the squares of the codes. The empty sequence sums to 0.
pub open spec fn sum_squares(codes: Seq<u32>) -> nat
    decreases codes.len(),
{
    if codes.len() == 0 {
        0
    } else {
        sum_squares(codes.drop_last()) + (codes.last() as nat) * (codes.last() as nat)
    }
}

/// The bucket a sum falls into.
pub open spec fn bucket(sum: nat) -> nat {
    sum % (PALETTE_SIZE as nat)
}

/// The square of a 32-bit value fits in 64 bits.
proof fn lemma_square_bound(c: u32)
    by (nonlinear_arith)
    ensures
        (c as nat) * (c as nat) <= 0xFFFF_FFFE_0000_0001,
{
}

/// A sum of squares is at most the largest square times the number of codes.
pub proof fn lemma_sum_squares_bound(codes: Seq<u32>)
    ensures
        sum_squares(codes) <= codes.len() * 0xFFFF_FFFE_0000_0001,
    decreases codes.len(),
{
    if codes.len() > 0 {
        lemma_sum_squares_bound(codes.drop_last());
        lemma_square_bound(codes.last());
    }
}

/// Appending one code adds its square to the sum.
pub proof fn lemma_sum_squares_push(codes: Seq<u32>, c: u32)
    ensures
        sum_squares(codes.push(c)) == sum_squares(codes) + (c as nat) * (c as nat),
{
    assert(codes.push(c).drop_last() =~= codes);
}

/// Sums the squares of the codes.
pub fn accumulate(codes: &[u32]) -> (sum: u128)
    ensures
        sum == sum_squares(codes@),
{
    let mut sum: u128 = 0;
    let mut i: usize = 0;
    while i < codes.len()
        invariant
            i <= codes.len(),
            sum == sum_squares(codes@.take(i as int)),
        decreases codes.len() - i,
    {
        let c: u128 = codes[i] as u128;
        proof {
            lemma_square_bound(codes[i as int]);
            lemma_sum_squares_bound(codes@.take(i as int));
            lemma_sum_squares_push(codes@.take(i as int), codes[i as int]);
            assert(codes@.take(i as int).push(codes[i as int]) =~= codes@.take(i + 1));
        }
        sum = sum + c * c;
        i += 1;
    }
    assert(codes@.take(i as int) =~= codes@);
    sum
}

/// Selects the bucket of a sum: the sum modulo the palette size.
pub fn bucket_index(sum: u128) -> (index: u32)
    ensures
        index == bucket(sum as nat),
        index < PALETTE_SIZE,
{
    (sum % (PALETTE_SIZE as u128)) as u32
}

} // verus!
