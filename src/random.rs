use vstd::prelude::*;

use crate::uuid::{has_variant, version_tag, versioned, Uuid, UUID_SIZE};

verus! {

broadcast use vstd::array::group_array_axioms;

#[verifier::external_type_specification]
#[verifier::external_body]
pub struct ExRand(squares_rnd::Rand);

/// Relies on `squares_rnd::Rand::next_u64`: a pseudo-random number, with nothing promised
/// of its value.
pub assume_specification[ squares_rnd::Rand::next_u64 ](rand: &squares_rnd::Rand) -> u64;

/// Byte `i` of the 128-bit number whose upper half is `high` and lower half is `low`,
/// least significant byte first.
pub open spec fn word_byte(high: u64, low: u64, i: int) -> u8 {
    if i < 8 {
        (low as int / pow256(i) % 256) as u8
    } else {
        (high as int / pow256(i - 8) % 256) as u8
    }
}

/// `256` to the power `i`.
pub open spec fn pow256(i: int) -> int
    decreases i,
{
    if i <= 0 {
        1
    } else {
        256 * pow256(i - 1)
    }
}

/// The 16 bytes of the 128-bit number whose upper half is `high` and lower half is `low`,
/// least significant byte first.
pub open spec fn words_bytes(high: u64, low: u64) -> Seq<u8> {
    Seq::new(16, |i: int| word_byte(high, low, i))
}

impl Uuid {
    /// Constructs a version 4 UUID from the 128-bit number whose upper half is `high` and
    /// lower half is `low`, laid out least significant byte first.
    pub fn v4_from_words(high: u64, low: u64) -> (r: Self)
        ensures
            r@ == versioned(words_bytes(high, low), 4),
    {
        let mut bytes = [0u8; UUID_SIZE];
        let mut i: usize = 0;
        let mut lo: u64 = low;
        let mut hi: u64 = high;
        while i < 8
            invariant
                i <= 8,
                lo as int == low as int / pow256(i as int),
                hi as int == high as int / pow256(i as int),
                forall|j: int| 0 <= j < i ==> bytes@[j] == word_byte(high, low, j),
                forall|j: int| 8 <= j < 8 + i ==> bytes@[j] == word_byte(high, low, j),
            decreases 8 - i,
        {
            bytes[i] = (lo % 256) as u8;
            bytes[i + 8] = (hi % 256) as u8;
            proof {
                assert(pow256(i + 1) == 256 * pow256(i as int));
                assert(pow256(i as int) > 0) by {
                    lemma_pow256_positive(i as int);
                }
                vstd::arithmetic::div_mod::lemma_div_denominator(
                    low as int,
                    pow256(i as int),
                    256,
                );
                vstd::arithmetic::div_mod::lemma_div_denominator(
                    high as int,
                    pow256(i as int),
                    256,
                );
                vstd::arithmetic::mul::lemma_mul_is_commutative(256, pow256(i as int));
            }
            lo = lo / 256;
            hi = hi / 256;
            i += 1;
        }
        assert(bytes@ =~= words_bytes(high, low));
        Self::v4_from(bytes)
    }

    /// Generates a version 4 UUID from two numbers drawn from the pseudo-random generator
    /// `rand`: the first is the lower half, the second the upper half.
    ///
    /// A generator that starts from a fixed key repeats its UUIDs from run to run.
    pub fn v4_prng(rand: &squares_rnd::Rand) -> (r: Self)
        ensures
            version_tag(r@) == 4,
            has_variant(r@),
    {
        let low = rand.next_u64();
        let high = rand.next_u64();
        let r = Self::v4_from_words(high, low);
        proof {
            crate::laws::lemma_v4_bits(words_bytes(high, low));
        }
        r
    }
}

proof fn lemma_pow256_positive(i: int)
    ensures
        pow256(i) > 0,
    decreases i,
{
    if i > 0 {
        lemma_pow256_positive(i - 1);
    }
}

} // verus!
