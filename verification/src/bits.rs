//! Powers of two and bit fields of a 64-bit word, stated over natural numbers.

use vstd::arithmetic::div_mod::{
    lemma_fundamental_div_mod, lemma_fundamental_div_mod_converse, lemma_small_mod,
};
use vstd::arithmetic::mul::{lemma_mul_inequality, lemma_mul_is_commutative};
use vstd::arithmetic::power2::{
    lemma2_to64, lemma2_to64_rest, lemma_pow2_adds, lemma_pow2_pos, lemma_pow2_strictly_increases,
    pow2,
};
use vstd::bits::{
    low_bits_mask, lemma_u64_low_bits_mask_is_mod, lemma_u64_pow2_no_overflow,
    lemma_u64_shl_is_mul, lemma_u64_shr_is_div,
};
use vstd::prelude::*;

verus! {

/// The number of values a 64-bit word can hold.
pub open spec fn word_size() -> nat {
    0x1_0000_0000_0000_0000
}

/// `pow2(64)` is the size of a 64-bit word, and smaller powers fit in one.
pub proof fn lemma_pow2_word(bits: nat)
    requires
        bits <= 64,
    ensures
        pow2(64) == word_size(),
        0 < pow2(bits) <= word_size(),
        bits < 64 ==> pow2(bits) <= 0x8000_0000_0000_0000,
        bits <= 32 ==> pow2(bits) <= 0x1_0000_0000,
{
    lemma2_to64();
    lemma2_to64_rest();
    lemma_pow2_pos(bits);
    if bits < 64 {
        if bits < 63 {
            lemma_pow2_strictly_increases(bits, 63);
        }
    }
    if bits < 32 {
        lemma_pow2_strictly_increases(bits, 32);
    }
}

/// `pow2` is monotone.
pub proof fn lemma_pow2_monotone(a: nat, b: nat)
    requires
        a <= b,
    ensures
        pow2(a) <= pow2(b),
{
    if a < b {
        lemma_pow2_strictly_increases(a, b);
    }
}

/// Two to the power `bits`.
pub fn pow2_u64(bits: u64) -> (p: u64)
    requires
        bits < 64,
    ensures
        p == pow2(bits as nat),
        p >= 1,
{
    proof {
        lemma_u64_pow2_no_overflow(bits as nat);
        lemma_u64_shl_is_mul(1, bits);
    }
    1u64 << bits
}

/// The largest value of a field of `bits` bits.
pub fn field_max(bits: u64) -> (m: u64)
    requires
        bits < 64,
    ensures
        m == pow2(bits as nat) - 1,
        m == low_bits_mask(bits as nat),
{
    pow2_u64(bits) - 1
}

/// The low `bits` bits of `x`.
pub fn low_bits(x: u64, bits: u64) -> (r: u64)
    requires
        bits < 64,
    ensures
        r == x as nat % pow2(bits as nat),
        r < pow2(bits as nat),
{
    let mask = field_max(bits);
    proof {
        lemma_u64_low_bits_mask_is_mod(x, bits as nat);
        lemma_u64_pow2_no_overflow(bits as nat);
        lemma_pow2_pos(bits as nat);
        vstd::arithmetic::div_mod::lemma_mod_bound(x as int, pow2(bits as nat) as int);
    }
    x & mask
}

/// `x` without its low `bits` bits.
pub fn high_bits(x: u64, bits: u64) -> (r: u64)
    requires
        bits < 64,
    ensures
        r == x as nat / pow2(bits as nat),
{
    proof {
        lemma_u64_shr_is_div(x, bits);
    }
    x >> bits
}

/// A left shift drops the bits that leave the word: it multiplies modulo `2^64`.
pub proof fn lemma_shl_truncates(x: u64, bits: u64)
    requires
        bits < 64,
    ensures
        (x << bits) == (x as nat % pow2((64 - bits) as nat)) * pow2(bits as nat),
        (x << bits) == (x as nat * pow2(bits as nat)) % word_size(),
{
    let keep = (64 - bits) as nat;
    let p = pow2(bits as nat);
    let q = pow2(keep);
    lemma_pow2_word(bits as nat);
    lemma_pow2_word(keep);
    lemma_pow2_adds(bits as nat, keep);
    assert(p * q == word_size());
    if bits == 0 {
        assert(x << 0u64 == x) by (bit_vector);
        assert(p == 1) by {
            lemma2_to64();
        }
        lemma_small_mod(x as nat, word_size());
    } else {
        let low: u64 = x & (low_bits_mask(keep) as u64);
        lemma_u64_low_bits_mask_is_mod(x, keep);
        assert(low == x as nat % q);
        let mask: u64 = low_bits_mask(keep) as u64;
        let kept: u64 = (64 - bits) as u64;
        assert(mask + 1 == (1u64 << kept)) by {
            lemma_u64_shl_is_mul(1, kept);
        }
        assert(x << bits == (x & mask) << bits) by (bit_vector)
            requires
                0 < bits < 64,
                bits + kept == 64,
                mask + 1 == (1u64 << kept),
        ;
        assert(low * p < q * p) by {
            vstd::arithmetic::mul::lemma_mul_strict_inequality(low as int, q as int, p as int);
        }
        assert(q * p == p * q) by {
            lemma_mul_is_commutative(q as int, p as int);
        }
        lemma_u64_shl_is_mul(low, bits);
        assert((x << bits) == low * p);
        let xi = x as int;
        let pi = p as int;
        let qi = q as int;
        vstd::arithmetic::div_mod::lemma_truncate_middle(xi, pi, qi);
        assert((pi * xi) % (pi * qi) == pi * (xi % qi));
        assert(pi * xi == xi * pi) by {
            lemma_mul_is_commutative(pi, xi);
        }
        assert(pi * (xi % qi) == (xi % qi) * pi) by {
            lemma_mul_is_commutative(pi, xi % qi);
        }
    }
}

/// `x` shifted left by `bits`, dropping what leaves the word.
pub fn shift_up(x: u64, bits: u64) -> (r: u64)
    requires
        bits < 64,
    ensures
        r == (x as nat % pow2((64 - bits) as nat)) * pow2(bits as nat),
        r == (x as nat * pow2(bits as nat)) % word_size(),
        x < pow2((64 - bits) as nat) ==> r == x * pow2(bits as nat),
{
    proof {
        lemma_shl_truncates(x, bits);
        if x < pow2((64 - bits) as nat) {
            lemma_small_mod(x as nat, pow2((64 - bits) as nat));
        }
    }
    x << bits
}

/// Joining a multiple of `2^bits` and a value below `2^bits` bit by bit adds them.
pub proof fn lemma_or_is_add(hi: u64, lo: u64, bits: u64)
    requires
        bits < 64,
        hi as nat % pow2(bits as nat) == 0,
        lo < pow2(bits as nat),
    ensures
        hi | lo == hi + lo,
        hi + lo <= u64::MAX,
{
    let p = pow2(bits as nat);
    lemma_pow2_word(bits as nat);
    lemma_u64_shr_is_div(hi, bits);
    lemma_u64_shr_is_div(lo, bits);
    let q: u64 = hi >> bits;
    assert(q == hi as nat / p);
    lemma_fundamental_div_mod(hi as int, p as int);
    assert(hi == p * q);
    assert(q * p == p * q) by {
        lemma_mul_is_commutative(q as int, p as int);
    }
    lemma_u64_shl_is_mul(q, bits);
    assert(q << bits == hi);
    assert(lo >> bits == 0) by {
        vstd::arithmetic::div_mod::lemma_basic_div(lo as int, p as int);
    }
    assert(hi & lo == 0) by (bit_vector)
        requires
            bits < 64,
            (hi >> bits) << bits == hi,
            lo >> bits == 0,
    ;
    assert(hi | lo == hi + lo && hi + lo <= 0xffff_ffff_ffff_ffff) by (bit_vector)
        requires
            hi & lo == 0,
    ;
}

/// `hi` followed by a field of `bits` bits that holds `lo`.
pub open spec fn join(hi: nat, lo: nat, bits: nat) -> nat {
    hi * pow2(bits) + lo
}

/// A field that was joined can be split off again.
pub proof fn lemma_join_split(hi: nat, lo: nat, bits: nat)
    requires
        lo < pow2(bits),
    ensures
        join(hi, lo, bits) / pow2(bits) == hi,
        join(hi, lo, bits) % pow2(bits) == lo,
{
    lemma_pow2_pos(bits);
    lemma_mul_is_commutative(hi as int, pow2(bits) as int);
    lemma_fundamental_div_mod_converse(
        join(hi, lo, bits) as int,
        pow2(bits) as int,
        hi as int,
        lo as int,
    );
}

/// Joining keeps values within the widened field.
pub proof fn lemma_join_bound(hi: nat, lo: nat, hi_bits: nat, bits: nat)
    requires
        hi < pow2(hi_bits),
        lo < pow2(bits),
    ensures
        join(hi, lo, bits) < pow2(hi_bits + bits),
{
    lemma_pow2_adds(hi_bits, bits);
    lemma_pow2_pos(bits);
    assert((hi + 1) * pow2(bits) <= pow2(hi_bits) * pow2(bits)) by {
        lemma_mul_inequality((hi + 1) as int, pow2(hi_bits) as int, pow2(bits) as int);
    }
    assert((hi + 1) * pow2(bits) == hi * pow2(bits) + pow2(bits)) by (nonlinear_arith);
}

/// Joining is monotone in the pair, ordered by `hi` first.
pub proof fn lemma_join_ordered(hi1: nat, lo1: nat, hi2: nat, lo2: nat, bits: nat)
    requires
        lo1 < pow2(bits),
        hi1 < hi2,
    ensures
        join(hi1, lo1, bits) < join(hi2, lo2, bits),
{
    assert((hi1 + 1) * pow2(bits) <= hi2 * pow2(bits)) by {
        lemma_mul_inequality((hi1 + 1) as int, hi2 as int, pow2(bits) as int);
    }
    assert((hi1 + 1) * pow2(bits) == hi1 * pow2(bits) + pow2(bits)) by (nonlinear_arith);
}

} // verus!
