//! Bit-sequence arithmetic: the value carried by an LSB-first bit sequence,
//! its parity, and the executable conversions used by the SWD and JTAG
//! response parsers.

use vstd::prelude::*;
use vstd::arithmetic::power2::{pow2, lemma_pow2_unfold, lemma2_to64};
use vstd::arithmetic::div_mod::lemma_fundamental_div_mod_converse;

verus! {

pub open spec fn repeat_bit(b: bool, n: nat) -> Seq<bool> {
    Seq::new(n, |i: int| b)
}

/// A run of `length` equal bits.
pub fn repeated_bits(bit: bool, length: usize) -> (r: Vec<bool>)
    ensures
        r@ == repeat_bit(bit, length as nat),
{
    let mut v: Vec<bool> = Vec::new();
    let mut i: usize = 0;
    proof {
        assert(v@ =~= repeat_bit(bit, 0));
    }
    while i < length
        invariant
            i <= length,
            v@ == repeat_bit(bit, i as nat),
        decreases length - i,
    {
        v.push(bit);
        proof {
            assert(v@ =~= repeat_bit(bit, (i + 1) as nat));
        }
        i = i + 1;
    }
    v
}

/// The value of a four-byte little-endian word.
pub open spec fn le_word_of(bytes: Seq<u8>) -> nat
    recommends
        bytes.len() == 4,
{
    (bytes[0] + 0x100 * bytes[1] + 0x1_0000 * bytes[2] + 0x100_0000 * bytes[3]) as nat
}

/// Pack four little-endian bytes into a word.
pub fn word_from_le_bytes(bytes: &Vec<u8>) -> (r: u32)
    requires
        bytes@.len() == 4,
    ensures
        r == le_word_of(bytes@),
{
    (bytes[0] as u32) + 0x100 * (bytes[1] as u32) + 0x1_0000 * (bytes[2] as u32) + 0x100_0000
        * (bytes[3] as u32)
}

/// The unsigned value of an LSB-first bit sequence: bit `i` has weight `2^i`.
pub open spec fn bits_value(s: Seq<bool>) -> nat
    decreases s.len(),
{
    if s.len() == 0 {
        0
    } else {
        (if s[0] {
            1nat
        } else {
            0nat
        }) + 2 * bits_value(s.skip(1))
    }
}

/// Odd parity: true iff an odd number of bits in `s` are set.
pub open spec fn parity_of(s: Seq<bool>) -> bool
    decreases s.len(),
{
    if s.len() == 0 {
        false
    } else {
        s[0] != parity_of(s.skip(1))
    }
}

/// The number of set bits in the binary representation of `n`.
pub open spec fn popcount(n: nat) -> nat
    decreases n,
{
    if n == 0 {
        0
    } else {
        n % 2 + popcount(n / 2)
    }
}

/// Appending a bit adds its weight to the value of the sequence.
pub proof fn lemma_bits_value_push(s: Seq<bool>, b: bool)
    ensures
        bits_value(s.push(b)) == bits_value(s) + (if b {
            pow2(s.len())
        } else {
            0nat
        }),
    decreases s.len(),
{
    lemma2_to64();
    if s.len() == 0 {
        reveal_with_fuel(bits_value, 2);
        assert(s.push(b).skip(1) =~= Seq::<bool>::empty());
        assert(s.push(b)[0] == b);
    } else {
        assert(s.push(b).skip(1) =~= s.skip(1).push(b));
        assert(s.push(b)[0] == s[0]);
        lemma_bits_value_push(s.skip(1), b);
        lemma_pow2_unfold(s.len());
        assert(s.skip(1).len() == s.len() - 1);
        assert(bits_value(s.push(b)) == (if s[0] {
            1nat
        } else {
            0nat
        }) + 2 * bits_value(s.skip(1).push(b)));
    }
}

/// A sequence of `n` bits holds a value below `2^n`.
pub proof fn lemma_bits_value_bound(s: Seq<bool>)
    ensures
        bits_value(s) < pow2(s.len()),
    decreases s.len(),
{
    lemma2_to64();
    if s.len() > 0 {
        lemma_bits_value_bound(s.skip(1));
        lemma_pow2_unfold(s.len());
    }
}

/// Appending a bit flips the parity iff the bit is set.
pub proof fn lemma_parity_push(s: Seq<bool>, b: bool)
    ensures
        parity_of(s.push(b)) == (parity_of(s) != b),
    decreases s.len(),
{
    if s.len() == 0 {
        reveal_with_fuel(parity_of, 2);
        assert(s.push(b).skip(1) =~= Seq::<bool>::empty());
        assert(s.push(b)[0] == b);
    } else {
        assert(s.push(b).skip(1) =~= s.skip(1).push(b));
        assert(s.push(b)[0] == s[0]);
        lemma_parity_push(s.skip(1), b);
        assert(parity_of(s.push(b)) == (s[0] != parity_of(s.skip(1).push(b))));
    }
}

/// The parity of a bit sequence is the parity of the popcount of its value.
pub proof fn lemma_parity_is_popcount_mod2(s: Seq<bool>)
    ensures
        parity_of(s) == (popcount(bits_value(s)) % 2 == 1),
    decreases s.len(),
{
    if s.len() == 0 {
    } else {
        let b0: nat = if s[0] {
            1nat
        } else {
            0nat
        };
        let r = bits_value(s.skip(1));
        lemma_parity_is_popcount_mod2(s.skip(1));
        let v = bits_value(s);
        assert(v == b0 + 2 * r);
        if v == 0 {
            assert(b0 == 0 && r == 0);
        } else {
            lemma_fundamental_div_mod_converse(v as int, 2, r as int, b0 as int);
            assert(v % 2 == b0 && v / 2 == r);
            assert(popcount(v) == b0 + popcount(r));
        }
    }
}

/// Interpret the first (up to) 32 bits of `bits`, LSB-first, as an unsigned
/// word.
pub fn bits_to_byte(bits: &[bool]) -> (r: u32)
    ensures
        r == bits_value(bits@.take(if bits@.len() < 32 {
            bits@.len() as int
        } else {
            32
        })),
{
    let n: usize = if bits.len() < 32 {
        bits.len()
    } else {
        32
    };
    let mut acc: u64 = 0;
    let mut weight: u64 = 1;
    let mut i: usize = 0;
    proof {
        lemma2_to64();
        assert(bits@.take(0) =~= Seq::<bool>::empty());
    }
    while i < n
        invariant
            n <= 32,
            n <= bits@.len(),
            i <= n,
            weight == pow2(i as nat),
            acc == bits_value(bits@.take(i as int)),
            acc < weight,
        decreases n - i,
    {
        proof {
            lemma2_to64();
            assert(pow2(i as nat) <= pow2(31)) by {
                if (i as nat) < 31 {
                    vstd::arithmetic::power2::lemma_pow2_strictly_increases(i as nat, 31);
                }
            }
            assert(bits@.take(i + 1) =~= bits@.take(i as int).push(bits@[i as int]));
            lemma_bits_value_push(bits@.take(i as int), bits@[i as int]);
        }
        if bits[i] {
            acc = acc + weight;
        }
        proof {
            lemma_pow2_unfold((i + 1) as nat);
        }
        weight = weight * 2;
        i = i + 1;
    }
    proof {
        lemma2_to64();
        assert(pow2(n as nat) <= pow2(32)) by {
            if (n as nat) < 32 {
                vstd::arithmetic::power2::lemma_pow2_strictly_increases(n as nat, 32);
            }
        }
    }
    acc as u32
}

/// The odd parity of a whole bit slice.
pub fn parity_bits(bits: &[bool]) -> (r: bool)
    ensures
        r == parity_of(bits@),
{
    let mut acc = false;
    let mut i: usize = 0;
    proof {
        assert(bits@.take(0) =~= Seq::<bool>::empty());
    }
    while i < bits.len()
        invariant
            i <= bits@.len(),
            acc == parity_of(bits@.take(i as int)),
        decreases bits@.len() - i,
    {
        proof {
            assert(bits@.take(i + 1) =~= bits@.take(i as int).push(bits@[i as int]));
            lemma_parity_push(bits@.take(i as int), bits@[i as int]);
        }
        acc = acc != bits[i];
        i = i + 1;
    }
    proof {
        assert(bits@.take(bits@.len() as int) =~= bits@);
    }
    acc
}

} // verus!
