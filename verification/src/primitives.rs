//! Plain-value stand-ins for the 256-bit words and the addresses of the engine.

use vstd::prelude::*;

verus! {

/// Two to the power 256: the number of 256-bit words.
pub open spec fn word_modulus() -> int {
    115792089237316195423570985008687907853269984665640564039457584007913129639936int
}

/// A 256-bit unsigned integer as four 64-bit limbs, least significant first.
#[derive(Clone, Copy, Debug, PartialEq, Eq, Structural, Hash)]
pub struct Word {
    pub w0: u64,
    pub w1: u64,
    pub w2: u64,
    pub w3: u64,
}

impl Word {
    /// The number that the four limbs spell.
    pub open spec fn value(self) -> int {
        self.w0 as int + self.w1 as int * 0x1_0000_0000_0000_0000int + self.w2 as int
            * 340282366920938463463374607431768211456int + self.w3 as int
            * 6277101735386680763835789423207666416102355444464034512896int
    }

    /// The word whose value is `x`.
    pub open spec fn from_u64_spec(x: u64) -> Word {
        Word { w0: x, w1: 0, w2: 0, w3: 0 }
    }

    /// The word zero.
    pub fn zero() -> (w: Word)
        ensures
            w == (Word { w0: 0, w1: 0, w2: 0, w3: 0 }),
            w.value() == 0,
    {
        Word { w0: 0, w1: 0, w2: 0, w3: 0 }
    }

    /// The word whose value is `x`.
    pub fn from_u64(x: u64) -> (w: Word)
        ensures
            w == Word::from_u64_spec(x),
            w.value() == x,
    {
        Word { w0: x, w1: 0, w2: 0, w3: 0 }
    }

    /// The sum of two words, reduced modulo two to the power 256.
    pub fn wrapping_add(self, rhs: Word) -> (sum: Word)
        ensures
            sum.value() == (self.value() + rhs.value()) % word_modulus(),
    {
        u256_wrapping_add(self, rhs)
    }
}

/// Two words of the same value are the same word: a contract that gives a
/// word's value pins the word.
pub proof fn lemma_value_determines_word(a: Word, b: Word)
    requires
        a.value() == b.value(),
    ensures
        a == b,
{
    let low_a = a.w0 as int + a.w1 as int * 0x1_0000_0000_0000_0000int;
    let low_b = b.w0 as int + b.w1 as int * 0x1_0000_0000_0000_0000int;
    let mid_a = low_a + a.w2 as int * 340282366920938463463374607431768211456int;
    let mid_b = low_b + b.w2 as int * 340282366920938463463374607431768211456int;
    assert(0 <= low_a < 340282366920938463463374607431768211456int);
    assert(0 <= low_b < 340282366920938463463374607431768211456int);
    assert(0 <= mid_a < 6277101735386680763835789423207666416102355444464034512896int);
    assert(0 <= mid_b < 6277101735386680763835789423207666416102355444464034512896int);
    assert(a.w3 == b.w3) by {
        if a.w3 > b.w3 {
            assert(a.w3 as int * 6277101735386680763835789423207666416102355444464034512896int
                >= (b.w3 as int + 1)
                * 6277101735386680763835789423207666416102355444464034512896int);
        }
        if a.w3 < b.w3 {
            assert(b.w3 as int * 6277101735386680763835789423207666416102355444464034512896int
                >= (a.w3 as int + 1)
                * 6277101735386680763835789423207666416102355444464034512896int);
        }
    }
    assert(mid_a == mid_b);
    assert(a.w2 == b.w2) by {
        if a.w2 > b.w2 {
            assert(a.w2 as int * 340282366920938463463374607431768211456int >= (b.w2 as int + 1)
                * 340282366920938463463374607431768211456int);
        }
        if a.w2 < b.w2 {
            assert(b.w2 as int * 340282366920938463463374607431768211456int >= (a.w2 as int + 1)
                * 340282366920938463463374607431768211456int);
        }
    }
    assert(low_a == low_b);
    assert(a.w1 == b.w1) by {
        if a.w1 > b.w1 {
            assert(a.w1 as int * 0x1_0000_0000_0000_0000int >= (b.w1 as int + 1)
                * 0x1_0000_0000_0000_0000int);
        }
        if a.w1 < b.w1 {
            assert(b.w1 as int * 0x1_0000_0000_0000_0000int >= (a.w1 as int + 1)
                * 0x1_0000_0000_0000_0000int);
        }
    }
}

/// The time by which the timestamp moves per block where nothing else is
/// configured.
pub const DEFAULT_BLOCK_TIME: u64 = 12;

/// The default per-block time as a word.
pub fn default_block_time() -> (t: Word)
    ensures
        t == Word::from_u64_spec(DEFAULT_BLOCK_TIME),
        t.value() == DEFAULT_BLOCK_TIME,
{
    Word::from_u64(DEFAULT_BLOCK_TIME)
}

/// Calls `ruint::Uint::wrapping_add` on the 256-bit integer type that
/// `revm_primitives` exports as `U256`, the addition behind its `+`.
///
/// Trusted: the limbs go in and come out in the library's order (least
/// significant first, as `from_limbs` and `into_limbs` document), and the
/// result is the sum reduced modulo two to the power 256.
#[verifier::external_body]
pub(crate) fn u256_wrapping_add(a: Word, b: Word) -> (sum: Word)
    ensures
        sum.value() == (a.value() + b.value()) % word_modulus(),
{
    let x = revm_primitives::U256::from_limbs([a.w0, a.w1, a.w2, a.w3]);
    let y = revm_primitives::U256::from_limbs([b.w0, b.w1, b.w2, b.w3]);
    let limbs = x.wrapping_add(y).into_limbs();
    Word { w0: limbs[0], w1: limbs[1], w2: limbs[2], w3: limbs[3] }
}

/// A 160-bit account address: the top 32 bits and the low 128 bits.
#[derive(Clone, Copy, Debug, PartialEq, Eq, Structural, Hash)]
pub struct Address {
    pub hi: u32,
    pub lo: u128,
}

} // verus!
