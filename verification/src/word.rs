//! The machine word: a 256-bit unsigned integer held as four 64-bit limbs,
//! least significant first.

use vstd::prelude::*;
use vstd::arithmetic::div_mod::{lemma_fundamental_div_mod_converse, lemma_mul_mod_noop_general};
use vstd::arithmetic::power::{
    lemma_pow0, lemma_pow1, lemma_pow_adds, lemma_pow_mod_noop, lemma_pow_multiplies,
    lemma_square_is_pow2, pow,
};
use ethereum_types::U256;

verus! {

/// Two to the power 64: the weight of one limb.
pub open spec fn limb_base() -> nat {
    0x1_0000_0000_0000_0000
}

/// Two to the power 256: all word arithmetic is taken modulo this number.
pub open spec fn word_modulus() -> nat {
    limb_base() * limb_base() * limb_base() * limb_base()
}

/// A 256-bit unsigned integer. `w0` is the least significant limb.
#[derive(Clone, Copy, Debug, PartialEq, Eq, Structural)]
pub struct Word {
    pub w0: u64,
    pub w1: u64,
    pub w2: u64,
    pub w3: u64,
}

impl View for Word {
    type V = nat;

    /// The number that the four limbs stand for.
    open spec fn view(&self) -> nat {
        self.w0 as nat + limb_base() * (self.w1 as nat + limb_base() * (self.w2 as nat
            + limb_base() * self.w3 as nat))
    }
}

/// Every word is below two to the power 256.
pub proof fn lemma_word_bound(w: Word)
    ensures
        w@ < word_modulus(),
{
    let b = limb_base();
    assert(w@ < b * b * b * b) by (nonlinear_arith)
        requires
            b == 0x1_0000_0000_0000_0000,
            w@ == w.w0 + b * (w.w1 + b * (w.w2 + b * w.w3)),
            w.w0 < b,
            w.w1 < b,
            w.w2 < b,
            w.w3 < b,
    ;
}

/// Two words that stand for the same number have the same limbs.
pub proof fn lemma_word_injective(a: Word, b: Word)
    requires
        a@ == b@,
    ensures
        a == b,
{
    let m = limb_base() as int;
    let ha = a.w1 as int + m * (a.w2 as int + m * a.w3 as int);
    let hb = b.w1 as int + m * (b.w2 as int + m * b.w3 as int);
    lemma_split(a.w0 as int, ha, b.w0 as int, hb);
    let ga = a.w2 as int + m * a.w3 as int;
    let gb = b.w2 as int + m * b.w3 as int;
    lemma_split(a.w1 as int, ga, b.w1 as int, gb);
    lemma_split(a.w2 as int, a.w3 as int, b.w2 as int, b.w3 as int);
}

/// A number written as `lo + 2^64 * hi` with `lo` below `2^64` has one such writing.
proof fn lemma_split(lo1: int, hi1: int, lo2: int, hi2: int)
    requires
        0 <= lo1 < limb_base(),
        0 <= lo2 < limb_base(),
        lo1 + limb_base() as int * hi1 == lo2 + limb_base() as int * hi2,
    ensures
        lo1 == lo2,
        hi1 == hi2,
{
    let m = limb_base() as int;
    assert(hi1 == hi2 && lo1 == lo2) by (nonlinear_arith)
        requires
            m == 0x1_0000_0000_0000_0000,
            0 <= lo1 < m,
            0 <= lo2 < m,
            lo1 + m * hi1 == lo2 + m * hi2,
    ;
}

/// The word that stands for `v` modulo two to the power 256.
pub open spec fn word_of(v: nat) -> Word {
    Word {
        w0: (v % limb_base()) as u64,
        w1: ((v / limb_base()) % limb_base()) as u64,
        w2: ((v / limb_base() / limb_base()) % limb_base()) as u64,
        w3: ((v / limb_base() / limb_base() / limb_base()) % limb_base()) as u64,
    }
}

/// `word_of(v)` stands for `v` modulo two to the power 256.
pub proof fn lemma_word_of_view(v: nat)
    ensures
        word_of(v)@ == v % word_modulus(),
{
    let b = limb_base() as int;
    let v0 = v as int;
    let v1 = v0 / b;
    let v2 = v1 / b;
    let v3 = v2 / b;
    let v4 = v3 / b;
    let (q0, q1, q2, q3) = (v0 % b, v1 % b, v2 % b, v3 % b);
    assert(v0 == q0 + b * v1 && 0 <= q0 < b && v1 >= 0) by (nonlinear_arith)
        requires
            b == 0x1_0000_0000_0000_0000,
            v0 >= 0,
            v1 == v0 / b,
            q0 == v0 % b,
    ;
    assert(v1 == q1 + b * v2 && 0 <= q1 < b && v2 >= 0) by (nonlinear_arith)
        requires
            b == 0x1_0000_0000_0000_0000,
            v1 >= 0,
            v2 == v1 / b,
            q1 == v1 % b,
    ;
    assert(v2 == q2 + b * v3 && 0 <= q2 < b && v3 >= 0) by (nonlinear_arith)
        requires
            b == 0x1_0000_0000_0000_0000,
            v2 >= 0,
            v3 == v2 / b,
            q2 == v2 % b,
    ;
    assert(v3 == q3 + b * v4 && 0 <= q3 < b && v4 >= 0) by (nonlinear_arith)
        requires
            b == 0x1_0000_0000_0000_0000,
            v3 >= 0,
            v4 == v3 / b,
            q3 == v3 % b,
    ;
    let w = word_of(v);
    assert(w.w0 == q0 && w.w1 == q1 && w.w2 == q2 && w.w3 == q3);
    lemma_word_bound(w);
    let m = word_modulus() as int;
    assert(v0 == v4 * m + w@) by (nonlinear_arith)
        requires
            m == b * b * b * b,
            w@ == q0 + b * (q1 + b * (q2 + b * q3)),
            v0 == q0 + b * v1,
            v1 == q1 + b * v2,
            v2 == q2 + b * v3,
            v3 == q3 + b * v4,
    ;
    assert(m > 0) by (nonlinear_arith)
        requires
            m == b * b * b * b,
            b == 0x1_0000_0000_0000_0000,
    ;
    lemma_fundamental_div_mod_converse(v0, m, v4, w@ as int);
}

/// `word_of` gives every word back from the number that it stands for.
pub proof fn lemma_word_of_inverse(w: Word)
    ensures
        word_of(w@) == w,
{
    lemma_word_of_view(w@);
    lemma_word_bound(w);
    let m = word_modulus() as int;
    lemma_fundamental_div_mod_converse(w@ as int, m, 0, w@ as int);
    lemma_word_injective(word_of(w@), w);
}

/// One round of exponentiation by squaring keeps `result * cur^rem` as it
/// was, modulo `m`.
proof fn lemma_pow_step(result: int, cur: int, rem: nat, next_result: int, next_cur: int, m: int)
    requires
        m > 0,
        rem > 0,
        next_cur == (cur * cur) % m,
        next_result == (if rem % 2 == 0 {
            result
        } else {
            (result * cur) % m
        }),
    ensures
        (next_result * pow(next_cur, rem / 2)) % m == (result * pow(cur, rem)) % m,
{
    let q = rem / 2;
    let r = rem % 2;
    let p = pow(cur * cur, q);
    let y = pow(next_cur, q);
    let x = if r == 0 {
        result
    } else {
        result * cur
    };
    lemma_pow_mod_noop(cur * cur, q, m);
    assert(y % m == p % m);
    lemma_square_is_pow2(cur);
    lemma_pow_multiplies(cur, 2, q);
    assert(p == pow(cur, 2 * q));
    lemma_pow_adds(cur, 2 * q, r);
    assert(rem == 2 * q + r);
    lemma_pow0(cur);
    lemma_pow1(cur);
    assert(x * p == result * pow(cur, rem)) by (nonlinear_arith)
        requires
            pow(cur, rem) == p * pow(cur, r),
            x == result * pow(cur, r),
    ;
    lemma_mul_mod_noop_general(x, y, m);
    lemma_mul_mod_noop_general(x, p, m);
    assert(next_result % m == x % m) by {
        if r != 0 {
            lemma_fundamental_div_mod_converse(x % m, m, 0, x % m);
        }
    }
    lemma_mul_mod_noop_general(next_result, y, m);
}

/// The word that stands for `v` modulo two to the power 256 is `word_of(v)`.
pub proof fn lemma_word_is_word_of(w: Word, v: nat)
    requires
        w@ == v % word_modulus(),
    ensures
        w == word_of(v),
{
    lemma_word_of_view(v);
    lemma_word_injective(w, word_of(v));
}

/// A word that stands for a number below two to the power 256 is its `word_of`.
pub proof fn lemma_word_is_word_of_small(w: Word, v: nat)
    requires
        w@ == v,
    ensures
        w == word_of(v),
{
    lemma_word_bound(w);
    lemma_fundamental_div_mod_converse(v as int, word_modulus() as int, 0, v as int);
    lemma_word_is_word_of(w, v);
}

/// Words compare as their limbs do, the most significant limb first.
pub proof fn lemma_word_order(a: Word, b: Word)
    ensures
        (a@ < b@) == (if a.w3 != b.w3 {
            a.w3 < b.w3
        } else if a.w2 != b.w2 {
            a.w2 < b.w2
        } else if a.w1 != b.w1 {
            a.w1 < b.w1
        } else {
            a.w0 < b.w0
        }),
{
    let m = limb_base() as int;
    let ga = a.w2 as int + m * a.w3 as int;
    let gb = b.w2 as int + m * b.w3 as int;
    lemma_split_order(a.w2 as int, a.w3 as int, b.w2 as int, b.w3 as int);
    let ha = a.w1 as int + m * ga;
    let hb = b.w1 as int + m * gb;
    lemma_split_order(a.w1 as int, ga, b.w1 as int, gb);
    lemma_split_order(a.w0 as int, ha, b.w0 as int, hb);
}

/// Numbers written as `lo + 2^64 * hi` compare by `hi` first, then by `lo`.
proof fn lemma_split_order(lo1: int, hi1: int, lo2: int, hi2: int)
    requires
        0 <= lo1 < limb_base(),
        0 <= lo2 < limb_base(),
    ensures
        (lo1 + limb_base() as int * hi1 < lo2 + limb_base() as int * hi2) == (if hi1 != hi2 {
            hi1 < hi2
        } else {
            lo1 < lo2
        }),
        (lo1 + limb_base() as int * hi1 == lo2 + limb_base() as int * hi2) == (hi1 == hi2 && lo1
            == lo2),
{
    let m = limb_base() as int;
    assert(hi1 < hi2 ==> lo1 + m * hi1 < lo2 + m * hi2) by (nonlinear_arith)
        requires
            m == 0x1_0000_0000_0000_0000,
            0 <= lo1 < m,
            0 <= lo2 < m,
    ;
    assert(hi1 > hi2 ==> lo1 + m * hi1 > lo2 + m * hi2) by (nonlinear_arith)
        requires
            m == 0x1_0000_0000_0000_0000,
            0 <= lo1 < m,
            0 <= lo2 < m,
    ;
}

impl Word {
    /// The word 0.
    pub fn zero() -> (r: Word)
        ensures
            r@ == 0,
    {
        Word { w0: 0, w1: 0, w2: 0, w3: 0 }
    }

    /// The word 1.
    pub fn one() -> (r: Word)
        ensures
            r@ == 1,
    {
        Word { w0: 1, w1: 0, w2: 0, w3: 0 }
    }

    /// The word that stands for `v`.
    pub fn from_u64(v: u64) -> (r: Word)
        ensures
            r@ == v,
    {
        Word { w0: v, w1: 0, w2: 0, w3: 0 }
    }

    /// The word whose limbs are all ones: two to the power 256, less one.
    pub fn max_value() -> (r: Word)
        ensures
            r@ == word_modulus() - 1,
    {
        let r = Word { w0: u64::MAX, w1: u64::MAX, w2: u64::MAX, w3: u64::MAX };
        proof {
            let b = limb_base() as int;
            let m = u64::MAX as int;
            assert(m + b * (m + b * (m + b * m)) == b * b * b * b - 1) by (nonlinear_arith)
                requires
                    b == 0x1_0000_0000_0000_0000,
                    m == b - 1,
            ;
        }
        r
    }

    /// Whether the number fits in 64 bits.
    pub fn fits_u64(&self) -> (r: bool)
        ensures
            r == (self@ <= u64::MAX),
            r ==> self@ == self.w0,
    {
        proof {
            let b = limb_base() as int;
            let h = self.w1 as int + b * (self.w2 as int + b * self.w3 as int);
            assert(h == 0 <==> (self.w1 == 0 && self.w2 == 0 && self.w3 == 0)) by (nonlinear_arith)
                requires
                    b == 0x1_0000_0000_0000_0000,
                    h == self.w1 as int + b * (self.w2 as int + b * self.w3 as int),
            ;
            assert(self.w0 as int + b * h <= u64::MAX <==> h == 0) by (nonlinear_arith)
                requires
                    b == 0x1_0000_0000_0000_0000,
                    0 <= h,
                    0 <= self.w0 < b,
            ;
        }
        self.w1 == 0 && self.w2 == 0 && self.w3 == 0
    }

    /// The lowest 64 bits of the number.
    pub fn low_u64(&self) -> (r: u64)
        ensures
            r == self@ % limb_base(),
    {
        proof {
            let b = limb_base() as int;
            let h = self.w1 as int + b * (self.w2 as int + b * self.w3 as int);
            assert((self.w0 as int + b * h) % b == self.w0) by (nonlinear_arith)
                requires
                    b == 0x1_0000_0000_0000_0000,
                    0 <= h,
                    0 <= self.w0 < b,
            ;
        }
        self.w0
    }

    /// Whether this number is below `other`.
    pub fn lt(&self, other: &Word) -> (r: bool)
        ensures
            r == (self@ < other@),
    {
        proof {
            lemma_word_order(*self, *other);
        }
        if self.w3 != other.w3 {
            self.w3 < other.w3
        } else if self.w2 != other.w2 {
            self.w2 < other.w2
        } else if self.w1 != other.w1 {
            self.w1 < other.w1
        } else {
            self.w0 < other.w0
        }
    }

    /// Whether this number is above `other`.
    pub fn gt(&self, other: &Word) -> (r: bool)
        ensures
            r == (self@ > other@),
    {
        other.lt(self)
    }

    /// The limbs' bitwise conjunction.
    pub fn bitand(&self, other: &Word) -> (r: Word)
        ensures
            r == (Word {
                w0: self.w0 & other.w0,
                w1: self.w1 & other.w1,
                w2: self.w2 & other.w2,
                w3: self.w3 & other.w3,
            }),
    {
        Word {
            w0: self.w0 & other.w0,
            w1: self.w1 & other.w1,
            w2: self.w2 & other.w2,
            w3: self.w3 & other.w3,
        }
    }

    /// The limbs' bitwise disjunction.
    pub fn bitor(&self, other: &Word) -> (r: Word)
        ensures
            r == (Word {
                w0: self.w0 | other.w0,
                w1: self.w1 | other.w1,
                w2: self.w2 | other.w2,
                w3: self.w3 | other.w3,
            }),
    {
        Word {
            w0: self.w0 | other.w0,
            w1: self.w1 | other.w1,
            w2: self.w2 | other.w2,
            w3: self.w3 | other.w3,
        }
    }

    /// The limbs' bitwise exclusive disjunction.
    pub fn bitxor(&self, other: &Word) -> (r: Word)
        ensures
            r == (Word {
                w0: self.w0 ^ other.w0,
                w1: self.w1 ^ other.w1,
                w2: self.w2 ^ other.w2,
                w3: self.w3 ^ other.w3,
            }),
    {
        Word {
            w0: self.w0 ^ other.w0,
            w1: self.w1 ^ other.w1,
            w2: self.w2 ^ other.w2,
            w3: self.w3 ^ other.w3,
        }
    }

    /// Every bit flipped: two to the power 256, less one, less the number.
    pub fn not(&self) -> (r: Word)
        ensures
            r == (Word { w0: !self.w0, w1: !self.w1, w2: !self.w2, w3: !self.w3 }),
            r@ == word_modulus() - 1 - self@,
    {
        let r = Word { w0: !self.w0, w1: !self.w1, w2: !self.w2, w3: !self.w3 };
        proof {
            let (a0, a1, a2, a3) = (self.w0, self.w1, self.w2, self.w3);
            assert(!a0 == 0xffff_ffff_ffff_ffffu64 - a0) by (bit_vector);
            assert(!a1 == 0xffff_ffff_ffff_ffffu64 - a1) by (bit_vector);
            assert(!a2 == 0xffff_ffff_ffff_ffffu64 - a2) by (bit_vector);
            assert(!a3 == 0xffff_ffff_ffff_ffffu64 - a3) by (bit_vector);
            let b = limb_base() as int;
            let (x0, x1, x2, x3) = (a0 as int, a1 as int, a2 as int, a3 as int);
            assert((b - 1 - x0) + b * ((b - 1 - x1) + b * ((b - 1 - x2) + b * (b - 1 - x3)))
                == b * b * b * b - 1 - (x0 + b * (x1 + b * (x2 + b * x3)))) by (nonlinear_arith);
        }
        r
    }

    /// The word that up to 32 bytes stand for, most significant byte first.
    pub fn from_big_endian(bytes: &[u8]) -> (r: Word)
        requires
            bytes@.len() <= 32,
        ensures
            r@ == be_value(bytes@),
    {
        word_from_big_endian(bytes)
    }

    /// The 32 bytes of the word, most significant byte first.
    pub fn to_big_endian(&self) -> (r: Vec<u8>)
        ensures
            r@ == be_bytes(self@, 32),
            r@.len() == 32,
            be_value(r@) == self@,
    {
        proof {
            lemma_word_bytes_round_trip(*self);
        }
        word_to_big_endian(*self)
    }

    /// The sum modulo two to the power 256.
    pub fn wrapping_add(&self, other: &Word) -> (r: Word)
        ensures
            r@ == (self@ + other@) % word_modulus(),
    {
        word_wrapping_add(*self, *other)
    }

    /// The difference modulo two to the power 256.
    pub fn wrapping_sub(&self, other: &Word) -> (r: Word)
        ensures
            r@ == (self@ - other@) % (word_modulus() as int),
    {
        word_wrapping_sub(*self, *other)
    }

    /// The product modulo two to the power 256.
    pub fn wrapping_mul(&self, other: &Word) -> (r: Word)
        ensures
            r@ == (self@ * other@) % word_modulus(),
    {
        word_wrapping_mul(*self, *other)
    }

    /// The power modulo two to the power 256; any number to the power 0 is 1.
    pub fn wrapping_pow(&self, exponent: &Word) -> (r: Word)
        ensures
            r@ == pow(self@ as int, exponent@) % (word_modulus() as int),
    {
        let two = Word::from_u64(2);
        let mut result = Word::one();
        let mut cur = *self;
        let mut rem = *exponent;
        proof {
            lemma_word_bound(result);
            assert(1 * pow(self@ as int, exponent@) == pow(self@ as int, exponent@));
        }
        while !rem.is_zero()
            invariant
                two@ == 2,
                (result@ * pow(cur@ as int, rem@)) % (word_modulus() as int) == pow(
                    self@ as int,
                    exponent@,
                ) % (word_modulus() as int),
            decreases rem@,
        {
            let (q, r) = word_div_mod(rem, two);
            let next_result = if r.is_zero() {
                result
            } else {
                word_wrapping_mul(result, cur)
            };
            let next_cur = word_wrapping_mul(cur, cur);
            proof {
                lemma_pow_step(
                    result@ as int,
                    cur@ as int,
                    rem@,
                    next_result@ as int,
                    next_cur@ as int,
                    word_modulus() as int,
                );
            }
            result = next_result;
            cur = next_cur;
            rem = q;
        }
        proof {
            lemma_word_bound(result);
            lemma_pow0(cur@ as int);
            lemma_fundamental_div_mod_converse(
                result@ as int,
                word_modulus() as int,
                0,
                result@ as int,
            );
        }
        result
    }

    /// The truncated quotient, and 0 where the divisor is 0.
    pub fn div_or_zero(&self, other: &Word) -> (r: Word)
        ensures
            r@ == (if other@ == 0 {
                0
            } else {
                self@ / other@
            }),
    {
        if other.is_zero() {
            Word::zero()
        } else {
            word_div_mod(*self, *other).0
        }
    }

    /// The remainder, and 0 where the divisor is 0.
    pub fn rem_or_zero(&self, other: &Word) -> (r: Word)
        ensures
            r@ == (if other@ == 0 {
                0
            } else {
                self@ % other@
            }),
    {
        if other.is_zero() {
            Word::zero()
        } else {
            word_div_mod(*self, *other).1
        }
    }

    /// The byte at `index`, the least significant byte having index 0, and
    /// zero for an index of 32 or more.
    pub fn byte_or_zero(&self, index: &Word) -> (r: u8)
        ensures
            r == (if index@ < 32 {
                (self@ / byte_base(index@)) % 256
            } else {
                0
            }),
    {
        if !index.fits_u64() {
            return 0;
        }
        let i: u64 = index.low_u64();
        if i >= 32 {
            return 0;
        }
        word_byte(*self, i as usize)
    }

    /// Whether the word is 0.
    pub fn is_zero(&self) -> (r: bool)
        ensures
            r == (self@ == 0),
    {
        proof {
            if self@ == 0 {
                lemma_word_injective(*self, Word { w0: 0, w1: 0, w2: 0, w3: 0 });
            }
        }
        self.w0 == 0 && self.w1 == 0 && self.w2 == 0 && self.w3 == 0
    }
}

/// Calls `U256::overflowing_add` and keeps the sum, dropping the overflow
/// flag: the sum of the two numbers modulo two to the power 256.
#[verifier::external_body]
pub(crate) fn word_wrapping_add(a: Word, b: Word) -> (r: Word)
    ensures
        r@ == (a@ + b@) % word_modulus(),
{
    let (s, _) = U256([a.w0, a.w1, a.w2, a.w3]).overflowing_add(U256([b.w0, b.w1, b.w2, b.w3]));
    Word { w0: s.0[0], w1: s.0[1], w2: s.0[2], w3: s.0[3] }
}

/// Calls `U256::overflowing_sub` and keeps the difference, dropping the
/// underflow flag: the difference of the two numbers modulo two to the power 256.
#[verifier::external_body]
pub(crate) fn word_wrapping_sub(a: Word, b: Word) -> (r: Word)
    ensures
        r@ == (a@ - b@) % (word_modulus() as int),
{
    let (s, _) = U256([a.w0, a.w1, a.w2, a.w3]).overflowing_sub(U256([b.w0, b.w1, b.w2, b.w3]));
    Word { w0: s.0[0], w1: s.0[1], w2: s.0[2], w3: s.0[3] }
}

/// Calls `U256::overflowing_mul` and keeps the product, dropping the overflow
/// flag: the product of the two numbers modulo two to the power 256.
#[verifier::external_body]
pub(crate) fn word_wrapping_mul(a: Word, b: Word) -> (r: Word)
    ensures
        r@ == (a@ * b@) % word_modulus(),
{
    let (s, _) = U256([a.w0, a.w1, a.w2, a.w3]).overflowing_mul(U256([b.w0, b.w1, b.w2, b.w3]));
    Word { w0: s.0[0], w1: s.0[1], w2: s.0[2], w3: s.0[3] }
}

/// Calls `U256::div_mod`, which panics on a zero divisor and otherwise
/// returns the truncated quotient and the remainder.
#[verifier::external_body]
pub(crate) fn word_div_mod(a: Word, b: Word) -> (r: (Word, Word))
    requires
        b@ != 0,
    ensures
        r.0@ == a@ / b@,
        r.1@ == a@ % b@,
{
    let (q, m) = U256([a.w0, a.w1, a.w2, a.w3]).div_mod(U256([b.w0, b.w1, b.w2, b.w3]));
    (
        Word { w0: q.0[0], w1: q.0[1], w2: q.0[2], w3: q.0[3] },
        Word { w0: m.0[0], w1: m.0[1], w2: m.0[2], w3: m.0[3] },
    )
}

/// Calls `U256::from_big_endian`, which panics on more than 32 bytes and
/// otherwise reads the bytes as one number, most significant byte first.
#[verifier::external_body]
pub(crate) fn word_from_big_endian(bytes: &[u8]) -> (r: Word)
    requires
        bytes@.len() <= 32,
    ensures
        r@ == be_value(bytes@),
{
    let v = U256::from_big_endian(bytes);
    Word { w0: v.0[0], w1: v.0[1], w2: v.0[2], w3: v.0[3] }
}

/// Calls `U256::to_big_endian`: the 32 bytes of the number, most significant
/// byte first.
#[verifier::external_body]
pub(crate) fn word_to_big_endian(a: Word) -> (r: Vec<u8>)
    ensures
        r@ == be_bytes(a@, 32),
{
    U256([a.w0, a.w1, a.w2, a.w3]).to_big_endian().to_vec()
}

/// Calls `U256::byte`, which panics on an index of 32 or more and otherwise
/// returns the byte at that index, the least significant byte having index 0.
#[verifier::external_body]
pub(crate) fn word_byte(a: Word, index: usize) -> (r: u8)
    requires
        index < 32,
    ensures
        r == (a@ / byte_base(index as nat)) % 256,
{
    U256([a.w0, a.w1, a.w2, a.w3]).byte(index)
}

/// The number that a byte string stands for, most significant byte first.
pub open spec fn be_value(bytes: Seq<u8>) -> nat
    decreases bytes.len(),
{
    if bytes.len() == 0 {
        0
    } else {
        be_value(bytes.drop_last()) * 256 + bytes.last() as nat
    }
}

/// The `n` low-order bytes of `v`, most significant byte first.
pub open spec fn be_bytes(v: nat, n: nat) -> Seq<u8>
    decreases n,
{
    if n == 0 {
        Seq::empty()
    } else {
        be_bytes(v / 256, (n - 1) as nat).push((v % 256) as u8)
    }
}

/// 256 to the power `n`: the number of byte strings of length `n`.
pub open spec fn byte_base(n: nat) -> nat
    decreases n,
{
    if n == 0 {
        1
    } else {
        256 * byte_base((n - 1) as nat)
    }
}

/// `be_bytes` returns as many bytes as it is asked for.
pub proof fn lemma_be_bytes_len(v: nat, n: nat)
    ensures
        be_bytes(v, n).len() == n,
    decreases n,
{
    if n > 0 {
        lemma_be_bytes_len(v / 256, (n - 1) as nat);
    }
}

/// A number that fits in `n` bytes is read back from its `n` bytes.
pub proof fn lemma_be_value_of_be_bytes(v: nat, n: nat)
    requires
        v < byte_base(n),
    ensures
        be_value(be_bytes(v, n)) == v,
    decreases n,
{
    if n > 0 {
        let rest = be_bytes(v / 256, (n - 1) as nat);
        let all = rest.push((v % 256) as u8);
        lemma_be_bytes_len(v / 256, (n - 1) as nat);
        assert(all.drop_last() =~= rest);
        assert(v / 256 < byte_base((n - 1) as nat)) by (nonlinear_arith)
            requires
                v < 256 * byte_base((n - 1) as nat),
        ;
        lemma_be_value_of_be_bytes(v / 256, (n - 1) as nat);
        assert(v == (v / 256) * 256 + v % 256) by (nonlinear_arith);
    }
}

/// 256 to the power `a + b` is the product of its powers `a` and `b`.
proof fn lemma_byte_base_add(a: nat, b: nat)
    ensures
        byte_base(a + b) == byte_base(a) * byte_base(b),
    decreases a,
{
    if a > 0 {
        lemma_byte_base_add((a - 1) as nat, b);
        assert(byte_base(a + b) == 256 * byte_base((a - 1) as nat + b));
        assert(256 * (byte_base((a - 1) as nat) * byte_base(b)) == (256 * byte_base(
            (a - 1) as nat,
        )) * byte_base(b)) by (nonlinear_arith);
    } else {
        assert(byte_base(0 + b) == 1 * byte_base(b));
    }
}

/// Eight bytes make a limb, thirty-two a word.
pub proof fn lemma_byte_base_word()
    ensures
        byte_base(8) == limb_base(),
        byte_base(32) == word_modulus(),
{
    reveal_with_fuel(byte_base, 9);
    assert(byte_base(8) == limb_base());
    lemma_byte_base_add(8, 8);
    lemma_byte_base_add(16, 16);
    let b = limb_base();
    assert((b * b) * (b * b) == b * b * b * b) by (nonlinear_arith);
}

/// A word is read back from its thirty-two bytes.
pub proof fn lemma_word_bytes_round_trip(w: Word)
    ensures
        be_bytes(w@, 32).len() == 32,
        be_value(be_bytes(w@, 32)) == w@,
{
    lemma_word_bound(w);
    lemma_byte_base_word();
    lemma_be_bytes_len(w@, 32);
    lemma_be_value_of_be_bytes(w@, 32);
}

} // verus!
