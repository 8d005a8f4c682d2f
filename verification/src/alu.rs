//! The arithmetic and logic of the data path: addition with carry and overflow, shifts
//! with a carry out, saturation, extension and the bit manipulations of the
//! data-processing instructions.
use vstd::prelude::*;

use crate::common::Word;
use crate::registers::{SRType, Shift};
use vstd::arithmetic::power2::pow2;

verus! {

/// The value of a word read as a two's-complement signed integer.
pub open spec fn signed(x: Word) -> int {
    if x < 0x8000_0000 {
        x as int
    } else {
        x as int - 0x1_0000_0000
    }
}

/// The word that holds an integer modulo 2^32 (two's complement for a negative one).
pub open spec fn word_of(i: int) -> Word {
    (i % 0x1_0000_0000) as Word
}

/// `AddWithCarry(x, y, carry_in)`: the sum modulo 2^32, whether the unsigned sum did not
/// fit (the carry out) and whether the signed sum did not fit (the overflow).
pub open spec fn add_with_carry(x: Word, y: Word, carry_in: bool) -> (Word, bool, bool) {
    let c: int = if carry_in {
        1
    } else {
        0
    };
    let unsigned_sum = x + y + c;
    let signed_sum = signed(x) + signed(y) + c;
    let result = word_of(unsigned_sum);
    (result, result as int != unsigned_sum, signed(result) != signed_sum)
}

/// The word for an integer in the 33-bit two's-complement range.
pub fn word_from_i64(v: i64) -> (r: Word)
    requires
        -0x1_0000_0000 < v < 0x1_0000_0000,
    ensures
        r == word_of(v as int),
{
    if v < 0 {
        let r = (v + 0x1_0000_0000) as Word;
        assert(word_of(v as int) == v + 0x1_0000_0000) by {
            vstd::arithmetic::div_mod::lemma_mod_add_multiples_vanish(v as int, 0x1_0000_0000);
            vstd::arithmetic::div_mod::lemma_small_mod(
                (v + 0x1_0000_0000) as nat,
                0x1_0000_0000,
            );
        }
        r
    } else {
        assert(word_of(v as int) == v) by {
            vstd::arithmetic::div_mod::lemma_small_mod(v as nat, 0x1_0000_0000);
        }
        v as Word
    }
}

pub fn add_with_carry_word(x: Word, y: Word, carry_in: bool) -> (r: (Word, bool, bool))
    ensures
        r == add_with_carry(x, y, carry_in),
{
    let c: u64 = if carry_in {
        1
    } else {
        0
    };
    let sum: u64 = x as u64 + y as u64 + c;
    let carry = sum >= 0x1_0000_0000;
    let result: Word = if carry {
        (sum - 0x1_0000_0000) as Word
    } else {
        sum as Word
    };
    proof {
        if carry {
            vstd::arithmetic::div_mod::lemma_mod_add_multiples_vanish(
                (sum - 0x1_0000_0000) as int,
                0x1_0000_0000,
            );
            vstd::arithmetic::div_mod::lemma_small_mod(
                (sum - 0x1_0000_0000) as nat,
                0x1_0000_0000,
            );
        } else {
            vstd::arithmetic::div_mod::lemma_small_mod(sum as nat, 0x1_0000_0000);
        }
    }
    let x_negative = x >= 0x8000_0000;
    let y_negative = y >= 0x8000_0000;
    let result_negative = result >= 0x8000_0000;
    let overflow = x_negative == y_negative && result_negative != x_negative;
    (result, carry, overflow)
}

/// Bit `i` of a word.
pub open spec fn bit(x: Word, i: u32) -> bool {
    (x >> i) & 1 == 1
}

/// `LSL_C(x, n)` for `n > 0`: the bits shifted out above bit 31 are lost; the last of them
/// is the carry out.
pub open spec fn lsl_c(x: Word, n: u8) -> (Word, bool) {
    (
        if n >= 32 {
            0
        } else {
            x << (n as u32)
        },
        if n > 32 {
            false
        } else {
            bit(x, (32 - n) as u32)
        },
    )
}

/// `LSR_C(x, n)` for `n > 0`: zeros come in from the top; the last bit shifted out below
/// bit 0 is the carry out.
pub open spec fn lsr_c(x: Word, n: u8) -> (Word, bool) {
    (
        if n >= 32 {
            0
        } else {
            x >> (n as u32)
        },
        if n > 32 {
            false
        } else {
            bit(x, (n - 1) as u32)
        },
    )
}

/// `ASR_C(x, n)` for `n > 0`: copies of the sign bit come in from the top; the last bit
/// shifted out below bit 0 is the carry out.
pub open spec fn asr_c(x: Word, n: u8) -> (Word, bool) {
    let negative = bit(x, 31);
    (
        if n >= 32 {
            if negative {
                0xffff_ffff
            } else {
                0
            }
        } else if negative {
            (x >> (n as u32)) | !(0xffff_ffffu32 >> (n as u32))
        } else {
            x >> (n as u32)
        },
        if n >= 32 {
            negative
        } else {
            bit(x, (n - 1) as u32)
        },
    )
}

/// Rotation of a word right by `m` bits, `m < 32`.
pub open spec fn rotate_right(x: Word, m: u32) -> Word {
    if m == 0 {
        x
    } else {
        (x >> m) | (x << ((32 - m) as u32))
    }
}

/// `ROR_C(x, n)` for `n > 0`: rotation by `n` modulo 32; the carry out is the new bit 31.
pub open spec fn ror_c(x: Word, n: u8) -> (Word, bool) {
    let result = rotate_right(x, (n % 32) as u32);
    (result, bit(result, 31))
}

/// `RRX_C(x, carry_in)`: a rotation by one bit through the carry.
pub open spec fn rrx_c(x: Word, carry_in: bool) -> (Word, bool) {
    (
        (if carry_in {
            0x8000_0000u32
        } else {
            0
        }) | (x >> 1u32),
        bit(x, 0),
    )
}

/// `Shift_C(value, type, amount, carry_in)`: the shifted value and the carry out; a shift
/// by zero keeps the value and the carry.
pub open spec fn shift_c(value: Word, srtype: SRType, amount: u8, carry_in: bool) -> (
    Word,
    bool,
) {
    if amount == 0 {
        (value, carry_in)
    } else {
        match srtype {
            SRType::LSL => lsl_c(value, amount),
            SRType::LSR => lsr_c(value, amount),
            SRType::ASR => asr_c(value, amount),
            SRType::ROR => ror_c(value, amount),
            SRType::RRX => rrx_c(value, carry_in),
        }
    }
}

/// `Shift(value, type, amount, carry_in)`: the shifted value alone.
pub open spec fn shifted(value: Word, shift: Shift, carry_in: bool) -> Word {
    shift_c(value, shift.srtype, shift.amount, carry_in).0
}

fn bit_of(x: Word, i: u32) -> (r: bool)
    requires
        i < 32,
    ensures
        r == bit(x, i),
{
    (x >> i) & 1 == 1
}

/// `Shift_C` of a register operand by a shift.
pub fn shift_c_word(value: Word, shift: Shift, carry_in: bool) -> (r: (Word, bool))
    ensures
        r == shift_c(value, shift.srtype, shift.amount, carry_in),
{
    let n = shift.amount;
    if n == 0 {
        return (value, carry_in);
    }
    match shift.srtype {
        SRType::LSL => {
            let result = if n >= 32 {
                0
            } else {
                value << (n as u32)
            };
            let carry = if n > 32 {
                false
            } else {
                bit_of(value, (32 - n) as u32)
            };
            (result, carry)
        },
        SRType::LSR => {
            let result = if n >= 32 {
                0
            } else {
                value >> (n as u32)
            };
            let carry = if n > 32 {
                false
            } else {
                bit_of(value, (n - 1) as u32)
            };
            (result, carry)
        },
        SRType::ASR => {
            let negative = bit_of(value, 31);
            let result = if n >= 32 {
                if negative {
                    0xffff_ffff
                } else {
                    0
                }
            } else if negative {
                (value >> (n as u32)) | !(0xffff_ffffu32 >> (n as u32))
            } else {
                value >> (n as u32)
            };
            let carry = if n >= 32 {
                negative
            } else {
                bit_of(value, (n - 1) as u32)
            };
            (result, carry)
        },
        SRType::ROR => {
            let m = (n % 32) as u32;
            let result = if m == 0 {
                value
            } else {
                (value >> m) | (value << (32 - m))
            };
            (result, bit_of(result, 31))
        },
        SRType::RRX => {
            let top: u32 = if carry_in {
                0x8000_0000
            } else {
                0
            };
            (top | (value >> 1u32), bit_of(value, 0))
        },
    }
}

/// `Shift` of a register operand by a shift.
pub fn shift_word(value: Word, shift: Shift, carry_in: bool) -> (r: Word)
    ensures
        r == shifted(value, shift, carry_in),
{
    shift_c_word(value, shift, carry_in).0
}


// ---------------------------------------------------------------------------
// Saturation
// ---------------------------------------------------------------------------

/// `SignedSatQ(i, n)`: `i` clamped to the range of `n`-bit signed integers, and whether it
/// had to be clamped.
pub open spec fn signed_sat_q(i: int, n: nat) -> (int, bool) {
    let max = pow2((n - 1) as nat) - 1;
    let min = -pow2((n - 1) as nat);
    if i > max {
        (max, true)
    } else if i < min {
        (min, true)
    } else {
        (i, false)
    }
}

/// `UnsignedSatQ(i, n)`: `i` clamped to the range of `n`-bit unsigned integers, and
/// whether it had to be clamped.
pub open spec fn unsigned_sat_q(i: int, n: nat) -> (int, bool) {
    let max = pow2(n) - 1;
    if i > max {
        (max, true)
    } else if i < 0 {
        (0, true)
    } else {
        (i, false)
    }
}

/// 2^k as a 64-bit integer, for `k < 32`.
fn power_of_two(k: u8) -> (r: i64)
    requires
        k < 32,
    ensures
        r == pow2(k as nat),
        0 < r <= 0x8000_0000,
{
    proof {
        vstd::arithmetic::power2::lemma2_to64();
        if k < 31 {
            vstd::arithmetic::power2::lemma_pow2_strictly_increases(k as nat, 31);
        }
        vstd::arithmetic::power2::lemma_pow2_pos(k as nat);
        vstd::bits::lemma_u64_shl_is_mul(1, k as u64);
    }
    (1u64 << (k as u64)) as i64
}

/// A word saturated to `n` signed bits and sign-extended back (`SSAT`), and whether it
/// saturated.
pub fn signed_saturate(x: Word, n: u8) -> (r: (Word, bool))
    requires
        1 <= n <= 32,
    ensures
        r == (word_of(signed_sat_q(signed(x), n as nat).0), signed_sat_q(signed(x), n as nat).1),
{
    let v: i64 = if x >= 0x8000_0000 {
        x as i64 - 0x1_0000_0000
    } else {
        x as i64
    };
    let half = power_of_two(n - 1);
    if v > half - 1 {
        (word_from_i64(half - 1), true)
    } else if v < -half {
        (word_from_i64(-half), true)
    } else {
        (word_from_i64(v), false)
    }
}

/// A word saturated to `n` unsigned bits (`USAT`), and whether it saturated.
pub fn unsigned_saturate(x: Word, n: u8) -> (r: (Word, bool))
    requires
        n < 32,
    ensures
        r == (word_of(unsigned_sat_q(signed(x), n as nat).0), unsigned_sat_q(
            signed(x),
            n as nat,
        ).1),
{
    let v: i64 = if x >= 0x8000_0000 {
        x as i64 - 0x1_0000_0000
    } else {
        x as i64
    };
    let top = power_of_two(n);
    if v > top - 1 {
        (word_from_i64(top - 1), true)
    } else if v < 0 {
        (0, true)
    } else {
        (word_from_i64(v), false)
    }
}

// ---------------------------------------------------------------------------
// Extension and byte order
// ---------------------------------------------------------------------------

/// A byte read as a signed integer.
pub open spec fn signed_byte(b: int) -> int {
    if b < 0x80 {
        b
    } else {
        b - 0x100
    }
}

/// A halfword read as a signed integer.
pub open spec fn signed_halfword(h: int) -> int {
    if h < 0x8000 {
        h
    } else {
        h - 0x1_0000
    }
}

/// `SignExtend(x<7:0>, 32)`.
pub open spec fn sign_extend_byte(x: Word) -> Word {
    word_of(signed_byte((x % 0x100) as int))
}

/// `SignExtend(x<15:0>, 32)`.
pub open spec fn sign_extend_halfword(x: Word) -> Word {
    word_of(signed_halfword((x % 0x1_0000) as int))
}

pub fn sign_extend_byte_word(x: Word) -> (r: Word)
    ensures
        r == sign_extend_byte(x),
{
    let b = (x % 0x100) as i64;
    word_from_i64(
        if b < 0x80 {
            b
        } else {
            b - 0x100
        },
    )
}

pub fn sign_extend_halfword_word(x: Word) -> (r: Word)
    ensures
        r == sign_extend_halfword(x),
{
    let h = (x % 0x1_0000) as i64;
    word_from_i64(
        if h < 0x8000 {
            h
        } else {
            h - 0x1_0000
        },
    )
}

/// The bytes of a word in the reverse order (`REV`).
pub open spec fn byte_reverse(x: Word) -> Word {
    ((x % 0x100) * 0x100_0000 + ((x / 0x100) % 0x100) * 0x1_0000 + ((x / 0x1_0000) % 0x100)
        * 0x100 + x / 0x100_0000) as Word
}

/// The two bytes of each halfword swapped (`REV16`).
pub open spec fn byte_reverse_halfwords(x: Word) -> Word {
    (((x / 0x1_0000) % 0x100) * 0x100_0000 + (x / 0x100_0000) * 0x1_0000 + (x % 0x100) * 0x100 + (
    x / 0x100) % 0x100) as Word
}

/// The two low bytes swapped and the result sign-extended (`REVSH`).
pub open spec fn byte_reverse_signed_halfword(x: Word) -> Word {
    word_of(signed_byte((x % 0x100) as int) * 0x100 + (x / 0x100) % 0x100)
}

pub fn byte_reverse_word(x: Word) -> (r: Word)
    ensures
        r == byte_reverse(x),
{
    (x % 0x100) * 0x100_0000 + ((x / 0x100) % 0x100) * 0x1_0000 + ((x / 0x1_0000) % 0x100) * 0x100
        + x / 0x100_0000
}

pub fn byte_reverse_halfwords_word(x: Word) -> (r: Word)
    ensures
        r == byte_reverse_halfwords(x),
{
    ((x / 0x1_0000) % 0x100) * 0x100_0000 + (x / 0x100_0000) * 0x1_0000 + (x % 0x100) * 0x100 + (x
        / 0x100) % 0x100
}

pub fn byte_reverse_signed_halfword_word(x: Word) -> (r: Word)
    ensures
        r == byte_reverse_signed_halfword(x),
{
    let low = (x % 0x100) as i64;
    let high = ((x / 0x100) % 0x100) as i64;
    let signed_low = if low < 0x80 {
        low
    } else {
        low - 0x100
    };
    word_from_i64(signed_low * 0x100 + high)
}

/// The low `k` bits of `x` in the reverse order.
pub open spec fn reversed_bits(x: nat, k: nat) -> nat
    decreases k,
{
    if k == 0 {
        0
    } else {
        (x % 2) * pow2((k - 1) as nat) + reversed_bits(x / 2, (k - 1) as nat)
    }
}

proof fn lemma_reversed_bits_bound(x: nat, k: nat)
    ensures
        reversed_bits(x, k) < pow2(k),
    decreases k,
{
    if k > 0 {
        lemma_reversed_bits_bound(x / 2, (k - 1) as nat);
        vstd::arithmetic::power2::lemma_pow2_unfold(k);
        let p = pow2((k - 1) as nat);
        assert((x % 2) * p <= p) by (nonlinear_arith)
            requires
                x % 2 <= 1,
                p >= 0,
        ;
    } else {
        vstd::arithmetic::power2::lemma2_to64();
    }
}

/// The 32 bits of a word in the reverse order (`RBIT`).
pub open spec fn bit_reverse(x: Word) -> Word {
    reversed_bits(x as nat, 32) as Word
}

pub fn bit_reverse_word(x: Word) -> (r: Word)
    ensures
        r == bit_reverse(x),
{
    proof {
        vstd::arithmetic::power2::lemma2_to64();
        lemma_reversed_bits_bound(x as nat, 32);
    }
    let mut v: u32 = x;
    let mut place: u32 = 0x8000_0000;
    let mut r: u32 = 0;
    let mut k: u32 = 32;
    while k > 0
        invariant
            k <= 32,
            k > 0 ==> place == pow2((k - 1) as nat),
            r + reversed_bits(v as nat, k as nat) == reversed_bits(x as nat, 32),
            reversed_bits(x as nat, 32) < 0x1_0000_0000,
        decreases k,
    {
        proof {
            lemma_reversed_bits_bound(v as nat / 2, (k - 1) as nat);
            if k > 1 {
                vstd::arithmetic::power2::lemma_pow2_unfold((k - 1) as nat);
            }
        }
        r = r + (v % 2) * place;
        v = v / 2;
        place = place / 2;
        k = k - 1;
    }
    r
}

/// `CountLeadingZeroBits(x)`.
pub open spec fn count_leading_zeros(x: Word) -> Word {
    if x == 0 {
        32
    } else {
        (31 - crate::execute::highest_bit(x)) as Word
    }
}

pub fn count_leading_zeros_word(x: Word) -> (r: Word)
    ensures
        r == count_leading_zeros(x),
{
    if x == 0 {
        32
    } else {
        31 - crate::execute::highest_set_bit(x)
    }
}

// ---------------------------------------------------------------------------
// Bit fields
// ---------------------------------------------------------------------------

/// The mask of bits `lsbit..=msbit`.
pub open spec fn field_mask(msbit: u8, lsbit: u8) -> Word {
    (0xffff_ffffu32 >> ((31 - msbit) as u32)) & (0xffff_ffffu32 << (lsbit as u32))
}

/// `BFC`: bits `lsbit..=msbit` of `rd` cleared.
pub open spec fn bit_field_clear(rd: Word, msbit: u8, lsbit: u8) -> Word {
    rd & !field_mask(msbit, lsbit)
}

/// `BFI`: bits `lsbit..=msbit` of `rd` replaced by the low bits of `rn`.
pub open spec fn bit_field_insert(rd: Word, rn: Word, msbit: u8, lsbit: u8) -> Word {
    (rd & !field_mask(msbit, lsbit)) | ((rn & field_mask((msbit - lsbit) as u8, 0)) << (
    lsbit as u32))
}

/// `UBFX`: bits `lsbit..=lsbit + widthminus1` of `rn`, zero-extended.
pub open spec fn unsigned_bit_field(rn: Word, lsbit: u8, widthminus1: u8) -> Word {
    (rn & field_mask((lsbit + widthminus1) as u8, lsbit)) >> (lsbit as u32)
}

/// `SBFX`: bits `lsbit..=lsbit + widthminus1` of `rn`, sign-extended.
pub open spec fn signed_bit_field(rn: Word, lsbit: u8, widthminus1: u8) -> Word {
    unsigned_bit_field(rn, lsbit, widthminus1) | (if bit(rn, (lsbit + widthminus1) as u32) {
        !field_mask(widthminus1, 0)
    } else {
        0
    })
}

fn field_mask_word(msbit: u8, lsbit: u8) -> (r: Word)
    requires
        lsbit <= msbit < 32,
    ensures
        r == field_mask(msbit, lsbit),
{
    (0xffff_ffffu32 >> ((31 - msbit) as u32)) & (0xffff_ffffu32 << (lsbit as u32))
}

pub fn bit_field_clear_word(rd: Word, msbit: u8, lsbit: u8) -> (r: Word)
    requires
        lsbit <= msbit < 32,
    ensures
        r == bit_field_clear(rd, msbit, lsbit),
{
    rd & !field_mask_word(msbit, lsbit)
}

pub fn bit_field_insert_word(rd: Word, rn: Word, msbit: u8, lsbit: u8) -> (r: Word)
    requires
        lsbit <= msbit < 32,
    ensures
        r == bit_field_insert(rd, rn, msbit, lsbit),
{
    (rd & !field_mask_word(msbit, lsbit)) | ((rn & field_mask_word(msbit - lsbit, 0)) << (
    lsbit as u32))
}

pub fn unsigned_bit_field_word(rn: Word, lsbit: u8, widthminus1: u8) -> (r: Word)
    requires
        lsbit + widthminus1 < 32,
    ensures
        r == unsigned_bit_field(rn, lsbit, widthminus1),
{
    (rn & field_mask_word(lsbit + widthminus1, lsbit)) >> (lsbit as u32)
}

pub fn signed_bit_field_word(rn: Word, lsbit: u8, widthminus1: u8) -> (r: Word)
    requires
        lsbit + widthminus1 < 32,
    ensures
        r == signed_bit_field(rn, lsbit, widthminus1),
{
    let extension = if bit_of(rn, (lsbit + widthminus1) as u32) {
        !field_mask_word(widthminus1, 0)
    } else {
        0
    };
    unsigned_bit_field_word(rn, lsbit, widthminus1) | extension
}


// ---------------------------------------------------------------------------
// Multiplication and division
// ---------------------------------------------------------------------------

/// The high and the low word of a 64-bit result, the integer taken modulo 2^64.
pub open spec fn split64(v: int) -> (Word, Word) {
    let w = v % 0x1_0000_0000_0000_0000;
    ((w / 0x1_0000_0000) as Word, (w % 0x1_0000_0000) as Word)
}

/// `MUL`: the low word of the product.
pub fn multiply_word(a: Word, b: Word) -> (r: Word)
    ensures
        r == word_of(a * b),
{
    proof {
        assert(a * b <= 0xffff_ffff * 0xffff_ffff) by (nonlinear_arith)
            requires
                a <= 0xffff_ffff,
                b <= 0xffff_ffff,
        ;
    }
    ((a as u64 * b as u64) % 0x1_0000_0000) as Word
}

/// `MLA` (`subtract` false) and `MLS` (`subtract` true): the low word of the accumulator
/// plus or minus the product.
pub fn multiply_accumulate_word(a: Word, b: Word, acc: Word, subtract: bool) -> (r: Word)
    ensures
        r == word_of(
            if subtract {
                acc - a * b
            } else {
                acc + a * b
            },
        ),
{
    let product = multiply_word(a, b);
    proof {
        let p = a * b;
        vstd::arithmetic::div_mod::lemma_fundamental_div_mod(p, 0x1_0000_0000);
        let q = p / 0x1_0000_0000;
        if subtract {
            vstd::arithmetic::div_mod::lemma_mod_sub_multiples_vanish(
                acc - product,
                0x1_0000_0000,
            );
            assert(acc - p == (acc - product) - q * 0x1_0000_0000);
            vstd::arithmetic::div_mod::lemma_mod_multiples_vanish(
                -q,
                acc - product,
                0x1_0000_0000,
            );
        } else {
            vstd::arithmetic::div_mod::lemma_mod_multiples_vanish(
                q,
                acc + product,
                0x1_0000_0000,
            );
        }
    }
    if subtract {
        let v: i64 = acc as i64 - product as i64;
        word_from_i64(v)
    } else {
        let v: i64 = acc as i64 + product as i64;
        proof {
            vstd::arithmetic::div_mod::lemma_mod_add_multiples_vanish(
                v - 0x1_0000_0000,
                0x1_0000_0000,
            );
        }
        if v >= 0x1_0000_0000 {
            word_from_i64(v - 0x1_0000_0000)
        } else {
            word_from_i64(v)
        }
    }
}

/// The signed value of a word.
pub fn signed_value(x: Word) -> (r: i64)
    ensures
        r == signed(x),
{
    if x >= 0x8000_0000 {
        x as i64 - 0x1_0000_0000
    } else {
        x as i64
    }
}

/// The (64 x 64)-bit multiplications: the product of the operands, read as signed or as
/// unsigned words, plus the accumulator `acc_hi:acc_lo`, as a high and a low word.
pub fn multiply_long_words(rn: Word, rm: Word, is_signed: bool, acc_hi: Word, acc_lo: Word) -> (r: (
    Word,
    Word,
))
    ensures
        r == split64(
            (if is_signed {
                signed(rn) * signed(rm)
            } else {
                rn * rm
            }) + acc_hi * 0x1_0000_0000 + acc_lo,
        ),
{
    let a: i128 = if is_signed {
        signed_value(rn) as i128
    } else {
        rn as i128
    };
    let b: i128 = if is_signed {
        signed_value(rm) as i128
    } else {
        rm as i128
    };
    proof {
        assert(-0x1_0000_0000_0000_0000 <= a * b <= 0x1_0000_0000_0000_0000) by (nonlinear_arith)
            requires
                -0x8000_0000 <= a <= 0xffff_ffff,
                -0x8000_0000 <= b <= 0xffff_ffff,
        ;
    }
    let acc: i128 = acc_hi as i128 * 0x1_0000_0000 + acc_lo as i128;
    let v: i128 = a * b + acc;
    let m: u128 = 0x1_0000_0000_0000_0000;
    let shifted: u128 = (v + 0x4_0000_0000_0000_0000) as u128;
    let w: u128 = shifted % m;
    proof {
        vstd::arithmetic::div_mod::lemma_mod_add_multiples_vanish(v as int, m as int);
        vstd::arithmetic::div_mod::lemma_mod_add_multiples_vanish(v + m, m as int);
        vstd::arithmetic::div_mod::lemma_mod_add_multiples_vanish(v + 2 * m, m as int);
        vstd::arithmetic::div_mod::lemma_mod_add_multiples_vanish(v + 3 * m, m as int);
        assert(w as int == (v as int) % (m as int));
    }
    ((w / 0x1_0000_0000) as Word, (w % 0x1_0000_0000) as Word)
}

/// Division of integers rounded towards zero.
pub open spec fn divide_towards_zero(a: int, b: int) -> int {
    let magnitude: int = (vstd::math::abs(a) / vstd::math::abs(b)) as int;
    if (a >= 0) == (b >= 0) {
        magnitude
    } else {
        -magnitude
    }
}

/// `UDIV` when division by zero does not trap: zero for a zero divisor.
pub open spec fn unsigned_divide(rn: Word, rm: Word) -> Word {
    if rm == 0 {
        0
    } else {
        rn / rm
    }
}

/// `SDIV` when division by zero does not trap: zero for a zero divisor.
pub open spec fn signed_divide(rn: Word, rm: Word) -> Word {
    if rm == 0 {
        0
    } else {
        word_of(divide_towards_zero(signed(rn), signed(rm)))
    }
}

pub fn unsigned_divide_word(rn: Word, rm: Word) -> (r: Word)
    ensures
        r == unsigned_divide(rn, rm),
{
    if rm == 0 {
        0
    } else {
        rn / rm
    }
}

pub fn signed_divide_word(rn: Word, rm: Word) -> (r: Word)
    ensures
        r == signed_divide(rn, rm),
{
    if rm == 0 {
        return 0;
    }
    let a = signed_value(rn);
    let b = signed_value(rm);
    let abs_a: i64 = if a < 0 {
        -a
    } else {
        a
    };
    let abs_b: i64 = if b < 0 {
        -b
    } else {
        b
    };
    let magnitude: i64 = abs_a / abs_b;
    proof {
        assert(magnitude <= abs_a) by {
            vstd::arithmetic::div_mod::lemma_div_is_ordered_by_denominator(abs_a as int, 1, abs_b as int);
        }
    }
    word_from_i64(
        if (a >= 0) == (b >= 0) {
            magnitude
        } else {
            -magnitude
        },
    )
}


// ---------------------------------------------------------------------------
// Laws
// ---------------------------------------------------------------------------

/// Subtraction done as `x + NOT(y) + 1` (`SUB`, `CMP` and their kin): the result is the
/// difference modulo 2^32, the carry is set exactly when no borrow occurs (`x >= y`), the
/// result is zero exactly when the operands are equal, and the overflow is set exactly
/// when the signed difference does not fit in 32 bits.
pub proof fn lemma_subtraction_flags(x: Word, y: Word)
    ensures
        add_with_carry(x, !y, true).0 == word_of(x - y),
        add_with_carry(x, !y, true).1 == (x >= y),
        (add_with_carry(x, !y, true).0 == 0) == (x == y),
        add_with_carry(x, !y, true).2 == !(-0x8000_0000 <= signed(x) - signed(y) < 0x8000_0000),
{
    assert(!y == 0xffff_ffff - y) by (bit_vector);
    let sum = x + (0xffff_ffff - y) + 1;
    let m: int = 0x1_0000_0000;
    vstd::arithmetic::div_mod::lemma_mod_add_multiples_vanish(x - y, m);
    if x >= y {
        vstd::arithmetic::div_mod::lemma_small_mod((x - y) as nat, m as nat);
        vstd::arithmetic::div_mod::lemma_mod_add_multiples_vanish(x - y, m);
    } else {
        vstd::arithmetic::div_mod::lemma_small_mod((x - y + m) as nat, m as nat);
    }
    let d = signed(x) - signed(y);
    let r = word_of(x - y);
    assert(signed(r) == d <==> -0x8000_0000 <= d < 0x8000_0000);
}

/// Addition without carry in (`ADD`, `CMN`): the result is the sum modulo 2^32, the carry
/// is set exactly when the unsigned sum reaches 2^32, and the overflow exactly when the
/// signed sum does not fit in 32 bits.
pub proof fn lemma_addition_flags(x: Word, y: Word)
    ensures
        add_with_carry(x, y, false).0 == word_of(x + y),
        add_with_carry(x, y, false).1 == (x + y >= 0x1_0000_0000),
        add_with_carry(x, y, false).2 == !(-0x8000_0000 <= signed(x) + signed(y) < 0x8000_0000),
{
    let m: int = 0x1_0000_0000;
    if x + y >= m {
        vstd::arithmetic::div_mod::lemma_mod_add_multiples_vanish(x + y - m, m);
        vstd::arithmetic::div_mod::lemma_small_mod((x + y - m) as nat, m as nat);
    } else {
        vstd::arithmetic::div_mod::lemma_small_mod((x + y) as nat, m as nat);
    }
    let d = signed(x) + signed(y);
    let r = word_of(x + y);
    assert(signed(r) == d <==> -0x8000_0000 <= d < 0x8000_0000);
}

/// `AddWithCarry(x, y, c)`: the result is `x + y + c` modulo 2^32, the carry is set exactly
/// when that unsigned sum reaches 2^32, and the overflow exactly when the signed sum does not
/// fit in 32 bits.
pub proof fn lemma_add_with_carry_in(x: Word, y: Word, carry_in: bool)
    ensures
        ({
            let c: int = if carry_in { 1 } else { 0 };
            &&& add_with_carry(x, y, carry_in).0 as int == (x + y + c) % 0x1_0000_0000
            &&& add_with_carry(x, y, carry_in).1 == (x + y + c >= 0x1_0000_0000)
            &&& add_with_carry(x, y, carry_in).2 == !(-0x8000_0000 <= signed(x) + signed(y) + c
                < 0x8000_0000)
        }),
{
    let m: int = 0x1_0000_0000;
    let c: int = if carry_in { 1 } else { 0 };
    let u = x + y + c;
    if u >= m {
        vstd::arithmetic::div_mod::lemma_mod_add_multiples_vanish(u - m, m);
        vstd::arithmetic::div_mod::lemma_small_mod((u - m) as nat, m as nat);
    } else {
        vstd::arithmetic::div_mod::lemma_small_mod(u as nat, m as nat);
    }
    let d = signed(x) + signed(y) + c;
    let r = word_of(u);
    assert(signed(r) == d <==> -0x8000_0000 <= d < 0x8000_0000);
}

/// `AddWithCarry(x, NOT(y), c)`, a subtraction with borrow `1 - c`: the result is
/// `x - y - (1 - c)` modulo 2^32, the carry is set exactly when no borrow occurs (that
/// difference is not negative), and the overflow exactly when the signed difference does
/// not fit in 32 bits.
pub proof fn lemma_subtract_with_borrow(x: Word, y: Word, carry_in: bool)
    ensures
        ({
            let b: int = if carry_in { 0 } else { 1 };
            &&& add_with_carry(x, !y, carry_in).0 as int == (x - y - b) % 0x1_0000_0000
            &&& add_with_carry(x, !y, carry_in).1 == (x - y - b >= 0)
            &&& add_with_carry(x, !y, carry_in).2 == !(-0x8000_0000 <= signed(x) - signed(y) - b
                < 0x8000_0000)
        }),
{
    assert(!y == 0xffff_ffff - y) by (bit_vector);
    lemma_add_with_carry_in(x, !y, carry_in);
    let m: int = 0x1_0000_0000;
    let b: int = if carry_in { 0 } else { 1 };
    vstd::arithmetic::div_mod::lemma_mod_add_multiples_vanish(x - y - b, m);
    assert(signed(!y) == -signed(y) - 1);
}

/// A logical right shift by `n < 32` bits divides by 2^n, and a logical left shift
/// multiplies by 2^n modulo 2^32.
pub proof fn lemma_logical_shifts_scale(x: Word, n: u8, carry_in: bool)
    requires
        0 < n < 32,
    ensures
        shift_c(x, SRType::LSR, n, carry_in).0 == x / (pow2(n as nat) as Word),
        shift_c(x, SRType::LSL, n, carry_in).0 == word_of(x * pow2(n as nat)),
{
    vstd::bits::lemma_u32_shr_is_div(x, n as u32);
    vstd::arithmetic::power2::lemma2_to64();
    vstd::arithmetic::power2::lemma_pow2_strictly_increases(n as nat, 32);
    vstd::bits::lemma_u64_shl_is_mul(1, n as u64);
    let p: u64 = 1u64 << (n as u64);
    let s: u32 = x << (n as u32);
    assert(s == ((x as u64 * p) % 0x1_0000_0000) as u32) by (bit_vector)
        requires
            p == 1u64 << (n as u64),
            s == x << (n as u32),
            n < 32,
    ;
}

/// The low word of a product does not depend on whether the operands are read as signed
/// or as unsigned words.
pub proof fn lemma_product_low_word_sign_agnostic(a: Word, b: Word)
    ensures
        word_of(signed(a) * signed(b)) == word_of(a * b),
{
    let m: int = 0x1_0000_0000;
    let ka: int = if a < 0x8000_0000 {
        0
    } else {
        1
    };
    let kb: int = if b < 0x8000_0000 {
        0
    } else {
        1
    };
    let k = ka * kb * m - ka * b - kb * a;
    assert(signed(a) * signed(b) == k * m + a * b) by (nonlinear_arith)
        requires
            signed(a) == a - ka * m,
            signed(b) == b - kb * m,
            k == ka * kb * m - ka * b - kb * a,
    ;
    vstd::arithmetic::div_mod::lemma_mod_multiples_vanish(k, a * b, m);
}

/// A signed division of a non-negative dividend by a positive divisor is the unsigned
/// division of the words.
pub proof fn lemma_signed_divide_nonnegative(rn: Word, rm: Word)
    requires
        rn < 0x8000_0000,
        0 < rm < 0x8000_0000,
    ensures
        signed_divide(rn, rm) == unsigned_divide(rn, rm),
{
    vstd::arithmetic::div_mod::lemma_div_is_ordered_by_denominator(rn as int, 1, rm as int);
    vstd::arithmetic::div_mod::lemma_small_mod((rn / rm) as nat, 0x1_0000_0000);
}

} // verus!
