//! Results of execution steps and the timing of multi-cycle arithmetic instructions.
use vstd::prelude::*;

use crate::common::Word;

verus! {

/// What an execution step of an instruction leads to.
#[derive(Clone, Copy, Debug, PartialEq, Eq, Structural)]
pub enum ExecutionStepResult {
    Continue { trigger_decode: bool, lsu_branch_expected: bool },
    NextInstruction,
    Skipped,
    ExecuteTimeBranch { address: Word },
    /// `was_speculative`: not confirmed to be mispredicted or valid in the last cycle.
    DecodeTimeBranch { address: Word, was_speculative: bool },
    BranchNotTaken,
    LateBranch,
    ExceptionReturn,
    PreSleep,
    Sleep,
}

impl ExecutionStepResult {
    /// Whether the step finishes the instruction so that the next one runs in sequence.
    pub open spec fn continues_in_sequence(self) -> bool {
        self is NextInstruction || self is Skipped || self is BranchNotTaken || self is Sleep
    }

    /// Whether the step redirects the instruction stream.
    pub open spec fn redirects(self) -> bool {
        self is ExecuteTimeBranch || self is DecodeTimeBranch || self is LateBranch
            || self is ExceptionReturn
    }

    pub fn runs_next_instruction(&self) -> (r: bool)
        ensures
            r == self.continues_in_sequence(),
    {
        match self {
            ExecutionStepResult::Continue { .. }
            | ExecutionStepResult::ExecuteTimeBranch { .. }
            | ExecutionStepResult::DecodeTimeBranch { .. }
            | ExecutionStepResult::LateBranch
            | ExecutionStepResult::PreSleep
            | ExecutionStepResult::ExceptionReturn => false,
            ExecutionStepResult::NextInstruction
            | ExecutionStepResult::Skipped
            | ExecutionStepResult::BranchNotTaken
            | ExecutionStepResult::Sleep => true,
        }
    }

    pub fn does_branch(&self) -> (r: bool)
        ensures
            r == self.redirects(),
    {
        match self {
            ExecutionStepResult::Continue { .. }
            | ExecutionStepResult::NextInstruction
            | ExecutionStepResult::Skipped
            | ExecutionStepResult::BranchNotTaken
            | ExecutionStepResult::PreSleep
            | ExecutionStepResult::Sleep => false,
            ExecutionStepResult::ExecuteTimeBranch { .. }
            | ExecutionStepResult::DecodeTimeBranch { .. }
            | ExecutionStepResult::LateBranch
            | ExecutionStepResult::ExceptionReturn => true,
        }
    }
}

// ---------------------------------------------------------------------------
// Writes of the PC
// ---------------------------------------------------------------------------

/// The address with bit 0 cleared (Thumb state is kept in the EPSR, not in the PC).
pub open spec fn clear_bit0(address: Word) -> Word {
    (address - address % 2) as Word
}

fn without_bit0(address: Word) -> (r: Word)
    ensures
        r == clear_bit0(address),
{
    address - address % 2
}

/// `BranchTo`: an execute-time branch to the address.
pub fn branch_to(address: Word) -> (r: ExecutionStepResult)
    ensures
        r == (ExecutionStepResult::ExecuteTimeBranch { address }),
{
    ExecutionStepResult::ExecuteTimeBranch { address }
}

/// `BranchWritePC`: a branch to the address with bit 0 cleared.
pub fn branch_write_pc(address: Word) -> (r: ExecutionStepResult)
    ensures
        r == (ExecutionStepResult::ExecuteTimeBranch { address: clear_bit0(address) }),
{
    branch_to(without_bit0(address))
}

/// `BXWritePC`: an interworking branch. A return from an exception (as detected for the
/// address in the current mode) becomes an exception return; otherwise the address must
/// stay in Thumb state (bit 0 set) and the branch goes to it with bit 0 cleared.
pub fn bx_write_pc(address: Word, returns_from_exception: bool) -> (r: ExecutionStepResult)
    requires
        !returns_from_exception ==> address % 2 == 1,
    ensures
        returns_from_exception ==> r == ExecutionStepResult::ExceptionReturn,
        !returns_from_exception ==> r == (ExecutionStepResult::ExecuteTimeBranch {
            address: clear_bit0(address),
        }),
{
    if returns_from_exception {
        ExecutionStepResult::ExceptionReturn
    } else {
        branch_to(without_bit0(address))
    }
}

/// `BLXWritePC`: an interworking branch with link; the address must stay in Thumb state.
pub fn blx_write_pc(address: Word) -> (r: ExecutionStepResult)
    requires
        address % 2 == 1,
    ensures
        r == (ExecutionStepResult::ExecuteTimeBranch { address: clear_bit0(address) }),
{
    branch_to(without_bit0(address))
}

/// `ALUWritePC`: known late in the cycle, so the branch is delayed; the result is a late
/// branch, together with the target for fetch.
pub fn alu_write_pc(address: Word) -> (r: (ExecutionStepResult, Word))
    ensures
        r == (ExecutionStepResult::LateBranch, clear_bit0(address)),
{
    (ExecutionStepResult::LateBranch, without_bit0(address))
}

/// `LoadWritePC`: the target of a load of the PC, for a delayed branch, unless it is an
/// exception return (`None`). The address must stay in Thumb state.
pub fn load_write_pc(address: Word, returns_from_exception: bool) -> (r: Option<Word>)
    requires
        !returns_from_exception ==> address % 2 == 1,
    ensures
        returns_from_exception ==> r.is_none(),
        !returns_from_exception ==> r == Some(clear_bit0(address)),
{
    if returns_from_exception {
        None
    } else {
        Some(without_bit0(address))
    }
}

// ---------------------------------------------------------------------------
// Bit masks
// ---------------------------------------------------------------------------

/// The mask with bits `lsbit..=msbit` set and the others clear; useful to extract bits
/// at dynamic offsets.
pub fn mask_between_bits(msbit: u8, lsbit: u8) -> (r: u32)
    requires
        msbit < 32,
        msbit >= lsbit,
    ensures
        forall|i: u32| #![trigger (r >> i)] i < 32 ==> (((r >> i) & 1 == 1) <==> (lsbit <= i && i <= msbit)),
{
    assert((1u64 << (msbit + 1)) >= 1) by (bit_vector)
        requires
            msbit < 32,
    ;
    assert((1u64 << lsbit) >= 1) by (bit_vector)
        requires
            lsbit < 32,
    ;
    let ms_mask: u64 = (1u64 << (msbit + 1)) - 1;
    let ls_mask: u64 = (1u64 << lsbit) - 1;
    let m: u64 = ms_mask ^ ls_mask;
    assert(m < 0x1_0000_0000) by (bit_vector)
        requires
            ms_mask == (1u64 << (msbit + 1)) - 1,
            ls_mask == (1u64 << lsbit) - 1,
            m == ms_mask ^ ls_mask,
            msbit < 32,
            lsbit <= msbit,
    ;
    let r = m as u32;
    assert(forall|i: u32| #![trigger (r >> i)] i < 32 ==> (((r >> i) & 1 == 1) <==> (lsbit <= i && i <= msbit))) by (bit_vector)
        requires
            ms_mask == (1u64 << (msbit + 1)) - 1,
            ls_mask == (1u64 << lsbit) - 1,
            m == ms_mask ^ ls_mask,
            m < 0x1_0000_0000,
            r == m as u32,
            msbit < 32,
            lsbit <= msbit,
    ;
    r
}

// ---------------------------------------------------------------------------
// Timing of multi-cycle multiplications
// ---------------------------------------------------------------------------
//
// The (32 x 32 -> 64)-bit multiplications are believed to combine 16 x 16-bit partial
// products; a partial product of a zero half is skipped, so the execution is shorter.
// Each function returns the cycles (counted from 0) in which the high and the low word of
// the result are written.

/// Whether the high half of a word is nonzero.
pub open spec fn high_nonzero(x: u32) -> bool {
    x / 0x10000 != 0
}

/// Whether the low half of a word is nonzero.
pub open spec fn low_nonzero(x: u32) -> bool {
    x % 0x10000 != 0
}

/// Nonzero halves of a word: (high, low).
fn halves_nonzero(x: u32) -> (r: (bool, bool))
    ensures
        r == (high_nonzero(x), low_nonzero(x)),
{
    let hi = x & 0xFFFF_0000 != 0;
    let lo = x & 0x0000_FFFF != 0;
    assert((x & 0xFFFF_0000 != 0) == (x / 0x10000 != 0)) by (bit_vector);
    assert((x & 0x0000_FFFF != 0) == (x % 0x10000 != 0)) by (bit_vector);
    (hi, lo)
}

/// Number of nonzero cross partial products (low x high and high x low).
pub open spec fn cross_products(rn: u32, rm: u32) -> nat {
    (if low_nonzero(rn) && high_nonzero(rm) { 1nat } else { 0nat }) + (if high_nonzero(rn)
        && low_nonzero(rm) {
        1nat
    } else {
        0nat
    })
}

/// Number of nonzero partial products that involve a high half.
pub open spec fn high_products(rn: u32, rm: u32) -> nat {
    cross_products(rn, rm) + (if high_nonzero(rn) && high_nonzero(rm) { 1nat } else { 0nat })
}

/// UMULL: each nonzero cross partial product costs one more cycle.
pub open spec fn umull_cycles(rn: u32, rm: u32) -> (u32, u32) {
    ((2 + cross_products(rn, rm)) as u32, (1 + cross_products(rn, rm)) as u32)
}

pub fn umull_execution_result_writing_cycles(rn_uint: u32, rm_uint: u32) -> (r: (u32, u32))
    ensures
        r == umull_cycles(rn_uint, rm_uint),
{
    let (rn_hi, rn_lo) = halves_nonzero(rn_uint);
    let (rm_hi, rm_lo) = halves_nonzero(rm_uint);
    match (rn_hi, rn_lo, rm_hi, rm_lo) {
        (_, _, false, false) | (false, false, _, _) | (false, true, false, true) | (
            true,
            false,
            true,
            false,
        ) => (2, 1),
        (true, false, false, true)
        | (false, true, true, false)
        | (true, true, true, false)
        | (true, true, false, true)
        | (true, false, true, true)
        | (false, true, true, true) => (3, 2),
        (true, true, true, true) => (4, 3),
    }
}

/// UMLAL: without a partial product of a high half it takes 2 cycles as UMULL does, and
/// otherwise 3 plus one cycle per such partial product.
pub open spec fn umlal_cycles(rn: u32, rm: u32) -> (u32, u32) {
    if high_products(rn, rm) == 0 {
        (2u32, 1u32)
    } else {
        ((3 + high_products(rn, rm)) as u32, (2 + high_products(rn, rm)) as u32)
    }
}

pub fn umlal_execution_result_writing_cycles(rn_uint: u32, rm_uint: u32) -> (r: (u32, u32))
    ensures
        r == umlal_cycles(rn_uint, rm_uint),
{
    let (rn_hi, rn_lo) = halves_nonzero(rn_uint);
    let (rm_hi, rm_lo) = halves_nonzero(rm_uint);
    match (rn_hi, rn_lo, rm_hi, rm_lo) {
        (_, _, false, false) | (false, false, _, _) | (false, true, false, true) => (2, 1),
        (true, false, true, false)
        | (true, false, false, true)
        | (true, true, false, true)
        | (false, true, true, false)
        | (false, true, true, true) => (4, 3),
        (true, true, true, false) | (true, false, true, true) => (5, 4),
        (true, true, true, true) => (6, 5),
    }
}

/// Whether a word, read as a signed 32-bit integer, is negative.
pub open spec fn negative(x: u32) -> bool {
    x >= 0x8000_0000
}

/// SMULL timing, as measured: the unsigned pattern of nonzero halves, with an extra cycle
/// for some patterns when an operand is negative.
pub open spec fn smull_cycles(rn: u32, rm: u32) -> (u32, u32) {
    let (rn_hi, rn_lo, rm_hi, rm_lo) = (high_nonzero(rn), low_nonzero(rn), high_nonzero(rm), low_nonzero(rm));
    let neg = negative(rn) || negative(rm);
    if (!rm_hi && !rm_lo) || (!rn_hi && !rn_lo) {
        (2, 1)
    } else if (!rn_hi && rn_lo && !rm_hi && rm_lo) || (rn_hi && !rn_lo && rm_hi && !rm_lo) {
        if neg { (3, 2) } else { (2, 1) }
    } else if rn_hi && rn_lo && rm_hi && !rm_lo {
        if neg { (4, 3) } else { (3, 2) }
    } else if rn_hi && !rn_lo && rm_hi && rm_lo {
        (3, 2)
    } else if rn_hi && rn_lo && rm_hi && rm_lo {
        (4, 3)
    } else if negative(rm) {
        (4, 3)
    } else {
        (3, 2)
    }
}

/// SMULL on the words of the operand registers.
pub fn smull_execution_result_writing_cycles(rn_sint: u32, rm_sint: u32) -> (r: (u32, u32))
    ensures
        r == smull_cycles(rn_sint, rm_sint),
{
    let (rn_hi, rn_lo) = halves_nonzero(rn_sint);
    let rn_neg = rn_sint >= 0x8000_0000;
    let (rm_hi, rm_lo) = halves_nonzero(rm_sint);
    let rm_neg = rm_sint >= 0x8000_0000;
    match (rn_hi, rn_lo, rm_hi, rm_lo) {
        (_, _, false, false) | (false, false, _, _) => (2, 1),
        (false, true, false, true) | (true, false, true, false) => {
            if rn_neg || rm_neg {
                (3, 2)
            } else {
                (2, 1)
            }
        },
        (true, true, true, false) => {
            if rn_neg || rm_neg {
                (4, 3)
            } else {
                (3, 2)
            }
        },
        (true, false, true, true) => (3, 2),
        (true, true, true, true) => (4, 3),
        _ => {
            if rm_neg {
                (4, 3)
            } else {
                (3, 2)
            }
        },
    }
}

/// SMLAL timing, as measured.
pub open spec fn smlal_cycles(rn: u32, rm: u32) -> (u32, u32) {
    let (rn_hi, rn_lo, rm_hi, rm_lo) = (high_nonzero(rn), low_nonzero(rn), high_nonzero(rm), low_nonzero(rm));
    let neg = negative(rn) || negative(rm);
    if (!rm_hi && !rm_lo) || (!rn_hi && !rn_lo) || (!rn_hi && rn_lo && !rm_hi && rm_lo) {
        (2, 1)
    } else if rn_hi && !rn_lo && rm_hi && !rm_lo {
        if neg { (5, 4) } else { (4, 3) }
    } else if rn_hi && rn_lo && rm_hi && !rm_lo {
        if neg { (6, 5) } else { (5, 4) }
    } else if rn_hi && !rn_lo && rm_hi && rm_lo {
        (5, 4)
    } else if rn_hi && rn_lo && rm_hi && rm_lo {
        (6, 5)
    } else if negative(rm) {
        (5, 4)
    } else {
        (4, 3)
    }
}

/// SMLAL on the words of the operand registers.
pub fn smlal_execution_result_writing_cycles(rn_sint: u32, rm_sint: u32) -> (r: (u32, u32))
    ensures
        r == smlal_cycles(rn_sint, rm_sint),
{
    let (rn_hi, rn_lo) = halves_nonzero(rn_sint);
    let rn_neg = rn_sint >= 0x8000_0000;
    let (rm_hi, rm_lo) = halves_nonzero(rm_sint);
    let rm_neg = rm_sint >= 0x8000_0000;
    match (rn_hi, rn_lo, rm_hi, rm_lo) {
        (_, _, false, false) | (false, false, _, _) | (false, true, false, true) => (2, 1),
        (true, false, true, false) => {
            if rn_neg || rm_neg {
                (5, 4)
            } else {
                (4, 3)
            }
        },
        (true, true, true, false) => {
            if rn_neg || rm_neg {
                (6, 5)
            } else {
                (5, 4)
            }
        },
        (true, false, true, true) => (5, 4),
        (true, true, true, true) => (6, 5),
        _ => {
            if rm_neg {
                (5, 4)
            } else {
                (4, 3)
            }
        },
    }
}

// ---------------------------------------------------------------------------
// Timing of divisions
// ---------------------------------------------------------------------------
//
// The divider is assumed to do 4 steps per cycle; the timing depends on the positions of
// the highest set bits of the dividend (X) and the divisor (Y):
// - a zero operand: 2 cycles,
// - X < Y: 3 cycles,
// - otherwise 5 + (X - Y) / 4 cycles.
// The functions return the cycle (counted from 0) in which the result is written.

/// Position of the highest set bit of a nonzero word (0 for 0 and 1).
pub open spec fn highest_bit(x: u32) -> int
    decreases x,
{
    if x <= 1 {
        0
    } else {
        1 + highest_bit(x / 2)
    }
}

/// Position of the highest set bit of a word.
pub fn highest_set_bit(x: u32) -> (r: u32)
    ensures
        r == highest_bit(x),
        r < 32,
{
    proof {
        lemma_highest_bit_bound(x);
    }
    let mut v = x;
    let mut n: u32 = 0;
    while v > 1
        invariant
            highest_bit(x) == n + highest_bit(v),
            highest_bit(x) < 32,
            0 <= highest_bit(v),
        decreases v,
    {
        proof {
            lemma_highest_bit_bound(v / 2);
        }
        v = v / 2;
        n = n + 1;
    }
    n
}

/// The highest set bit of a word is one of its 32 bits.
pub proof fn lemma_highest_bit_bound(x: u32)
    ensures
        0 <= highest_bit(x) < 32,
{
    vstd::arithmetic::power2::lemma2_to64();
    lemma_highest_bit_below(x, 32);
}

proof fn lemma_highest_bit_below(x: u32, k: nat)
    requires
        (x as int) < vstd::arithmetic::power2::pow2(k) as int,
    ensures
        0 <= highest_bit(x),
        x > 0 ==> highest_bit(x) < k,
    decreases x,
{
    vstd::arithmetic::power2::lemma2_to64();
    if x > 1 {
        if k == 0 {
            assert(false);
        }
        vstd::arithmetic::power2::lemma_pow2_unfold(k);
        lemma_highest_bit_below(x / 2, (k - 1) as nat);
    } else if x == 1 && k == 0 {
        assert(false);
    }
}

/// Cycles of a division from the highest set bits of its (absolute) operands.
pub open spec fn division_cycles(diff: int) -> int {
    if diff < 0 {
        3
    } else {
        diff / 4 + 5
    }
}

/// UDIV: the cycle in which the result is written.
pub open spec fn udiv_cycle(rn: u32, rm: u32) -> int {
    (if rn == 0 || rm == 0 {
        2
    } else {
        division_cycles(highest_bit(rn) - highest_bit(rm))
    }) - 1
}

pub fn udiv_execution_result_writing_cycle(rn_val: Word, rm_val: Word) -> (r: u32)
    ensures
        r == udiv_cycle(rn_val, rm_val),
{
    proof {
        lemma_highest_bit_bound(rn_val);
        lemma_highest_bit_bound(rm_val);
    }
    let timing = if rn_val == 0 || rm_val == 0 {
        2
    } else {
        let x = highest_set_bit(rn_val);
        let y = highest_set_bit(rm_val);
        if x < y {
            3
        } else {
            (x - y) / 4 + 5
        }
    };
    timing - 1
}

/// The absolute value of a signed word, wrapping (the absolute value of -2^31 is 2^31).
pub open spec fn abs_word(x: u32) -> u32 {
    if negative(x) {
        (0x1_0000_0000 - x) as u32
    } else {
        x
    }
}

/// Whether a word is a power of two.
pub open spec fn power_of_two(x: u32) -> bool {
    x != 0 && x & ((x - 1) as u32) == 0
}

/// SDIV: the UDIV timing on absolute values, except that a negative divisor that is a
/// power of two adds a quarter cycle (one step) unless the dividend is -2^31, and -2^31
/// divided by a negative divisor that is not a power of two takes a quarter cycle less.
pub open spec fn sdiv_cycle(rn: u32, rm: u32) -> int {
    (if rn == 0 || rm == 0 {
        2
    } else {
        let n = abs_word(rn);
        let m = abs_word(rm);
        let increase = negative(rm) && power_of_two(m) && n != 0x8000_0000;
        let decrease = negative(rm) && !power_of_two(m) && n == 0x8000_0000;
        let diff = highest_bit(n) - highest_bit(m) + (if increase {
            1int
        } else if decrease {
            -1int
        } else {
            0int
        });
        division_cycles(diff)
    }) - 1
}

fn abs_value(x: u32) -> (r: u32)
    ensures
        r == abs_word(x),
{
    if x >= 0x8000_0000 {
        (0xFFFF_FFFF - x) + 1
    } else {
        x
    }
}

fn is_power_of_two(x: u32) -> (r: bool)
    ensures
        r == power_of_two(x),
{
    x != 0 && x & (x - 1) == 0
}

pub fn sdiv_execution_result_writing_cycle(rn_val: Word, rm_val: Word) -> (r: u32)
    ensures
        r == sdiv_cycle(rn_val, rm_val),
{
    let timing = if rn_val == 0 || rm_val == 0 {
        2
    } else {
        let n = abs_value(rn_val);
        let rm_was_negative = rm_val >= 0x8000_0000;
        let m = abs_value(rm_val);
        proof {
            lemma_highest_bit_bound(n);
            lemma_highest_bit_bound(m);
        }
        let x = highest_set_bit(n) as i64;
        let y = highest_set_bit(m) as i64;
        let mut diff: i64 = x - y;
        let increase_diff = rm_was_negative && is_power_of_two(m) && n != 0x8000_0000;
        let decrease_diff = rm_was_negative && !is_power_of_two(m) && n == 0x8000_0000;
        if increase_diff {
            diff = diff + 1;
        } else if decrease_diff {
            diff = diff - 1;
        }
        if diff < 0 {
            3
        } else {
            (diff / 4 + 5) as u32
        }
    };
    timing - 1
}

/// Every multiply-long timing writes the high word in the cycle right after the low
/// word.
pub proof fn lemma_multiply_high_after_low(rn: u32, rm: u32)
    ensures
        smull_cycles(rn, rm).0 == smull_cycles(rn, rm).1 + 1,
        smlal_cycles(rn, rm).0 == smlal_cycles(rn, rm).1 + 1,
        cross_products(rn, rm) <= 2,
        high_products(rn, rm) <= 3,
{
}

/// SDIV on operands that are not negative takes as long as UDIV.
pub proof fn lemma_sdiv_nonnegative_is_udiv(rn: u32, rm: u32)
    requires
        !negative(rn),
        !negative(rm),
    ensures
        sdiv_cycle(rn, rm) == udiv_cycle(rn, rm),
{
}

/// A division writes its result no earlier than cycle 1.
pub proof fn lemma_division_at_least_one_cycle(rn: u32, rm: u32)
    ensures
        udiv_cycle(rn, rm) >= 1,
        sdiv_cycle(rn, rm) >= 1,
{
}

} // verus!
