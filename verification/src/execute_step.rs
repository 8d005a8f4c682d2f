//! One cycle of the execution of an instruction that does not go through the load-store
//! unit: data processing, multiplication and division, branches and hints.
//!
//! The step reads what the instruction sees in the cycle ([`ExecuteInputs`]) and returns
//! what the cycle does ([`StepEffects`]): the registers written, the xPSR being built, how
//! the pipeline goes on and the branch taken. Instructions that access memory or the
//! special registers are executed elsewhere: for them the step returns `None`.
use vstd::prelude::*;

use crate::agu::align4;
use crate::alu::{
    add_with_carry, add_with_carry_word, bit_field_clear, bit_field_clear_word, bit_field_insert,
    bit_field_insert_word, bit_reverse, bit_reverse_word, byte_reverse, byte_reverse_halfwords,
    byte_reverse_halfwords_word, byte_reverse_signed_halfword, byte_reverse_signed_halfword_word,
    byte_reverse_word, count_leading_zeros, count_leading_zeros_word, shift_c, shift_c_word,
    shift_word, shifted, sign_extend_byte, sign_extend_byte_word, sign_extend_halfword,
    sign_extend_halfword_word, signed, signed_bit_field, signed_bit_field_word, signed_sat_q,
    signed_saturate, unsigned_bit_field, unsigned_bit_field_word, unsigned_sat_q,
    unsigned_saturate, word_of, multiply_word, multiply_accumulate_word, multiply_long_words,
    split64, unsigned_divide, unsigned_divide_word, signed_divide, signed_divide_word,
    lemma_addition_flags, lemma_subtraction_flags, lemma_add_with_carry_in,
    lemma_subtract_with_borrow, lemma_logical_shifts_scale,
};
use crate::common::{Word, wrap_add, word_add, word_sub};
use crate::decode::Brchstat;
use crate::execute::{
    ExecutionStepResult, clear_bit0, sdiv_cycle, sdiv_execution_result_writing_cycle,
    smlal_cycles, smlal_execution_result_writing_cycles, smull_cycles,
    smull_execution_result_writing_cycles, udiv_cycle, udiv_execution_result_writing_cycle,
    umlal_cycles, umlal_execution_result_writing_cycles, umull_cycles,
    umull_execution_result_writing_cycles,
};
use crate::instruction::Instruction;
use crate::registers::{Condition, RegisterID, SRType, Shift, XPSR};

verus! {

/// The results of a long multiplication, computed in its first cycle and written later.
#[derive(Clone, Copy, Debug, PartialEq, Eq, Structural)]
pub struct MultiplyLongState {
    pub result_hi: Word,
    pub result_lo: Word,
    /// The cycle (counted from 0) in which the high word is written; the instruction ends
    /// with it.
    pub write_hi_cycle: u32,
    /// The cycle in which the low word is written.
    pub write_lo_cycle: u32,
}

/// What an instruction sees in a cycle of its execution.
#[derive(Clone, Copy, Debug)]
pub struct ExecuteInputs {
    /// The core registers as the instruction reads them: R15 reads as the address of the
    /// instruction plus 4.
    pub registers: [Word; 16],
    /// The xPSR visible to the instruction: its flags and its IT state.
    pub xpsr: XPSR,
    /// The xPSR that the instruction builds; the changes of the cycle apply to it.
    pub next_xpsr: XPSR,
    /// The cycles of the instruction already executed (0 in its first cycle).
    pub cycle: u32,
    /// How Decode classified the branch of the instruction.
    pub branch_kind: Brchstat,
    /// Whether an interworking branch to the target of the instruction returns from an
    /// exception in the current mode.
    pub returns_from_exception: bool,
    /// Whether the core can be disabled now, so that a waiting instruction can sleep.
    pub can_sleep: bool,
    /// The results of a long multiplication kept from its first cycle.
    pub multiply_long: Option<MultiplyLongState>,
}

/// A register written by an instruction (`R[d] = value`).
#[derive(Clone, Copy, Debug, PartialEq, Eq, Structural)]
pub struct RegisterWrite {
    pub register: RegisterID,
    pub value: Word,
}

/// What a cycle of execution does.
#[derive(Clone, Copy, Debug, PartialEq, Eq, Structural)]
pub struct StepEffects {
    /// How the pipeline goes on.
    pub result: ExecutionStepResult,
    /// A register written (`R[d] = value`), which becomes clean.
    pub first_write: Option<RegisterWrite>,
    /// A second register written in the same cycle.
    pub second_write: Option<RegisterWrite>,
    /// The xPSR built by the instruction after the cycle.
    pub next_xpsr: XPSR,
    /// The target of a branch decided late in the cycle (`ALUWritePC`).
    pub late_branch: Option<Word>,
    /// Fetch is disabled.
    pub disables_fetch: bool,
    /// The PC becomes clean.
    pub pc_clean: bool,
    /// All registers become clean (the instruction was skipped).
    pub all_clean: bool,
    /// An exception return starts, from the given address.
    pub exception_return: Option<Word>,
    /// The results of a long multiplication to keep for its next cycles.
    pub multiply_long: Option<MultiplyLongState>,
}

/// The value of a register as the instruction reads it.
pub open spec fn reg(inp: ExecuteInputs, r: RegisterID) -> Word {
    inp.registers@[r.index_of() as int]
}

fn read(inp: &ExecuteInputs, r: RegisterID) -> (v: Word)
    ensures
        v == reg(*inp, r),
{
    inp.registers[r.index() as usize]
}

/// The flags N and Z set from a result.
pub open spec fn with_nz(x: XPSR, result: Word) -> XPSR {
    XPSR {
        negative: result >= 0x8000_0000,
        zero: result == 0,
        carry: x.carry,
        overflow: x.overflow,
        saturation: x.saturation,
        itstate: x.itstate,
    }
}

/// The flags N, Z and C set from a result and a carry.
pub open spec fn with_nzc(x: XPSR, result: Word, carry: bool) -> XPSR {
    XPSR { carry, ..with_nz(x, result) }
}

/// The flags N, Z, C and V set from a result, a carry and an overflow.
pub open spec fn with_nzcv(x: XPSR, result: Word, carry: bool, overflow: bool) -> XPSR {
    XPSR { carry, overflow, ..with_nz(x, result) }
}

fn set_nz(x: XPSR, result: Word) -> (r: XPSR)
    ensures
        r == with_nz(x, result),
{
    XPSR { negative: result >= 0x8000_0000, zero: result == 0, ..x }
}

fn set_nzc(x: XPSR, result: Word, carry: bool) -> (r: XPSR)
    ensures
        r == with_nzc(x, result, carry),
{
    XPSR { carry, ..set_nz(x, result) }
}

fn set_nzcv(x: XPSR, result: Word, carry: bool, overflow: bool) -> (r: XPSR)
    ensures
        r == with_nzcv(x, result, carry, overflow),
{
    XPSR { carry, overflow, ..set_nz(x, result) }
}

/// A cycle that ends the instruction and changes nothing but the xPSR being built.
pub open spec fn finished(next: XPSR) -> StepEffects {
    StepEffects {
        result: ExecutionStepResult::NextInstruction,
        first_write: None,
        second_write: None,
        next_xpsr: next,
        late_branch: None,
        disables_fetch: false,
        pc_clean: false,
        all_clean: false,
        exception_return: None,
        multiply_long: None,
    }
}

/// A cycle that ends the instruction with a register written.
pub open spec fn written(rd: RegisterID, value: Word, next: XPSR) -> StepEffects {
    StepEffects { first_write: Some(RegisterWrite { register: rd, value }), ..finished(next) }
}

/// A cycle after which the instruction goes on.
pub open spec fn continuing(next: XPSR) -> StepEffects {
    StepEffects {
        result: ExecutionStepResult::Continue { trigger_decode: true, lsu_branch_expected: false },
        ..finished(next)
    }
}

/// A register written with the result of an addition, whose flags are set when
/// `setflags`.
pub open spec fn sum_written(
    rd: RegisterID,
    sum: (Word, bool, bool),
    setflags: bool,
    next: XPSR,
) -> StepEffects {
    written(
        rd,
        sum.0,
        if setflags {
            with_nzcv(next, sum.0, sum.1, sum.2)
        } else {
            next
        },
    )
}

/// A register written with the result of a logical operation, whose flags N, Z and C are
/// set when `setflags`.
pub open spec fn logic_written(
    rd: RegisterID,
    result: Word,
    carry: bool,
    setflags: bool,
    next: XPSR,
) -> StepEffects {
    written(
        rd,
        result,
        if setflags {
            with_nzc(next, result, carry)
        } else {
            next
        },
    )
}

/// `ALUWritePC`: the PC written by an ALU operation. The target is known late in the
/// cycle: fetch is disabled and the branch is delayed.
pub open spec fn alu_pc_write(value: Word, next: XPSR) -> StepEffects {
    StepEffects {
        result: ExecutionStepResult::LateBranch,
        late_branch: Some(clear_bit0(value)),
        disables_fetch: true,
        pc_clean: true,
        ..finished(next)
    }
}

fn finished_exec(next: XPSR) -> (r: StepEffects)
    ensures
        r == finished(next),
{
    StepEffects {
        result: ExecutionStepResult::NextInstruction,
        first_write: None,
        second_write: None,
        next_xpsr: next,
        late_branch: None,
        disables_fetch: false,
        pc_clean: false,
        all_clean: false,
        exception_return: None,
        multiply_long: None,
    }
}

fn written_exec(rd: RegisterID, value: Word, next: XPSR) -> (r: StepEffects)
    ensures
        r == written(rd, value, next),
{
    StepEffects { first_write: Some(RegisterWrite { register: rd, value }), ..finished_exec(next) }
}

fn continuing_exec(next: XPSR) -> (r: StepEffects)
    ensures
        r == continuing(next),
{
    StepEffects {
        result: ExecutionStepResult::Continue { trigger_decode: true, lsu_branch_expected: false },
        ..finished_exec(next)
    }
}

fn sum_written_exec(rd: RegisterID, sum: (Word, bool, bool), setflags: bool, next: XPSR) -> (r:
    StepEffects)
    ensures
        r == sum_written(rd, sum, setflags, next),
{
    let flags = if setflags {
        set_nzcv(next, sum.0, sum.1, sum.2)
    } else {
        next
    };
    written_exec(rd, sum.0, flags)
}

fn logic_written_exec(rd: RegisterID, result: Word, carry: bool, setflags: bool, next: XPSR) -> (r:
    StepEffects)
    ensures
        r == logic_written(rd, result, carry, setflags, next),
{
    let flags = if setflags {
        set_nzc(next, result, carry)
    } else {
        next
    };
    written_exec(rd, result, flags)
}

fn alu_pc_write_exec(value: Word, next: XPSR) -> (r: StepEffects)
    ensures
        r == alu_pc_write(value, next),
{
    StepEffects {
        result: ExecutionStepResult::LateBranch,
        late_branch: Some(value - value % 2),
        disables_fetch: true,
        pc_clean: true,
        ..finished_exec(next)
    }
}

// ---------------------------------------------------------------------------
// Additions and subtractions
// ---------------------------------------------------------------------------

/// Additions, subtractions and comparisons: each is an `AddWithCarry` of its operands.
pub open spec fn arithmetic_step(instr: Instruction, inp: ExecuteInputs, next: XPSR) -> Option<
    StepEffects,
> {
    let c = inp.xpsr.carry;
    let sp = reg(inp, RegisterID::SP);
    match instr {
        Instruction::AddWithCarry_Immediate { rd, rn, imm32, setflags } => Some(
            sum_written(rd, add_with_carry(reg(inp, rn), imm32, c), setflags, next),
        ),
        Instruction::AddWithCarry_Register { rd, rn, rm, shift, setflags, .. } => Some(
            sum_written(
                rd,
                add_with_carry(reg(inp, rn), shifted(reg(inp, rm), shift, c), c),
                setflags,
                next,
            ),
        ),
        Instruction::Add_Immediate { rd, rn, imm32, setflags, .. } => Some(
            sum_written(rd, add_with_carry(reg(inp, rn), imm32, false), setflags, next),
        ),
        Instruction::Add_Register { rd, rn, rm, shift, setflags, .. } => {
            let sum = add_with_carry(reg(inp, rn), shifted(reg(inp, rm), shift, c), false);
            if rd is PC {
                Some(alu_pc_write(sum.0, next))
            } else {
                Some(sum_written(rd, sum, setflags, next))
            }
        },
        Instruction::Add_SPPlusImmediate { rd, imm32, setflags } => Some(
            sum_written(rd, add_with_carry(sp, imm32, false), setflags, next),
        ),
        Instruction::Add_SPPlusRegister { rd, rm, shift, setflags } => {
            let sum = add_with_carry(sp, shifted(reg(inp, rm), shift, c), false);
            if rd is PC {
                Some(alu_pc_write(sum.0, next))
            } else {
                Some(sum_written(rd, sum, setflags, next))
            }
        },
        Instruction::AddressToRegister { rd, imm32, add } => Some(
            written(
                rd,
                wrap_add(
                    align4(reg(inp, RegisterID::PC)),
                    if add {
                        imm32 as int
                    } else {
                        -(imm32 as int)
                    },
                ),
                next,
            ),
        ),
        Instruction::ReverseSubtract_Immediate { rd, rn, imm32, setflags, .. } => Some(
            sum_written(rd, add_with_carry(!reg(inp, rn), imm32, true), setflags, next),
        ),
        Instruction::ReverseSubtract_Register { rd, rn, rm, shift, setflags } => Some(
            sum_written(
                rd,
                add_with_carry(!reg(inp, rn), shifted(reg(inp, rm), shift, c), true),
                setflags,
                next,
            ),
        ),
        Instruction::SubtractWithCarry_Immediate { rd, rn, imm32, setflags } => Some(
            sum_written(rd, add_with_carry(reg(inp, rn), !imm32, c), setflags, next),
        ),
        Instruction::SubtractWithCarry_Register { rd, rn, rm, shift, setflags, .. } => Some(
            sum_written(
                rd,
                add_with_carry(reg(inp, rn), !shifted(reg(inp, rm), shift, c), c),
                setflags,
                next,
            ),
        ),
        Instruction::Subtract_Immediate { rd, rn, imm32, setflags, .. } => Some(
            sum_written(rd, add_with_carry(reg(inp, rn), !imm32, true), setflags, next),
        ),
        Instruction::Subtract_Register { rd, rn, rm, shift, setflags, .. } => Some(
            sum_written(
                rd,
                add_with_carry(reg(inp, rn), !shifted(reg(inp, rm), shift, c), true),
                setflags,
                next,
            ),
        ),
        Instruction::Subtract_SPMinusImmediate { rd, imm32, setflags } => Some(
            sum_written(rd, add_with_carry(sp, !imm32, true), setflags, next),
        ),
        Instruction::Subtract_SPMinusRegister { rd, rm, shift, setflags } => Some(
            sum_written(
                rd,
                add_with_carry(sp, !shifted(reg(inp, rm), shift, c), true),
                setflags,
                next,
            ),
        ),
        Instruction::CompareNegative_Immediate { rn, imm32 } => {
            let sum = add_with_carry(reg(inp, rn), imm32, false);
            Some(finished(with_nzcv(next, sum.0, sum.1, sum.2)))
        },
        Instruction::CompareNegative_Register { rn, rm, shift } => {
            let sum = add_with_carry(reg(inp, rn), shifted(reg(inp, rm), shift, c), false);
            Some(finished(with_nzcv(next, sum.0, sum.1, sum.2)))
        },
        Instruction::Compare_Immediate { rn, imm32 } => {
            let sum = add_with_carry(reg(inp, rn), !imm32, true);
            Some(finished(with_nzcv(next, sum.0, sum.1, sum.2)))
        },
        Instruction::Compare_Register { rn, rm, shift } => {
            let sum = add_with_carry(reg(inp, rn), !shifted(reg(inp, rm), shift, c), true);
            Some(finished(with_nzcv(next, sum.0, sum.1, sum.2)))
        },
        _ => None,
    }
}

fn compare_exec(sum: (Word, bool, bool), next: XPSR) -> (r: StepEffects)
    ensures
        r == finished(with_nzcv(next, sum.0, sum.1, sum.2)),
{
    finished_exec(set_nzcv(next, sum.0, sum.1, sum.2))
}

fn arithmetic_exec(instr: &Instruction, inp: &ExecuteInputs, next: XPSR) -> (r: Option<
    StepEffects,
>)
    ensures
        r == arithmetic_step(*instr, *inp, next),
{
    let c = inp.xpsr.carry;
    match *instr {
        Instruction::AddWithCarry_Immediate { rd, rn, imm32, setflags } => Some(
            sum_written_exec(rd, add_with_carry_word(read(inp, rn), imm32, c), setflags, next),
        ),
        Instruction::AddWithCarry_Register { rd, rn, rm, shift, setflags, .. } => {
            let operand = shift_word(read(inp, rm), shift, c);
            Some(sum_written_exec(rd, add_with_carry_word(read(inp, rn), operand, c), setflags, next))
        },
        Instruction::Add_Immediate { rd, rn, imm32, setflags, .. } => Some(
            sum_written_exec(rd, add_with_carry_word(read(inp, rn), imm32, false), setflags, next),
        ),
        Instruction::Add_Register { rd, rn, rm, shift, setflags, .. } => {
            let operand = shift_word(read(inp, rm), shift, c);
            let sum = add_with_carry_word(read(inp, rn), operand, false);
            if rd == RegisterID::PC {
                Some(alu_pc_write_exec(sum.0, next))
            } else {
                Some(sum_written_exec(rd, sum, setflags, next))
            }
        },
        Instruction::Add_SPPlusImmediate { rd, imm32, setflags } => Some(
            sum_written_exec(
                rd,
                add_with_carry_word(read(inp, RegisterID::SP), imm32, false),
                setflags,
                next,
            ),
        ),
        Instruction::Add_SPPlusRegister { rd, rm, shift, setflags } => {
            let operand = shift_word(read(inp, rm), shift, c);
            let sum = add_with_carry_word(read(inp, RegisterID::SP), operand, false);
            if rd == RegisterID::PC {
                Some(alu_pc_write_exec(sum.0, next))
            } else {
                Some(sum_written_exec(rd, sum, setflags, next))
            }
        },
        Instruction::AddressToRegister { rd, imm32, add } => {
            let pc = read(inp, RegisterID::PC);
            let base = pc - pc % 4;
            let value = if add {
                word_add(base, imm32)
            } else {
                word_sub(base, imm32)
            };
            Some(written_exec(rd, value, next))
        },
        Instruction::ReverseSubtract_Immediate { rd, rn, imm32, setflags, .. } => Some(
            sum_written_exec(rd, add_with_carry_word(!read(inp, rn), imm32, true), setflags, next),
        ),
        Instruction::ReverseSubtract_Register { rd, rn, rm, shift, setflags } => {
            let operand = shift_word(read(inp, rm), shift, c);
            Some(
                sum_written_exec(
                    rd,
                    add_with_carry_word(!read(inp, rn), operand, true),
                    setflags,
                    next,
                ),
            )
        },
        Instruction::SubtractWithCarry_Immediate { rd, rn, imm32, setflags } => Some(
            sum_written_exec(rd, add_with_carry_word(read(inp, rn), !imm32, c), setflags, next),
        ),
        Instruction::SubtractWithCarry_Register { rd, rn, rm, shift, setflags, .. } => {
            let operand = shift_word(read(inp, rm), shift, c);
            Some(sum_written_exec(rd, add_with_carry_word(read(inp, rn), !operand, c), setflags, next))
        },
        Instruction::Subtract_Immediate { rd, rn, imm32, setflags, .. } => Some(
            sum_written_exec(rd, add_with_carry_word(read(inp, rn), !imm32, true), setflags, next),
        ),
        Instruction::Subtract_Register { rd, rn, rm, shift, setflags, .. } => {
            let operand = shift_word(read(inp, rm), shift, c);
            Some(
                sum_written_exec(
                    rd,
                    add_with_carry_word(read(inp, rn), !operand, true),
                    setflags,
                    next,
                ),
            )
        },
        Instruction::Subtract_SPMinusImmediate { rd, imm32, setflags } => Some(
            sum_written_exec(
                rd,
                add_with_carry_word(read(inp, RegisterID::SP), !imm32, true),
                setflags,
                next,
            ),
        ),
        Instruction::Subtract_SPMinusRegister { rd, rm, shift, setflags } => {
            let operand = shift_word(read(inp, rm), shift, c);
            Some(
                sum_written_exec(
                    rd,
                    add_with_carry_word(read(inp, RegisterID::SP), !operand, true),
                    setflags,
                    next,
                ),
            )
        },
        Instruction::CompareNegative_Immediate { rn, imm32 } => Some(
            compare_exec(add_with_carry_word(read(inp, rn), imm32, false), next),
        ),
        Instruction::CompareNegative_Register { rn, rm, shift } => {
            let operand = shift_word(read(inp, rm), shift, c);
            Some(compare_exec(add_with_carry_word(read(inp, rn), operand, false), next))
        },
        Instruction::Compare_Immediate { rn, imm32 } => Some(
            compare_exec(add_with_carry_word(read(inp, rn), !imm32, true), next),
        ),
        Instruction::Compare_Register { rn, rm, shift } => {
            let operand = shift_word(read(inp, rm), shift, c);
            Some(compare_exec(add_with_carry_word(read(inp, rn), !operand, true), next))
        },
        _ => None,
    }
}


// ---------------------------------------------------------------------------
// Logical operations, moves and shifts
// ---------------------------------------------------------------------------

/// A shift of a register by the amount in the low byte of another register.
pub open spec fn register_shift(srtype: SRType, amount_register: Word) -> Shift {
    Shift { srtype, amount: (amount_register % 256) as u8 }
}

fn register_shift_exec(srtype: SRType, amount_register: Word) -> (r: Shift)
    ensures
        r == register_shift(srtype, amount_register),
{
    Shift { srtype, amount: (amount_register % 256) as u8 }
}

/// A branch to the value of a register: predicted in Decode, or taken now with bit 0 of
/// the target cleared (`BranchWritePC`).
pub open spec fn register_branch(target: Word, inp: ExecuteInputs, next: XPSR) -> StepEffects {
    StepEffects {
        result: if inp.branch_kind.decode_time() {
            ExecutionStepResult::DecodeTimeBranch {
                address: target,
                was_speculative: inp.branch_kind.speculative(),
            }
        } else {
            ExecutionStepResult::ExecuteTimeBranch { address: clear_bit0(target) }
        },
        pc_clean: true,
        ..finished(next)
    }
}

fn register_branch_exec(target: Word, inp: &ExecuteInputs, next: XPSR) -> (r: StepEffects)
    ensures
        r == register_branch(target, *inp, next),
{
    StepEffects {
        result: if inp.branch_kind.is_decode_time() {
            ExecutionStepResult::DecodeTimeBranch {
                address: target,
                was_speculative: inp.branch_kind.is_speculative(),
            }
        } else {
            ExecutionStepResult::ExecuteTimeBranch { address: target - target % 2 }
        },
        pc_clean: true,
        ..finished_exec(next)
    }
}

/// Bitwise operations, moves, tests and shifts. Their carry comes from the shift of the
/// register operand, or from the expansion of the immediate done in decoding.
pub open spec fn logical_step(instr: Instruction, inp: ExecuteInputs, next: XPSR) -> Option<
    StepEffects,
> {
    let c = inp.xpsr.carry;
    match instr {
        Instruction::And_Immediate { rd, rn, imm32, setflags, carry } => Some(
            logic_written(rd, reg(inp, rn) & imm32, carry, setflags, next),
        ),
        Instruction::And_Register { rd, rn, rm, shift, setflags, .. } => {
            let (v, k) = shift_c(reg(inp, rm), shift.srtype, shift.amount, c);
            Some(logic_written(rd, reg(inp, rn) & v, k, setflags, next))
        },
        Instruction::BitClear_Immediate { rd, rn, imm32, setflags, carry } => Some(
            logic_written(rd, reg(inp, rn) & !imm32, carry, setflags, next),
        ),
        Instruction::BitClear_Register { rd, rn, rm, shift, setflags, .. } => {
            let (v, k) = shift_c(reg(inp, rm), shift.srtype, shift.amount, c);
            Some(logic_written(rd, reg(inp, rn) & !v, k, setflags, next))
        },
        Instruction::ExclusiveOr_Immediate { rd, rn, imm32, setflags, carry } => Some(
            logic_written(rd, reg(inp, rn) ^ imm32, carry, setflags, next),
        ),
        Instruction::ExclusiveOr_Register { rd, rn, rm, shift, setflags, .. } => {
            let (v, k) = shift_c(reg(inp, rm), shift.srtype, shift.amount, c);
            Some(logic_written(rd, reg(inp, rn) ^ v, k, setflags, next))
        },
        Instruction::LogicalOr_Immediate { rd, rn, imm32, setflags, carry } => Some(
            logic_written(rd, reg(inp, rn) | imm32, carry, setflags, next),
        ),
        Instruction::LogicalOr_Register { rd, rn, rm, shift, setflags, .. } => {
            let (v, k) = shift_c(reg(inp, rm), shift.srtype, shift.amount, c);
            Some(logic_written(rd, reg(inp, rn) | v, k, setflags, next))
        },
        Instruction::LogicalOrNot_Immediate { rd, rn, imm32, setflags, carry } => Some(
            logic_written(rd, reg(inp, rn) | !imm32, carry, setflags, next),
        ),
        Instruction::LogicalOrNot_Register { rd, rn, rm, shift, setflags } => {
            let (v, k) = shift_c(reg(inp, rm), shift.srtype, shift.amount, c);
            Some(logic_written(rd, reg(inp, rn) | !v, k, setflags, next))
        },
        Instruction::BitwiseNot_Immediate { rd, imm32, setflags, carry } => Some(
            logic_written(rd, !imm32, carry, setflags, next),
        ),
        Instruction::BitwiseNot_Register { rd, rm, shift, setflags, .. } => {
            let (v, k) = shift_c(reg(inp, rm), shift.srtype, shift.amount, c);
            Some(logic_written(rd, !v, k, setflags, next))
        },
        Instruction::Move_Immediate { rd, imm32, setflags, carry, .. } => Some(
            logic_written(rd, imm32, carry, setflags, next),
        ),
        Instruction::Move_Register { rd, rm, setflags } => {
            let v = reg(inp, rm);
            if rd is PC {
                Some(register_branch(v, inp, next))
            } else {
                Some(
                    written(
                        rd,
                        v,
                        if setflags {
                            with_nz(next, v)
                        } else {
                            next
                        },
                    ),
                )
            }
        },
        Instruction::Test_Immediate { rn, imm32, carry } => Some(
            finished(with_nzc(next, reg(inp, rn) & imm32, carry)),
        ),
        Instruction::Test_Register { rn, rm, shift } => {
            let (v, k) = shift_c(reg(inp, rm), shift.srtype, shift.amount, c);
            Some(finished(with_nzc(next, reg(inp, rn) & v, k)))
        },
        Instruction::TestEquivalence_Immediate { rn, imm32, carry } => Some(
            finished(with_nzc(next, reg(inp, rn) ^ imm32, carry)),
        ),
        Instruction::TestEquivalence_Register { rn, rm, shift } => {
            let (v, k) = shift_c(reg(inp, rm), shift.srtype, shift.amount, c);
            Some(finished(with_nzc(next, reg(inp, rn) ^ v, k)))
        },
        Instruction::ArithmeticShiftRight_Immediate { rd, rm, shift, setflags, .. }
        | Instruction::LogicalShiftLeft_Immediate { rd, rm, shift, setflags, .. }
        | Instruction::LogicalShiftRight_Immediate { rd, rm, shift, setflags, .. }
        | Instruction::RotateRight_Immediate { rd, rm, shift, setflags } => {
            let (v, k) = shift_c(reg(inp, rm), shift.srtype, shift.amount, c);
            Some(logic_written(rd, v, k, setflags, next))
        },
        Instruction::ArithmeticShiftRight_Register { rd, rn, rm, setflags, .. } => {
            let shift = register_shift(SRType::ASR, reg(inp, rm));
            let (v, k) = shift_c(reg(inp, rn), shift.srtype, shift.amount, c);
            Some(logic_written(rd, v, k, setflags, next))
        },
        Instruction::LogicalShiftLeft_Register { rd, rn, rm, setflags, .. } => {
            let shift = register_shift(SRType::LSL, reg(inp, rm));
            let (v, k) = shift_c(reg(inp, rn), shift.srtype, shift.amount, c);
            Some(logic_written(rd, v, k, setflags, next))
        },
        Instruction::LogicalShiftRight_Register { rd, rn, rm, setflags, .. } => {
            let shift = register_shift(SRType::LSR, reg(inp, rm));
            let (v, k) = shift_c(reg(inp, rn), shift.srtype, shift.amount, c);
            Some(logic_written(rd, v, k, setflags, next))
        },
        Instruction::RotateRight_Register { rd, rn, rm, setflags, .. } => {
            let shift = register_shift(SRType::ROR, reg(inp, rm));
            let (v, k) = shift_c(reg(inp, rn), shift.srtype, shift.amount, c);
            Some(logic_written(rd, v, k, setflags, next))
        },
        Instruction::RotateRightWithExtend { rd, rm, setflags } => {
            let (v, k) = shift_c(reg(inp, rm), SRType::RRX, 1, c);
            Some(logic_written(rd, v, k, setflags, next))
        },
        _ => None,
    }
}

fn test_exec(result: Word, carry: bool, next: XPSR) -> (r: StepEffects)
    ensures
        r == finished(with_nzc(next, result, carry)),
{
    finished_exec(set_nzc(next, result, carry))
}

fn logical_exec(instr: &Instruction, inp: &ExecuteInputs, next: XPSR) -> (r: Option<StepEffects>)
    ensures
        r == logical_step(*instr, *inp, next),
{
    let c = inp.xpsr.carry;
    match *instr {
        Instruction::And_Immediate { rd, rn, imm32, setflags, carry } => Some(
            logic_written_exec(rd, read(inp, rn) & imm32, carry, setflags, next),
        ),
        Instruction::And_Register { rd, rn, rm, shift, setflags, .. } => {
            let (v, k) = shift_c_word(read(inp, rm), shift, c);
            Some(logic_written_exec(rd, read(inp, rn) & v, k, setflags, next))
        },
        Instruction::BitClear_Immediate { rd, rn, imm32, setflags, carry } => Some(
            logic_written_exec(rd, read(inp, rn) & !imm32, carry, setflags, next),
        ),
        Instruction::BitClear_Register { rd, rn, rm, shift, setflags, .. } => {
            let (v, k) = shift_c_word(read(inp, rm), shift, c);
            Some(logic_written_exec(rd, read(inp, rn) & !v, k, setflags, next))
        },
        Instruction::ExclusiveOr_Immediate { rd, rn, imm32, setflags, carry } => Some(
            logic_written_exec(rd, read(inp, rn) ^ imm32, carry, setflags, next),
        ),
        Instruction::ExclusiveOr_Register { rd, rn, rm, shift, setflags, .. } => {
            let (v, k) = shift_c_word(read(inp, rm), shift, c);
            Some(logic_written_exec(rd, read(inp, rn) ^ v, k, setflags, next))
        },
        Instruction::LogicalOr_Immediate { rd, rn, imm32, setflags, carry } => Some(
            logic_written_exec(rd, read(inp, rn) | imm32, carry, setflags, next),
        ),
        Instruction::LogicalOr_Register { rd, rn, rm, shift, setflags, .. } => {
            let (v, k) = shift_c_word(read(inp, rm), shift, c);
            Some(logic_written_exec(rd, read(inp, rn) | v, k, setflags, next))
        },
        Instruction::LogicalOrNot_Immediate { rd, rn, imm32, setflags, carry } => Some(
            logic_written_exec(rd, read(inp, rn) | !imm32, carry, setflags, next),
        ),
        Instruction::LogicalOrNot_Register { rd, rn, rm, shift, setflags } => {
            let (v, k) = shift_c_word(read(inp, rm), shift, c);
            Some(logic_written_exec(rd, read(inp, rn) | !v, k, setflags, next))
        },
        Instruction::BitwiseNot_Immediate { rd, imm32, setflags, carry } => Some(
            logic_written_exec(rd, !imm32, carry, setflags, next),
        ),
        Instruction::BitwiseNot_Register { rd, rm, shift, setflags, .. } => {
            let (v, k) = shift_c_word(read(inp, rm), shift, c);
            Some(logic_written_exec(rd, !v, k, setflags, next))
        },
        Instruction::Move_Immediate { rd, imm32, setflags, carry, .. } => Some(
            logic_written_exec(rd, imm32, carry, setflags, next),
        ),
        Instruction::Move_Register { rd, rm, setflags } => {
            let v = read(inp, rm);
            if rd == RegisterID::PC {
                Some(register_branch_exec(v, inp, next))
            } else {
                let flags = if setflags {
                    set_nz(next, v)
                } else {
                    next
                };
                Some(written_exec(rd, v, flags))
            }
        },
        Instruction::Test_Immediate { rn, imm32, carry } => Some(
            test_exec(read(inp, rn) & imm32, carry, next),
        ),
        Instruction::Test_Register { rn, rm, shift } => {
            let (v, k) = shift_c_word(read(inp, rm), shift, c);
            Some(test_exec(read(inp, rn) & v, k, next))
        },
        Instruction::TestEquivalence_Immediate { rn, imm32, carry } => Some(
            test_exec(read(inp, rn) ^ imm32, carry, next),
        ),
        Instruction::TestEquivalence_Register { rn, rm, shift } => {
            let (v, k) = shift_c_word(read(inp, rm), shift, c);
            Some(test_exec(read(inp, rn) ^ v, k, next))
        },
        Instruction::ArithmeticShiftRight_Immediate { rd, rm, shift, setflags, .. }
        | Instruction::LogicalShiftLeft_Immediate { rd, rm, shift, setflags, .. }
        | Instruction::LogicalShiftRight_Immediate { rd, rm, shift, setflags, .. }
        | Instruction::RotateRight_Immediate { rd, rm, shift, setflags } => {
            let (v, k) = shift_c_word(read(inp, rm), shift, c);
            Some(logic_written_exec(rd, v, k, setflags, next))
        },
        Instruction::ArithmeticShiftRight_Register { rd, rn, rm, setflags, .. } => {
            let shift = register_shift_exec(SRType::ASR, read(inp, rm));
            let (v, k) = shift_c_word(read(inp, rn), shift, c);
            Some(logic_written_exec(rd, v, k, setflags, next))
        },
        Instruction::LogicalShiftLeft_Register { rd, rn, rm, setflags, .. } => {
            let shift = register_shift_exec(SRType::LSL, read(inp, rm));
            let (v, k) = shift_c_word(read(inp, rn), shift, c);
            Some(logic_written_exec(rd, v, k, setflags, next))
        },
        Instruction::LogicalShiftRight_Register { rd, rn, rm, setflags, .. } => {
            let shift = register_shift_exec(SRType::LSR, read(inp, rm));
            let (v, k) = shift_c_word(read(inp, rn), shift, c);
            Some(logic_written_exec(rd, v, k, setflags, next))
        },
        Instruction::RotateRight_Register { rd, rn, rm, setflags, .. } => {
            let shift = register_shift_exec(SRType::ROR, read(inp, rm));
            let (v, k) = shift_c_word(read(inp, rn), shift, c);
            Some(logic_written_exec(rd, v, k, setflags, next))
        },
        Instruction::RotateRightWithExtend { rd, rm, setflags } => {
            let (v, k) = shift_c_word(read(inp, rm), Shift { srtype: SRType::RRX, amount: 1 }, c);
            Some(logic_written_exec(rd, v, k, setflags, next))
        },
        _ => None,
    }
}


// ---------------------------------------------------------------------------
// Bit fields, extension, byte order, saturation
// ---------------------------------------------------------------------------

/// The saturation flag Q set when `saturated`.
pub open spec fn with_saturation(x: XPSR, saturated: bool) -> XPSR {
    if saturated {
        XPSR { saturation: true, ..x }
    } else {
        x
    }
}

/// Bit fields, extensions, byte and bit reversals, leading zeros, `MOVT` and saturation.
pub open spec fn bits_step(instr: Instruction, inp: ExecuteInputs, next: XPSR) -> Option<
    StepEffects,
> {
    let c = inp.xpsr.carry;
    match instr {
        Instruction::BitFieldClear { rd, msbit, lsbit } => Some(
            written(rd, bit_field_clear(reg(inp, rd), msbit, lsbit), next),
        ),
        Instruction::BitFieldInsert { rd, rn, msbit, lsbit } => Some(
            written(rd, bit_field_insert(reg(inp, rd), reg(inp, rn), msbit, lsbit), next),
        ),
        Instruction::UnsignedBitFieldExtract { rd, rn, lsbit, widthminus1 } => Some(
            written(rd, unsigned_bit_field(reg(inp, rn), lsbit, widthminus1), next),
        ),
        Instruction::SignedBitFieldExtract { rd, rn, lsbit, widthminus1 } => Some(
            written(rd, signed_bit_field(reg(inp, rn), lsbit, widthminus1), next),
        ),
        Instruction::SignedExtendByte { rd, rm, rotation } => Some(
            written(rd, sign_extend_byte(shifted(reg(inp, rm), rotation, false)), next),
        ),
        Instruction::SignedExtendHalfword { rd, rm, rotation } => Some(
            written(rd, sign_extend_halfword(shifted(reg(inp, rm), rotation, false)), next),
        ),
        Instruction::UnsignedExtendByte { rd, rm, rotation } => Some(
            written(rd, shifted(reg(inp, rm), rotation, false) % 0x100, next),
        ),
        Instruction::UnsignedExtendHalfword { rd, rm, rotation } => Some(
            written(rd, shifted(reg(inp, rm), rotation, false) % 0x1_0000, next),
        ),
        Instruction::ReverseBits { rd, rm } => Some(written(rd, bit_reverse(reg(inp, rm)), next)),
        Instruction::ByteReverseWord { rd, rm } => Some(
            written(rd, byte_reverse(reg(inp, rm)), next),
        ),
        Instruction::ByteReversePackedHalfword { rd, rm } => Some(
            written(rd, byte_reverse_halfwords(reg(inp, rm)), next),
        ),
        Instruction::ByteReverseSignedHalfword { rd, rm } => Some(
            written(rd, byte_reverse_signed_halfword(reg(inp, rm)), next),
        ),
        Instruction::CountLeadingZeros { rd, rm } => Some(
            written(rd, count_leading_zeros(reg(inp, rm)), next),
        ),
        Instruction::MoveTop { rd, imm16 } => Some(
            written(rd, (reg(inp, rd) % 0x1_0000 + imm16 * 0x1_0000) as Word, next),
        ),
        Instruction::SignedSaturate { rd, rn, saturate_to, shift } => {
            let (v, saturated) = signed_sat_q(
                signed(shifted(reg(inp, rn), shift, c)),
                saturate_to as nat,
            );
            Some(written(rd, word_of(v), with_saturation(next, saturated)))
        },
        Instruction::UnsignedSaturate { rd, rn, saturate_to, shift } => {
            let (v, saturated) = unsigned_sat_q(
                signed(shifted(reg(inp, rn), shift, c)),
                saturate_to as nat,
            );
            Some(written(rd, word_of(v), with_saturation(next, saturated)))
        },
        _ => None,
    }
}

/// Whether the operands of a bit-field, extension or saturation instruction are in the
/// range that the instruction allows (outside it the execution is unpredictable).
pub open spec fn bits_operands_valid(instr: Instruction) -> bool {
    match instr {
        Instruction::BitFieldClear { msbit, lsbit, .. }
        | Instruction::BitFieldInsert { msbit, lsbit, .. } => lsbit <= msbit < 32,
        Instruction::UnsignedBitFieldExtract { lsbit, widthminus1, .. }
        | Instruction::SignedBitFieldExtract { lsbit, widthminus1, .. } => lsbit + widthminus1
            < 32,
        Instruction::SignedSaturate { saturate_to, .. } => 1 <= saturate_to <= 32,
        Instruction::UnsignedSaturate { saturate_to, .. } => saturate_to < 32,
        _ => true,
    }
}

fn with_saturation_exec(x: XPSR, saturated: bool) -> (r: XPSR)
    ensures
        r == with_saturation(x, saturated),
{
    if saturated {
        XPSR { saturation: true, ..x }
    } else {
        x
    }
}

fn bits_exec(instr: &Instruction, inp: &ExecuteInputs, next: XPSR) -> (r: Option<StepEffects>)
    requires
        bits_operands_valid(*instr),
    ensures
        r == bits_step(*instr, *inp, next),
{
    let c = inp.xpsr.carry;
    match *instr {
        Instruction::BitFieldClear { rd, msbit, lsbit } => Some(
            written_exec(rd, bit_field_clear_word(read(inp, rd), msbit, lsbit), next),
        ),
        Instruction::BitFieldInsert { rd, rn, msbit, lsbit } => Some(
            written_exec(rd, bit_field_insert_word(read(inp, rd), read(inp, rn), msbit, lsbit), next),
        ),
        Instruction::UnsignedBitFieldExtract { rd, rn, lsbit, widthminus1 } => Some(
            written_exec(rd, unsigned_bit_field_word(read(inp, rn), lsbit, widthminus1), next),
        ),
        Instruction::SignedBitFieldExtract { rd, rn, lsbit, widthminus1 } => Some(
            written_exec(rd, signed_bit_field_word(read(inp, rn), lsbit, widthminus1), next),
        ),
        Instruction::SignedExtendByte { rd, rm, rotation } => Some(
            written_exec(rd, sign_extend_byte_word(shift_word(read(inp, rm), rotation, false)), next),
        ),
        Instruction::SignedExtendHalfword { rd, rm, rotation } => Some(
            written_exec(
                rd,
                sign_extend_halfword_word(shift_word(read(inp, rm), rotation, false)),
                next,
            ),
        ),
        Instruction::UnsignedExtendByte { rd, rm, rotation } => Some(
            written_exec(rd, shift_word(read(inp, rm), rotation, false) % 0x100, next),
        ),
        Instruction::UnsignedExtendHalfword { rd, rm, rotation } => Some(
            written_exec(rd, shift_word(read(inp, rm), rotation, false) % 0x1_0000, next),
        ),
        Instruction::ReverseBits { rd, rm } => Some(
            written_exec(rd, bit_reverse_word(read(inp, rm)), next),
        ),
        Instruction::ByteReverseWord { rd, rm } => Some(
            written_exec(rd, byte_reverse_word(read(inp, rm)), next),
        ),
        Instruction::ByteReversePackedHalfword { rd, rm } => Some(
            written_exec(rd, byte_reverse_halfwords_word(read(inp, rm)), next),
        ),
        Instruction::ByteReverseSignedHalfword { rd, rm } => Some(
            written_exec(rd, byte_reverse_signed_halfword_word(read(inp, rm)), next),
        ),
        Instruction::CountLeadingZeros { rd, rm } => Some(
            written_exec(rd, count_leading_zeros_word(read(inp, rm)), next),
        ),
        Instruction::MoveTop { rd, imm16 } => Some(
            written_exec(rd, read(inp, rd) % 0x1_0000 + imm16 as u32 * 0x1_0000, next),
        ),
        Instruction::SignedSaturate { rd, rn, saturate_to, shift } => {
            let (v, saturated) = signed_saturate(shift_word(read(inp, rn), shift, c), saturate_to);
            Some(written_exec(rd, v, with_saturation_exec(next, saturated)))
        },
        Instruction::UnsignedSaturate { rd, rn, saturate_to, shift } => {
            let (v, saturated) = unsigned_saturate(
                shift_word(read(inp, rn), shift, c),
                saturate_to,
            );
            Some(written_exec(rd, v, with_saturation_exec(next, saturated)))
        },
        _ => None,
    }
}


// ---------------------------------------------------------------------------
// Multiplication and division
// ---------------------------------------------------------------------------

/// A cycle of a long multiplication: the results are computed in the first cycle, the
/// low and the high word are written in their cycles, and the instruction ends with the
/// high word.
pub open spec fn long_multiply_cycle(
    rd_lo: RegisterID,
    rd_hi: RegisterID,
    computed: MultiplyLongState,
    inp: ExecuteInputs,
    next: XPSR,
) -> StepEffects {
    let state = if inp.cycle == 0 {
        computed
    } else {
        inp.multiply_long.unwrap()
    };
    StepEffects {
        result: if inp.cycle == state.write_hi_cycle {
            ExecutionStepResult::NextInstruction
        } else {
            ExecutionStepResult::Continue { trigger_decode: true, lsu_branch_expected: false }
        },
        first_write: if inp.cycle == state.write_lo_cycle {
            Some(RegisterWrite { register: rd_lo, value: state.result_lo })
        } else {
            None
        },
        second_write: if inp.cycle == state.write_hi_cycle {
            Some(RegisterWrite { register: rd_hi, value: state.result_hi })
        } else {
            None
        },
        multiply_long: if inp.cycle == 0 {
            Some(computed)
        } else {
            None
        },
        ..finished(next)
    }
}

/// The state of a long multiplication from its results and its timing.
pub open spec fn long_state(result: (Word, Word), cycles: (u32, u32)) -> MultiplyLongState {
    MultiplyLongState {
        result_hi: result.0,
        result_lo: result.1,
        write_hi_cycle: cycles.0,
        write_lo_cycle: cycles.1,
    }
}

/// Multiplications and divisions, with their timing.
pub open spec fn multiply_step(instr: Instruction, inp: ExecuteInputs, next: XPSR) -> Option<
    StepEffects,
> {
    match instr {
        Instruction::Multiply { rd, rn, rm, setflags, .. } => {
            let v = word_of(reg(inp, rn) * reg(inp, rm));
            Some(
                written(
                    rd,
                    v,
                    if setflags {
                        with_nz(next, v)
                    } else {
                        next
                    },
                ),
            )
        },
        Instruction::MultiplyAccumulate { rd, rn, rm, ra, .. } => Some(
            if inp.cycle < 1 {
                continuing(next)
            } else {
                written(rd, word_of(reg(inp, ra) + reg(inp, rn) * reg(inp, rm)), next)
            },
        ),
        Instruction::MultiplyAndSubtract { rd, rn, rm, ra } => Some(
            if inp.cycle < 1 {
                continuing(next)
            } else {
                written(rd, word_of(reg(inp, ra) - reg(inp, rn) * reg(inp, rm)), next)
            },
        ),
        Instruction::UnsignedMultiplyLong { rd_lo, rd_hi, rn, rm } => {
            let (a, b) = (reg(inp, rn), reg(inp, rm));
            Some(
                long_multiply_cycle(
                    rd_lo,
                    rd_hi,
                    long_state(split64(a * b), umull_cycles(a, b)),
                    inp,
                    next,
                ),
            )
        },
        Instruction::UnsignedMultiplyAccumulateLong { rd_lo, rd_hi, rn, rm } => {
            let (a, b) = (reg(inp, rn), reg(inp, rm));
            let acc = reg(inp, rd_hi) * 0x1_0000_0000 + reg(inp, rd_lo);
            Some(
                long_multiply_cycle(
                    rd_lo,
                    rd_hi,
                    long_state(split64(a * b + acc), umlal_cycles(a, b)),
                    inp,
                    next,
                ),
            )
        },
        Instruction::SignedMultiplyLong { rd_lo, rd_hi, rn, rm } => {
            let (a, b) = (reg(inp, rn), reg(inp, rm));
            Some(
                long_multiply_cycle(
                    rd_lo,
                    rd_hi,
                    long_state(split64(signed(a) * signed(b)), smull_cycles(a, b)),
                    inp,
                    next,
                ),
            )
        },
        Instruction::SignedMultiplyAccumulateLong { rd_lo, rd_hi, rn, rm } => {
            let (a, b) = (reg(inp, rn), reg(inp, rm));
            let acc = reg(inp, rd_hi) * 0x1_0000_0000 + reg(inp, rd_lo);
            Some(
                long_multiply_cycle(
                    rd_lo,
                    rd_hi,
                    long_state(split64(signed(a) * signed(b) + acc), smlal_cycles(a, b)),
                    inp,
                    next,
                ),
            )
        },
        Instruction::UnsignedDivide { rd, rn, rm } => {
            let (a, b) = (reg(inp, rn), reg(inp, rm));
            Some(
                if udiv_cycle(a, b) == inp.cycle {
                    written(rd, unsigned_divide(a, b), next)
                } else {
                    continuing(next)
                },
            )
        },
        Instruction::SignedDivide { rd, rn, rm } => {
            let (a, b) = (reg(inp, rn), reg(inp, rm));
            Some(
                if sdiv_cycle(a, b) == inp.cycle {
                    written(rd, signed_divide(a, b), next)
                } else {
                    continuing(next)
                },
            )
        },
        _ => None,
    }
}

/// Whether a long multiplication past its first cycle has its results at hand.
pub open spec fn multiply_state_available(instr: Instruction, inp: ExecuteInputs) -> bool {
    (instr is UnsignedMultiplyLong || instr is UnsignedMultiplyAccumulateLong
        || instr is SignedMultiplyLong || instr is SignedMultiplyAccumulateLong) ==> (inp.cycle == 0
        || inp.multiply_long is Some)
}

fn long_multiply_exec(
    rd_lo: RegisterID,
    rd_hi: RegisterID,
    computed: MultiplyLongState,
    inp: &ExecuteInputs,
    next: XPSR,
) -> (r: StepEffects)
    requires
        inp.cycle == 0 || inp.multiply_long is Some,
    ensures
        r == long_multiply_cycle(rd_lo, rd_hi, computed, *inp, next),
{
    let cycle = inp.cycle;
    let state = if cycle == 0 {
        computed
    } else {
        inp.multiply_long.unwrap()
    };
    StepEffects {
        result: if cycle == state.write_hi_cycle {
            ExecutionStepResult::NextInstruction
        } else {
            ExecutionStepResult::Continue { trigger_decode: true, lsu_branch_expected: false }
        },
        first_write: if cycle == state.write_lo_cycle {
            Some(RegisterWrite { register: rd_lo, value: state.result_lo })
        } else {
            None
        },
        second_write: if cycle == state.write_hi_cycle {
            Some(RegisterWrite { register: rd_hi, value: state.result_hi })
        } else {
            None
        },
        multiply_long: if cycle == 0 {
            Some(computed)
        } else {
            None
        },
        ..finished_exec(next)
    }
}

fn long_state_exec(result: (Word, Word), cycles: (u32, u32)) -> (r: MultiplyLongState)
    ensures
        r == long_state(result, cycles),
{
    MultiplyLongState {
        result_hi: result.0,
        result_lo: result.1,
        write_hi_cycle: cycles.0,
        write_lo_cycle: cycles.1,
    }
}

fn multiply_exec(instr: &Instruction, inp: &ExecuteInputs, next: XPSR) -> (r: Option<StepEffects>)
    requires
        multiply_state_available(*instr, *inp),
    ensures
        r == multiply_step(*instr, *inp, next),
{
    match *instr {
        Instruction::Multiply { rd, rn, rm, setflags, .. } => {
            let v = multiply_word(read(inp, rn), read(inp, rm));
            let flags = if setflags {
                set_nz(next, v)
            } else {
                next
            };
            Some(written_exec(rd, v, flags))
        },
        Instruction::MultiplyAccumulate { rd, rn, rm, ra, .. } => Some(
            if inp.cycle < 1 {
                continuing_exec(next)
            } else {
                written_exec(
                    rd,
                    multiply_accumulate_word(read(inp, rn), read(inp, rm), read(inp, ra), false),
                    next,
                )
            },
        ),
        Instruction::MultiplyAndSubtract { rd, rn, rm, ra } => Some(
            if inp.cycle < 1 {
                continuing_exec(next)
            } else {
                written_exec(
                    rd,
                    multiply_accumulate_word(read(inp, rn), read(inp, rm), read(inp, ra), true),
                    next,
                )
            },
        ),
        Instruction::UnsignedMultiplyLong { rd_lo, rd_hi, rn, rm } => {
            let (a, b) = (read(inp, rn), read(inp, rm));
            let computed = long_state_exec(
                multiply_long_words(a, b, false, 0, 0),
                umull_execution_result_writing_cycles(a, b),
            );
            Some(long_multiply_exec(rd_lo, rd_hi, computed, inp, next))
        },
        Instruction::UnsignedMultiplyAccumulateLong { rd_lo, rd_hi, rn, rm } => {
            let (a, b) = (read(inp, rn), read(inp, rm));
            let computed = long_state_exec(
                multiply_long_words(a, b, false, read(inp, rd_hi), read(inp, rd_lo)),
                umlal_execution_result_writing_cycles(a, b),
            );
            Some(long_multiply_exec(rd_lo, rd_hi, computed, inp, next))
        },
        Instruction::SignedMultiplyLong { rd_lo, rd_hi, rn, rm } => {
            let (a, b) = (read(inp, rn), read(inp, rm));
            let computed = long_state_exec(
                multiply_long_words(a, b, true, 0, 0),
                smull_execution_result_writing_cycles(a, b),
            );
            Some(long_multiply_exec(rd_lo, rd_hi, computed, inp, next))
        },
        Instruction::SignedMultiplyAccumulateLong { rd_lo, rd_hi, rn, rm } => {
            let (a, b) = (read(inp, rn), read(inp, rm));
            let computed = long_state_exec(
                multiply_long_words(a, b, true, read(inp, rd_hi), read(inp, rd_lo)),
                smlal_execution_result_writing_cycles(a, b),
            );
            Some(long_multiply_exec(rd_lo, rd_hi, computed, inp, next))
        },
        Instruction::UnsignedDivide { rd, rn, rm } => {
            let (a, b) = (read(inp, rn), read(inp, rm));
            Some(
                if udiv_execution_result_writing_cycle(a, b) == inp.cycle {
                    written_exec(rd, unsigned_divide_word(a, b), next)
                } else {
                    continuing_exec(next)
                },
            )
        },
        Instruction::SignedDivide { rd, rn, rm } => {
            let (a, b) = (read(inp, rn), read(inp, rm));
            Some(
                if sdiv_execution_result_writing_cycle(a, b) == inp.cycle {
                    written_exec(rd, signed_divide_word(a, b), next)
                } else {
                    continuing_exec(next)
                },
            )
        },
        _ => None,
    }
}


// ---------------------------------------------------------------------------
// Branches, hints and the IT instruction
// ---------------------------------------------------------------------------

/// The address with bit 0 set (a return address in Thumb state).
pub open spec fn set_bit0(address: Word) -> Word {
    (clear_bit0(address) + 1) as Word
}

/// `ITAdvance()`: the IT state after an instruction of an IT block.
pub open spec fn it_advance(x: XPSR) -> XPSR {
    XPSR {
        itstate: if x.itstate % 8 == 0 {
            0
        } else {
            (x.itstate - x.itstate % 32 + (x.itstate % 16) * 2) as u8
        },
        ..x
    }
}

/// A branch taken with its target computed in Execute: as predicted in Decode, or now.
pub open spec fn linked_branch(target: Word, link: Word, inp: ExecuteInputs, next: XPSR) -> StepEffects {
    StepEffects {
        first_write: Some(RegisterWrite { register: RegisterID::LR, value: link }),
        ..register_branch(target, inp, next)
    }
}

/// Branches, the instruction barrier, the IT instruction and the hints that wait.
pub open spec fn branch_step(instr: Instruction, inp: ExecuteInputs, next: XPSR) -> Option<
    StepEffects,
> {
    let pc = reg(inp, RegisterID::PC);
    match instr {
        Instruction::Branch { cond, imm32 } => Some(
            if cond.holds(inp.xpsr) {
                StepEffects {
                    result: ExecutionStepResult::DecodeTimeBranch {
                        address: wrap_add(pc, imm32 as int),
                        was_speculative: inp.branch_kind.speculative(),
                    },
                    pc_clean: true,
                    ..finished(next)
                }
            } else {
                StepEffects {
                    result: ExecutionStepResult::BranchNotTaken,
                    pc_clean: inp.branch_kind is ExecuteTimeConditional,
                    ..finished(next)
                }
            },
        ),
        Instruction::BranchWithLink_Immediate { imm32 } => Some(
            linked_branch(wrap_add(pc, imm32 as int), set_bit0(pc), inp, next),
        ),
        Instruction::BranchWithLinkAndExchange_Register { rm } => Some(
            linked_branch(reg(inp, rm), set_bit0(wrap_add(pc, -2)), inp, next),
        ),
        Instruction::BranchAndExchange { rm } => {
            let target = reg(inp, rm);
            Some(
                if !inp.branch_kind.decode_time() && inp.returns_from_exception {
                    StepEffects {
                        result: ExecutionStepResult::ExceptionReturn,
                        pc_clean: true,
                        exception_return: Some(target),
                        ..finished(next)
                    }
                } else {
                    register_branch(target, inp, next)
                },
            )
        },
        Instruction::CompareAndBranch { rn, imm32, nonzero } => Some(
            if nonzero != (reg(inp, rn) == 0) {
                StepEffects {
                    result: ExecutionStepResult::ExecuteTimeBranch {
                        address: clear_bit0(wrap_add(pc, imm32 as int)),
                    },
                    pc_clean: true,
                    ..finished(next)
                }
            } else {
                StepEffects {
                    result: ExecutionStepResult::BranchNotTaken,
                    pc_clean: true,
                    ..finished(next)
                }
            },
        ),
        Instruction::InstructionSynchronizationBarrier { .. } => Some(
            StepEffects {
                result: ExecutionStepResult::ExecuteTimeBranch { address: pc },
                ..finished(next)
            },
        ),
        Instruction::IfThen { firstcond, mask } => Some(
            finished(XPSR { itstate: it_state_of(firstcond, mask), ..next }),
        ),
        Instruction::NoOperation => Some(finished(next)),
        Instruction::WaitForInterrupt => Some(
            if inp.cycle == 0 {
                StepEffects {
                    result: ExecutionStepResult::PreSleep,
                    disables_fetch: true,
                    ..finished(next)
                }
            } else if inp.can_sleep {
                StepEffects { result: ExecutionStepResult::Sleep, ..finished(next) }
            } else {
                StepEffects { result: ExecutionStepResult::PreSleep, ..finished(next) }
            },
        ),
        _ => None,
    }
}

/// Whether an interworking branch taken in Execute stays in Thumb state: its target has
/// bit 0 set, unless it returns from an exception.
pub open spec fn interworking_valid(instr: Instruction, inp: ExecuteInputs) -> bool {
    match instr {
        Instruction::BranchAndExchange { rm } => inp.branch_kind.decode_time()
            || inp.returns_from_exception || reg(inp, rm) % 2 == 1,
        Instruction::BranchWithLinkAndExchange_Register { rm } => inp.branch_kind.decode_time()
            || reg(inp, rm) % 2 == 1,
        _ => true,
    }
}

fn linked_branch_exec(target: Word, link: Word, inp: &ExecuteInputs, next: XPSR) -> (r: StepEffects)
    ensures
        r == linked_branch(target, link, *inp, next),
{
    StepEffects {
        first_write: Some(RegisterWrite { register: RegisterID::LR, value: link }),
        ..register_branch_exec(target, inp, next)
    }
}

fn branch_exec(instr: &Instruction, inp: &ExecuteInputs, next: XPSR) -> (r: Option<StepEffects>)
    ensures
        r == branch_step(*instr, *inp, next),
{
    let pc = read(inp, RegisterID::PC);
    match *instr {
        Instruction::Branch { cond, imm32 } => Some(
            if cond.passed(inp.xpsr) {
                StepEffects {
                    result: ExecutionStepResult::DecodeTimeBranch {
                        address: word_add(pc, imm32),
                        was_speculative: inp.branch_kind.is_speculative(),
                    },
                    pc_clean: true,
                    ..finished_exec(next)
                }
            } else {
                StepEffects {
                    result: ExecutionStepResult::BranchNotTaken,
                    pc_clean: matches!(inp.branch_kind, Brchstat::ExecuteTimeConditional),
                    ..finished_exec(next)
                }
            },
        ),
        Instruction::BranchWithLink_Immediate { imm32 } => Some(
            linked_branch_exec(word_add(pc, imm32), pc - pc % 2 + 1, inp, next),
        ),
        Instruction::BranchWithLinkAndExchange_Register { rm } => {
            let back = word_sub(pc, 2);
            Some(linked_branch_exec(read(inp, rm), back - back % 2 + 1, inp, next))
        },
        Instruction::BranchAndExchange { rm } => {
            let target = read(inp, rm);
            Some(
                if !inp.branch_kind.is_decode_time() && inp.returns_from_exception {
                    StepEffects {
                        result: ExecutionStepResult::ExceptionReturn,
                        pc_clean: true,
                        exception_return: Some(target),
                        ..finished_exec(next)
                    }
                } else {
                    register_branch_exec(target, inp, next)
                },
            )
        },
        Instruction::CompareAndBranch { rn, imm32, nonzero } => Some(
            if nonzero != (read(inp, rn) == 0) {
                let target = word_add(pc, imm32);
                StepEffects {
                    result: ExecutionStepResult::ExecuteTimeBranch {
                        address: target - target % 2,
                    },
                    pc_clean: true,
                    ..finished_exec(next)
                }
            } else {
                StepEffects {
                    result: ExecutionStepResult::BranchNotTaken,
                    pc_clean: true,
                    ..finished_exec(next)
                }
            },
        ),
        Instruction::InstructionSynchronizationBarrier { .. } => Some(
            StepEffects {
                result: ExecutionStepResult::ExecuteTimeBranch { address: pc },
                ..finished_exec(next)
            },
        ),
        Instruction::IfThen { firstcond, mask } => Some(
            finished_exec(XPSR { itstate: (firstcond.0 % 16) * 16 + mask % 16, ..next }),
        ),
        Instruction::NoOperation => Some(finished_exec(next)),
        Instruction::WaitForInterrupt => Some(
            if inp.cycle == 0 {
                StepEffects {
                    result: ExecutionStepResult::PreSleep,
                    disables_fetch: true,
                    ..finished_exec(next)
                }
            } else if inp.can_sleep {
                StepEffects { result: ExecutionStepResult::Sleep, ..finished_exec(next) }
            } else {
                StepEffects { result: ExecutionStepResult::PreSleep, ..finished_exec(next) }
            },
        ),
        _ => None,
    }
}

// ---------------------------------------------------------------------------
// The step
// ---------------------------------------------------------------------------

/// Whether the cycle is the first of an instruction in an IT block whose condition fails:
/// the instruction is then skipped.
pub open spec fn skipped_in_it(instr: Instruction, inp: ExecuteInputs) -> bool {
    inp.xpsr.in_it() && inp.cycle == 0 && !instr.unconditional_in_it()
        && !inp.xpsr.it_condition().holds(inp.xpsr)
}

/// Instructions that stop the execution: undefined, unpredictable or unsupported ones,
/// and the hints and system calls that this core does not carry out.
pub open spec fn stops_execution(instr: Instruction) -> bool {
    instr is Unsupported || instr is Undefined || instr is Unpredictable
        || instr is PermanentlyUndefined || instr is Breakpoint || instr is ClearExclusive
        || instr is DataMemoryBarrier || instr is DataSynchronizationBarrier || instr is SendEvent
        || instr is SupervisorCall || instr is WaitForEvent
}

/// Whether a cycle of an instruction that is not skipped can be executed.
pub open spec fn executable(instr: Instruction, inp: ExecuteInputs) -> bool {
    &&& !stops_execution(instr)
    &&& bits_operands_valid(instr)
    &&& multiply_state_available(instr, inp)
    &&& interworking_valid(instr, inp)
}

/// The operation of an instruction in a cycle, when it is one that this step executes.
pub open spec fn operation(instr: Instruction, inp: ExecuteInputs, next: XPSR) -> Option<
    StepEffects,
> {
    match arithmetic_step(instr, inp, next) {
        Some(e) => Some(e),
        None => match logical_step(instr, inp, next) {
            Some(e) => Some(e),
            None => match bits_step(instr, inp, next) {
                Some(e) => Some(e),
                None => match multiply_step(instr, inp, next) {
                    Some(e) => Some(e),
                    None => branch_step(instr, inp, next),
                },
            },
        },
    }
}

/// The xPSR being built after the IT state advanced: every instruction of an IT block
/// advances it in its first cycle, whichever step executes the instruction.
pub open spec fn it_advanced(xpsr: XPSR, next_xpsr: XPSR, cycle: u32) -> XPSR {
    if xpsr.in_it() && cycle == 0 {
        it_advance(next_xpsr)
    } else {
        next_xpsr
    }
}

/// The xPSR being built after the IT state advanced (see [`it_advanced`]); the memory
/// and system steps build on it.
pub fn advance_it_state(xpsr: XPSR, next_xpsr: XPSR, cycle: u32) -> (r: XPSR)
    ensures
        r == it_advanced(xpsr, next_xpsr, cycle),
{
    if xpsr.in_it_block() && cycle == 0 {
        it_advance_exec(next_xpsr)
    } else {
        next_xpsr
    }
}

/// A cycle of the execution of an instruction. In the first cycle of an instruction in an
/// IT block the IT state advances, and the instruction is skipped when the condition
/// fails. Otherwise the instruction does its operation; `None` for the instructions that
/// access memory or the special registers, which the memory and system steps execute on
/// the xPSR given by [`it_advanced`].
pub open spec fn execute_step(instr: Instruction, inp: ExecuteInputs) -> Option<StepEffects> {
    let next = it_advanced(inp.xpsr, inp.next_xpsr, inp.cycle);
    if skipped_in_it(instr, inp) {
        Some(
            StepEffects {
                result: if inp.branch_kind.speculative() {
                    ExecutionStepResult::BranchNotTaken
                } else {
                    ExecutionStepResult::Skipped
                },
                all_clean: true,
                ..finished(next)
            },
        )
    } else {
        operation(instr, inp, next)
    }
}

fn it_advance_exec(x: XPSR) -> (r: XPSR)
    ensures
        r == it_advance(x),
{
    XPSR {
        itstate: if x.itstate % 8 == 0 {
            0
        } else {
            x.itstate - x.itstate % 32 + (x.itstate % 16) * 2
        },
        ..x
    }
}

/// A cycle of the execution of an instruction (see [`execute_step`]).
pub fn execute_instruction_step(instr: &Instruction, inp: &ExecuteInputs) -> (r: Option<
    StepEffects,
>)
    requires
        !skipped_in_it(*instr, *inp) ==> executable(*instr, *inp),
    ensures
        r == execute_step(*instr, *inp),
{
    let first_in_it = inp.xpsr.in_it_block() && inp.cycle == 0;
    let next = advance_it_state(inp.xpsr, inp.next_xpsr, inp.cycle);
    if first_in_it && !instr.is_unconditional_in_it_block() && !inp.xpsr.it_condition_passed() {
        return Some(
            StepEffects {
                result: if inp.branch_kind.is_speculative() {
                    ExecutionStepResult::BranchNotTaken
                } else {
                    ExecutionStepResult::Skipped
                },
                all_clean: true,
                ..finished_exec(next)
            },
        );
    }
    if let Some(e) = arithmetic_exec(instr, inp, next) {
        return Some(e);
    }
    if let Some(e) = logical_exec(instr, inp, next) {
        return Some(e);
    }
    if let Some(e) = bits_exec(instr, inp, next) {
        return Some(e);
    }
    if let Some(e) = multiply_exec(instr, inp, next) {
        return Some(e);
    }
    branch_exec(instr, inp, next)
}


// ---------------------------------------------------------------------------
// Folded instructions
// ---------------------------------------------------------------------------

/// The IT state set by an IT instruction: its first condition and its mask.
pub open spec fn it_state_of(firstcond: Condition, mask: u8) -> u8 {
    ((firstcond.0 % 16) * 16 + mask % 16) as u8
}

/// What the folded instruction of a cycle does.
#[derive(Clone, Copy, Debug, PartialEq, Eq, Structural)]
pub struct FoldedEffects {
    /// The xPSR built by the main and the folded instruction.
    pub next_xpsr: XPSR,
    /// The fold counter of the data watchpoint and trace unit grows by one.
    pub counts_fold: bool,
}

/// The folded instruction of a cycle, if any: only an IT instruction folds. It sets the
/// IT state of the xPSR that the main instruction built, and is counted as a folded
/// instruction. Without a folded instruction nothing changes.
pub open spec fn folded_effects(folded: Option<Instruction>, next_xpsr: XPSR) -> FoldedEffects {
    match folded {
        Some(Instruction::IfThen { firstcond, mask }) => FoldedEffects {
            next_xpsr: XPSR { itstate: it_state_of(firstcond, mask), ..next_xpsr },
            counts_fold: true,
        },
        _ => FoldedEffects { next_xpsr, counts_fold: false },
    }
}

/// Executes the folded instruction of a cycle (see [`folded_effects`]).
pub fn execute_folded_instruction(folded: Option<Instruction>, next_xpsr: XPSR) -> (r:
    FoldedEffects)
    requires
        folded matches Some(i) ==> i is IfThen,
    ensures
        r == folded_effects(folded, next_xpsr),
{
    match folded {
        Some(Instruction::IfThen { firstcond, mask }) => FoldedEffects {
            next_xpsr: XPSR { itstate: (firstcond.0 % 16) * 16 + mask % 16, ..next_xpsr },
            counts_fold: true,
        },
        _ => FoldedEffects { next_xpsr, counts_fold: false },
    }
}

// ---------------------------------------------------------------------------
// Laws
// ---------------------------------------------------------------------------

/// An instruction skipped in an IT block writes no register, branches nowhere and
/// changes no flag: only the IT state advances.
pub proof fn lemma_skipped_instruction_changes_nothing(instr: Instruction, inp: ExecuteInputs)
    requires
        skipped_in_it(instr, inp),
    ensures
        execute_step(instr, inp) matches Some(e) && e.first_write is None && e.second_write is None
            && e.next_xpsr == it_advance(inp.next_xpsr) && e.late_branch is None
            && e.exception_return is None && (e.result is Skipped || e.result is BranchNotTaken),
{
}

/// Whether an instruction may change the flags N, Z, C, V or Q.
pub open spec fn may_set_flags(instr: Instruction) -> bool {
    match instr {
        Instruction::AddWithCarry_Immediate { setflags, .. }
        | Instruction::AddWithCarry_Register { setflags, .. }
        | Instruction::Add_Immediate { setflags, .. }
        | Instruction::Add_Register { setflags, .. }
        | Instruction::Add_SPPlusImmediate { setflags, .. }
        | Instruction::Add_SPPlusRegister { setflags, .. }
        | Instruction::And_Immediate { setflags, .. }
        | Instruction::And_Register { setflags, .. }
        | Instruction::ArithmeticShiftRight_Immediate { setflags, .. }
        | Instruction::ArithmeticShiftRight_Register { setflags, .. }
        | Instruction::BitClear_Immediate { setflags, .. }
        | Instruction::BitClear_Register { setflags, .. }
        | Instruction::BitwiseNot_Immediate { setflags, .. }
        | Instruction::BitwiseNot_Register { setflags, .. }
        | Instruction::ExclusiveOr_Immediate { setflags, .. }
        | Instruction::ExclusiveOr_Register { setflags, .. }
        | Instruction::LogicalOrNot_Immediate { setflags, .. }
        | Instruction::LogicalOrNot_Register { setflags, .. }
        | Instruction::LogicalOr_Immediate { setflags, .. }
        | Instruction::LogicalOr_Register { setflags, .. }
        | Instruction::LogicalShiftLeft_Immediate { setflags, .. }
        | Instruction::LogicalShiftLeft_Register { setflags, .. }
        | Instruction::LogicalShiftRight_Immediate { setflags, .. }
        | Instruction::LogicalShiftRight_Register { setflags, .. }
        | Instruction::Move_Immediate { setflags, .. }
        | Instruction::Move_Register { setflags, .. }
        | Instruction::Multiply { setflags, .. }
        | Instruction::ReverseSubtract_Immediate { setflags, .. }
        | Instruction::ReverseSubtract_Register { setflags, .. }
        | Instruction::RotateRightWithExtend { setflags, .. }
        | Instruction::RotateRight_Immediate { setflags, .. }
        | Instruction::RotateRight_Register { setflags, .. }
        | Instruction::SubtractWithCarry_Immediate { setflags, .. }
        | Instruction::SubtractWithCarry_Register { setflags, .. }
        | Instruction::Subtract_Immediate { setflags, .. }
        | Instruction::Subtract_Register { setflags, .. }
        | Instruction::Subtract_SPMinusImmediate { setflags, .. }
        | Instruction::Subtract_SPMinusRegister { setflags, .. } => setflags,
        Instruction::CompareNegative_Immediate { .. }
        | Instruction::CompareNegative_Register { .. }
        | Instruction::Compare_Immediate { .. }
        | Instruction::Compare_Register { .. }
        | Instruction::Test_Immediate { .. }
        | Instruction::Test_Register { .. }
        | Instruction::TestEquivalence_Immediate { .. }
        | Instruction::TestEquivalence_Register { .. }
        | Instruction::SignedSaturate { .. }
        | Instruction::UnsignedSaturate { .. } => true,
        _ => false,
    }
}

/// The flags of two program status registers agree.
pub open spec fn same_flags(a: XPSR, b: XPSR) -> bool {
    a.negative == b.negative && a.zero == b.zero && a.carry == b.carry && a.overflow == b.overflow
        && a.saturation == b.saturation
}

/// An instruction that does not set flags leaves the flags being built as they were, in
/// every cycle.
#[verifier::rlimit(40)]
pub proof fn lemma_flags_kept_without_setflags(instr: Instruction, inp: ExecuteInputs)
    requires
        !may_set_flags(instr),
    ensures
        execute_step(instr, inp) matches Some(e) ==> same_flags(e.next_xpsr, inp.next_xpsr),
{
}

/// The cycle ends the instruction having written `a + b` (modulo 2^32) to `rd`; with
/// `setflags`, N and Z come from the result, C is set when the unsigned sum reaches 2^32 and
/// V when the signed sum does not fit in 32 bits; the other flags being built are kept.
pub open spec fn writes_sum(e: StepEffects, rd: RegisterID, a: Word, b: Word, setflags: bool, next: XPSR) -> bool {
    let v = (a + b) % 0x1_0000_0000;
    &&& e.result == ExecutionStepResult::NextInstruction
    &&& e.first_write == Some(RegisterWrite { register: rd, value: v as Word })
    &&& e.second_write is None
    &&& e.next_xpsr == if setflags {
        XPSR {
            negative: v >= 0x8000_0000,
            zero: v == 0,
            carry: a + b >= 0x1_0000_0000,
            overflow: !(-0x8000_0000 <= signed(a) + signed(b) < 0x8000_0000),
            ..next
        }
    } else {
        next
    }
}

/// The cycle ends the instruction having written `a - b` (modulo 2^32) to `rd`; with
/// `setflags`, N comes from the result, Z is set when `a == b`, C when no borrow occurs
/// (`a >= b`) and V when the signed difference does not fit in 32 bits; the other flags
/// being built are kept.
pub open spec fn writes_difference(e: StepEffects, rd: RegisterID, a: Word, b: Word, setflags: bool, next: XPSR) -> bool {
    let v = (a - b) % 0x1_0000_0000;
    &&& e.result == ExecutionStepResult::NextInstruction
    &&& e.first_write == Some(RegisterWrite { register: rd, value: v as Word })
    &&& e.second_write is None
    &&& e.next_xpsr == if setflags {
        XPSR {
            negative: v >= 0x8000_0000,
            zero: a == b,
            carry: a >= b,
            overflow: !(-0x8000_0000 <= signed(a) - signed(b) < 0x8000_0000),
            ..next
        }
    } else {
        next
    }
}

/// The IT condition of the instruction's first cycle fails, so a conditional instruction
/// is skipped.
pub open spec fn it_condition_fails(inp: ExecuteInputs) -> bool {
    inp.xpsr.in_it() && inp.cycle == 0 && !inp.xpsr.it_condition().holds(inp.xpsr)
}

/// The step of an instruction that `arithmetic_step` handles, when it is not skipped.
proof fn lemma_arithmetic_step_taken(instr: Instruction, inp: ExecuteInputs)
    requires
        !it_condition_fails(inp),
        arithmetic_step(instr, inp, it_advanced(inp.xpsr, inp.next_xpsr, inp.cycle)) is Some,
    ensures
        execute_step(instr, inp) == arithmetic_step(
            instr,
            inp,
            it_advanced(inp.xpsr, inp.next_xpsr, inp.cycle),
        ),
{
}

/// A sum written with its flags, as `AddWithCarry` without carry in gives them.
proof fn lemma_sum_written(rd: RegisterID, a: Word, b: Word, setflags: bool, next: XPSR)
    ensures
        writes_sum(sum_written(rd, add_with_carry(a, b, false), setflags, next), rd, a, b, setflags, next),
{
    lemma_addition_flags(a, b);
}

/// A difference written with its flags, as `AddWithCarry(a, NOT(b), 1)` gives them.
proof fn lemma_difference_written(rd: RegisterID, a: Word, b: Word, setflags: bool, next: XPSR)
    ensures
        writes_difference(sum_written(rd, add_with_carry(a, !b, true), setflags, next), rd, a, b, setflags, next),
        writes_difference(sum_written(rd, add_with_carry(!b, a, true), setflags, next), rd, a, b, setflags, next),
{
    lemma_subtraction_flags(a, b);
    assert(add_with_carry(!b, a, true) == add_with_carry(a, !b, true));
}

/// `ADD Rd, Rn, #imm` writes `Rn + imm`, with the flags of that sum when `setflags`.
pub proof fn lemma_add_immediate_result(
    rd: RegisterID,
    rn: RegisterID,
    imm32: Word,
    setflags: bool,
    depends_on_it: bool,
    inp: ExecuteInputs,
)
    requires
        !it_condition_fails(inp),
    ensures
        (execute_step(
            Instruction::Add_Immediate { rd, rn, imm32, setflags, setflags_depends_on_it: depends_on_it },
            inp,
        ) matches Some(e) && writes_sum(e, rd, reg(inp, rn), imm32, setflags, it_advanced(inp.xpsr, inp.next_xpsr, inp.cycle))),
{
    let instr = Instruction::Add_Immediate { rd, rn, imm32, setflags, setflags_depends_on_it: depends_on_it };
    lemma_arithmetic_step_taken(instr, inp);
    lemma_sum_written(rd, reg(inp, rn), imm32, setflags, it_advanced(inp.xpsr, inp.next_xpsr, inp.cycle));
}

/// `SUB Rd, Rn, #imm` writes `Rn - imm`, with the flags of that difference when `setflags`.
pub proof fn lemma_subtract_immediate_result(
    rd: RegisterID,
    rn: RegisterID,
    imm32: Word,
    setflags: bool,
    depends_on_it: bool,
    inp: ExecuteInputs,
)
    requires
        !it_condition_fails(inp),
    ensures
        (execute_step(
            Instruction::Subtract_Immediate { rd, rn, imm32, setflags, setflags_depends_on_it: depends_on_it },
            inp,
        ) matches Some(e) && writes_difference(e, rd, reg(inp, rn), imm32, setflags, it_advanced(inp.xpsr, inp.next_xpsr, inp.cycle))),
{
    let instr = Instruction::Subtract_Immediate { rd, rn, imm32, setflags, setflags_depends_on_it: depends_on_it };
    lemma_arithmetic_step_taken(instr, inp);
    lemma_difference_written(rd, reg(inp, rn), imm32, setflags, it_advanced(inp.xpsr, inp.next_xpsr, inp.cycle));
}

/// `RSB Rd, Rn, #imm` writes `imm - Rn` (so `RSB Rd, Rn, #0` negates `Rn`), with the flags
/// of that difference when `setflags`: the carry is set exactly when `imm >= Rn`.
pub proof fn lemma_reverse_subtract_immediate_result(
    rd: RegisterID,
    rn: RegisterID,
    imm32: Word,
    setflags: bool,
    depends_on_it: bool,
    inp: ExecuteInputs,
)
    requires
        !it_condition_fails(inp),
    ensures
        (execute_step(
            Instruction::ReverseSubtract_Immediate { rd, rn, imm32, setflags, setflags_depends_on_it: depends_on_it },
            inp,
        ) matches Some(e) && writes_difference(e, rd, imm32, reg(inp, rn), setflags, it_advanced(inp.xpsr, inp.next_xpsr, inp.cycle))),
{
    let instr = Instruction::ReverseSubtract_Immediate { rd, rn, imm32, setflags, setflags_depends_on_it: depends_on_it };
    lemma_arithmetic_step_taken(instr, inp);
    lemma_difference_written(rd, imm32, reg(inp, rn), setflags, it_advanced(inp.xpsr, inp.next_xpsr, inp.cycle));
}

/// `ADD Rd, SP, #imm` writes `SP + imm`, and `SUB Rd, SP, #imm` writes `SP - imm`, with
/// the flags of that sum or difference when `setflags`.
pub proof fn lemma_sp_immediate_results(rd: RegisterID, imm32: Word, setflags: bool, inp: ExecuteInputs)
    requires
        !it_condition_fails(inp),
    ensures
        (execute_step(Instruction::Add_SPPlusImmediate { rd, imm32, setflags }, inp) matches Some(e)
            && writes_sum(e, rd, reg(inp, RegisterID::SP), imm32, setflags, it_advanced(inp.xpsr, inp.next_xpsr, inp.cycle))),
        (execute_step(Instruction::Subtract_SPMinusImmediate { rd, imm32, setflags }, inp) matches Some(e)
            && writes_difference(e, rd, reg(inp, RegisterID::SP), imm32, setflags, it_advanced(inp.xpsr, inp.next_xpsr, inp.cycle))),
{
    let next = it_advanced(inp.xpsr, inp.next_xpsr, inp.cycle);
    lemma_arithmetic_step_taken(Instruction::Add_SPPlusImmediate { rd, imm32, setflags }, inp);
    lemma_arithmetic_step_taken(Instruction::Subtract_SPMinusImmediate { rd, imm32, setflags }, inp);
    lemma_sum_written(rd, reg(inp, RegisterID::SP), imm32, setflags, next);
    lemma_difference_written(rd, reg(inp, RegisterID::SP), imm32, setflags, next);
}

/// The flags N, Z, C and V of `a + b + c` (`c` is 0 or 1) on the flags being built.
pub open spec fn sum_flags(a: Word, b: Word, c: int, next: XPSR) -> XPSR {
    let v = (a + b + c) % 0x1_0000_0000;
    XPSR {
        negative: v >= 0x8000_0000,
        zero: v == 0,
        carry: a + b + c >= 0x1_0000_0000,
        overflow: !(-0x8000_0000 <= signed(a) + signed(b) + c < 0x8000_0000),
        ..next
    }
}

/// The flags N, Z, C and V of `a - b - borrow` (`borrow` is 0 or 1) on the flags being built:
/// C is set exactly when no borrow out occurs.
pub open spec fn difference_flags(a: Word, b: Word, borrow: int, next: XPSR) -> XPSR {
    let v = (a - b - borrow) % 0x1_0000_0000;
    XPSR {
        negative: v >= 0x8000_0000,
        zero: v == 0,
        carry: a - b - borrow >= 0,
        overflow: !(-0x8000_0000 <= signed(a) - signed(b) - borrow < 0x8000_0000),
        ..next
    }
}

/// The cycle ends the instruction having written `a + b + c` (modulo 2^32) to `rd`, with the
/// flags of that sum when `setflags`.
pub open spec fn writes_sum_with_carry(e: StepEffects, rd: RegisterID, a: Word, b: Word, c: int, setflags: bool, next: XPSR) -> bool {
    &&& e.result == ExecutionStepResult::NextInstruction
    &&& e.first_write == Some(RegisterWrite { register: rd, value: ((a + b + c) % 0x1_0000_0000) as Word })
    &&& e.second_write is None
    &&& e.next_xpsr == if setflags { sum_flags(a, b, c, next) } else { next }
}

/// The cycle ends the instruction having written `a - b - borrow` (modulo 2^32) to `rd`,
/// with the flags of that difference when `setflags`.
pub open spec fn writes_difference_with_borrow(e: StepEffects, rd: RegisterID, a: Word, b: Word, borrow: int, setflags: bool, next: XPSR) -> bool {
    &&& e.result == ExecutionStepResult::NextInstruction
    &&& e.first_write == Some(RegisterWrite { register: rd, value: ((a - b - borrow) % 0x1_0000_0000) as Word })
    &&& e.second_write is None
    &&& e.next_xpsr == if setflags { difference_flags(a, b, borrow, next) } else { next }
}

/// The cycle ends the instruction, writes no register and sets the flags given.
pub open spec fn only_sets_flags(e: StepEffects, flags: XPSR) -> bool {
    &&& e.result == ExecutionStepResult::NextInstruction
    &&& e.first_write is None
    &&& e.second_write is None
    &&& e.next_xpsr == flags
}

proof fn lemma_sum_with_carry_written(rd: RegisterID, a: Word, b: Word, carry_in: bool, setflags: bool, next: XPSR)
    ensures
        writes_sum_with_carry(
            sum_written(rd, add_with_carry(a, b, carry_in), setflags, next),
            rd, a, b, if carry_in { 1 } else { 0 }, setflags, next,
        ),
        only_sets_flags(
            finished(with_nzcv(next, add_with_carry(a, b, carry_in).0, add_with_carry(a, b, carry_in).1, add_with_carry(a, b, carry_in).2)),
            sum_flags(a, b, if carry_in { 1 } else { 0 }, next),
        ),
{
    lemma_add_with_carry_in(a, b, carry_in);
}

proof fn lemma_difference_with_borrow_written(rd: RegisterID, a: Word, b: Word, carry_in: bool, setflags: bool, next: XPSR)
    ensures
        writes_difference_with_borrow(
            sum_written(rd, add_with_carry(a, !b, carry_in), setflags, next),
            rd, a, b, if carry_in { 0 } else { 1 }, setflags, next,
        ),
        writes_difference_with_borrow(
            sum_written(rd, add_with_carry(!b, a, carry_in), setflags, next),
            rd, a, b, if carry_in { 0 } else { 1 }, setflags, next,
        ),
        only_sets_flags(
            finished(with_nzcv(next, add_with_carry(a, !b, carry_in).0, add_with_carry(a, !b, carry_in).1, add_with_carry(a, !b, carry_in).2)),
            difference_flags(a, b, if carry_in { 0 } else { 1 }, next),
        ),
{
    lemma_subtract_with_borrow(a, b, carry_in);
    assert(add_with_carry(!b, a, carry_in) == add_with_carry(a, !b, carry_in));
}

/// `ADC` adds the operand and the carry flag to `Rn`, and `SBC` subtracts the operand and
/// the borrow (NOT carry) from `Rn`, with an immediate or a shifted register operand.
pub proof fn lemma_carry_arithmetic_results(
    rd: RegisterID,
    rn: RegisterID,
    imm32: Word,
    rm: RegisterID,
    shift: Shift,
    setflags: bool,
    depends_on_it: bool,
    inp: ExecuteInputs,
)
    requires
        !it_condition_fails(inp),
    ensures
        ({
            let next = it_advanced(inp.xpsr, inp.next_xpsr, inp.cycle);
            let x = reg(inp, rn);
            let c: int = if inp.xpsr.carry { 1 } else { 0 };
            let op = shifted(reg(inp, rm), shift, inp.xpsr.carry);
            &&& (execute_step(Instruction::AddWithCarry_Immediate { rd, rn, imm32, setflags }, inp) matches Some(e)
                && writes_sum_with_carry(e, rd, x, imm32, c, setflags, next))
            &&& (execute_step(
                Instruction::AddWithCarry_Register { rd, rn, rm, shift, setflags, setflags_depends_on_it: depends_on_it },
                inp,
            ) matches Some(e) && writes_sum_with_carry(e, rd, x, op, c, setflags, next))
            &&& (execute_step(Instruction::SubtractWithCarry_Immediate { rd, rn, imm32, setflags }, inp) matches Some(e)
                && writes_difference_with_borrow(e, rd, x, imm32, 1 - c, setflags, next))
            &&& (execute_step(
                Instruction::SubtractWithCarry_Register { rd, rn, rm, shift, setflags, setflags_depends_on_it: depends_on_it },
                inp,
            ) matches Some(e) && writes_difference_with_borrow(e, rd, x, op, 1 - c, setflags, next))
        }),
{
    let next = it_advanced(inp.xpsr, inp.next_xpsr, inp.cycle);
    let x = reg(inp, rn);
    let cf = inp.xpsr.carry;
    let op = shifted(reg(inp, rm), shift, cf);
    lemma_arithmetic_step_taken(Instruction::AddWithCarry_Immediate { rd, rn, imm32, setflags }, inp);
    lemma_arithmetic_step_taken(
        Instruction::AddWithCarry_Register { rd, rn, rm, shift, setflags, setflags_depends_on_it: depends_on_it },
        inp,
    );
    lemma_arithmetic_step_taken(Instruction::SubtractWithCarry_Immediate { rd, rn, imm32, setflags }, inp);
    lemma_arithmetic_step_taken(
        Instruction::SubtractWithCarry_Register { rd, rn, rm, shift, setflags, setflags_depends_on_it: depends_on_it },
        inp,
    );
    lemma_sum_with_carry_written(rd, x, imm32, cf, setflags, next);
    lemma_sum_with_carry_written(rd, x, op, cf, setflags, next);
    lemma_difference_with_borrow_written(rd, x, imm32, cf, setflags, next);
    lemma_difference_with_borrow_written(rd, x, op, cf, setflags, next);
}

/// With a shifted register operand, `ADD` (to a register other than the PC) writes
/// `Rn + operand`, `SUB` writes `Rn - operand` and `RSB` writes `operand - Rn`.
pub proof fn lemma_register_arithmetic_results(
    rd: RegisterID,
    rn: RegisterID,
    rm: RegisterID,
    shift: Shift,
    setflags: bool,
    depends_on_it: bool,
    inp: ExecuteInputs,
)
    requires
        !it_condition_fails(inp),
        !(rd is PC),
    ensures
        ({
            let next = it_advanced(inp.xpsr, inp.next_xpsr, inp.cycle);
            let x = reg(inp, rn);
            let op = shifted(reg(inp, rm), shift, inp.xpsr.carry);
            &&& (execute_step(
                Instruction::Add_Register { rd, rn, rm, shift, setflags, setflags_depends_on_it: depends_on_it },
                inp,
            ) matches Some(e) && writes_sum_with_carry(e, rd, x, op, 0, setflags, next))
            &&& (execute_step(
                Instruction::Subtract_Register { rd, rn, rm, shift, setflags, setflags_depends_on_it: depends_on_it },
                inp,
            ) matches Some(e) && writes_difference_with_borrow(e, rd, x, op, 0, setflags, next))
            &&& (execute_step(Instruction::ReverseSubtract_Register { rd, rn, rm, shift, setflags }, inp) matches Some(e)
                && writes_difference_with_borrow(e, rd, op, x, 0, setflags, next))
        }),
{
    let next = it_advanced(inp.xpsr, inp.next_xpsr, inp.cycle);
    let x = reg(inp, rn);
    let op = shifted(reg(inp, rm), shift, inp.xpsr.carry);
    lemma_arithmetic_step_taken(
        Instruction::Add_Register { rd, rn, rm, shift, setflags, setflags_depends_on_it: depends_on_it },
        inp,
    );
    lemma_arithmetic_step_taken(
        Instruction::Subtract_Register { rd, rn, rm, shift, setflags, setflags_depends_on_it: depends_on_it },
        inp,
    );
    lemma_arithmetic_step_taken(Instruction::ReverseSubtract_Register { rd, rn, rm, shift, setflags }, inp);
    lemma_sum_with_carry_written(rd, x, op, false, setflags, next);
    lemma_difference_with_borrow_written(rd, x, op, true, setflags, next);
    lemma_difference_with_borrow_written(rd, op, x, true, setflags, next);
}

/// `CMP` sets the flags of `Rn - operand` and `CMN` those of `Rn + operand`, writing no
/// register.
pub proof fn lemma_compare_results(rn: RegisterID, imm32: Word, rm: RegisterID, shift: Shift, inp: ExecuteInputs)
    requires
        !it_condition_fails(inp),
    ensures
        ({
            let next = it_advanced(inp.xpsr, inp.next_xpsr, inp.cycle);
            let x = reg(inp, rn);
            let op = shifted(reg(inp, rm), shift, inp.xpsr.carry);
            &&& (execute_step(Instruction::Compare_Immediate { rn, imm32 }, inp) matches Some(e)
                && only_sets_flags(e, difference_flags(x, imm32, 0, next)))
            &&& (execute_step(Instruction::Compare_Register { rn, rm, shift }, inp) matches Some(e)
                && only_sets_flags(e, difference_flags(x, op, 0, next)))
            &&& (execute_step(Instruction::CompareNegative_Immediate { rn, imm32 }, inp) matches Some(e)
                && only_sets_flags(e, sum_flags(x, imm32, 0, next)))
            &&& (execute_step(Instruction::CompareNegative_Register { rn, rm, shift }, inp) matches Some(e)
                && only_sets_flags(e, sum_flags(x, op, 0, next)))
        }),
{
    let next = it_advanced(inp.xpsr, inp.next_xpsr, inp.cycle);
    let x = reg(inp, rn);
    let op = shifted(reg(inp, rm), shift, inp.xpsr.carry);
    lemma_arithmetic_step_taken(Instruction::Compare_Immediate { rn, imm32 }, inp);
    lemma_arithmetic_step_taken(Instruction::Compare_Register { rn, rm, shift }, inp);
    lemma_arithmetic_step_taken(Instruction::CompareNegative_Immediate { rn, imm32 }, inp);
    lemma_arithmetic_step_taken(Instruction::CompareNegative_Register { rn, rm, shift }, inp);
    lemma_sum_with_carry_written(RegisterID::R0, x, imm32, false, false, next);
    lemma_sum_with_carry_written(RegisterID::R0, x, op, false, false, next);
    lemma_difference_with_borrow_written(RegisterID::R0, x, imm32, true, false, next);
    lemma_difference_with_borrow_written(RegisterID::R0, x, op, true, false, next);
}

/// Bit `i` of a word.
pub open spec fn word_bit(x: Word, i: u32) -> bool {
    (x >> i) & 1 == 1
}

/// The cycle ends the instruction having written to `rd` the word whose bit `i` is
/// `f(i)`; with `setflags`, N is its bit 31, Z is set when it is zero, and C is `carry`.
pub open spec fn writes_bits(e: StepEffects, rd: RegisterID, f: spec_fn(u32) -> bool, carry: bool, setflags: bool, next: XPSR) -> bool {
    &&& e.result == ExecutionStepResult::NextInstruction
    &&& e.second_write is None
    &&& e.first_write matches Some(w)
    &&& w.register == rd
    &&& forall|i: u32| i < 32 ==> #[trigger] word_bit(w.value, i) == f(i)
    &&& e.next_xpsr == if setflags {
        XPSR { negative: word_bit(w.value, 31), zero: w.value == 0, carry, ..next }
    } else {
        next
    }
}

proof fn lemma_bits_of_logic(a: Word, b: Word, i: u32)
    by (bit_vector)
    requires
        i < 32,
    ensures
        ((a & b) >> i) & 1 == 1 <==> ((a >> i) & 1 == 1 && (b >> i) & 1 == 1),
        ((a | b) >> i) & 1 == 1 <==> ((a >> i) & 1 == 1 || (b >> i) & 1 == 1),
        ((a ^ b) >> i) & 1 == 1 <==> ((a >> i) & 1 == 1) != ((b >> i) & 1 == 1),
        ((a & !b) >> i) & 1 == 1 <==> ((a >> i) & 1 == 1 && !((b >> i) & 1 == 1)),
        ((a | !b) >> i) & 1 == 1 <==> ((a >> i) & 1 == 1 || !((b >> i) & 1 == 1)),
        ((!b) >> i) & 1 == 1 <==> !((b >> i) & 1 == 1),
        (a >> 31u32) & 1 == 1 <==> a >= 0x8000_0000,
{
}

proof fn lemma_logic_step_taken(instr: Instruction, inp: ExecuteInputs)
    requires
        !it_condition_fails(inp),
        arithmetic_step(instr, inp, it_advanced(inp.xpsr, inp.next_xpsr, inp.cycle)) is None,
        logical_step(instr, inp, it_advanced(inp.xpsr, inp.next_xpsr, inp.cycle)) is Some,
    ensures
        execute_step(instr, inp) == logical_step(instr, inp, it_advanced(inp.xpsr, inp.next_xpsr, inp.cycle)),
{
}

proof fn lemma_logic_written_bits(rd: RegisterID, v: Word, f: spec_fn(u32) -> bool, carry: bool, setflags: bool, next: XPSR)
    requires
        forall|i: u32| i < 32 ==> #[trigger] word_bit(v, i) == f(i),
    ensures
        writes_bits(logic_written(rd, v, carry, setflags, next), rd, f, carry, setflags, next),
{
    lemma_bits_of_logic(v, v, 0);
}

proof fn lemma_logic_case(
    instr: Instruction,
    inp: ExecuteInputs,
    rd: RegisterID,
    v: Word,
    f: spec_fn(u32) -> bool,
    carry: bool,
    setflags: bool,
)
    requires
        !it_condition_fails(inp),
        arithmetic_step(instr, inp, it_advanced(inp.xpsr, inp.next_xpsr, inp.cycle)) is None,
        logical_step(instr, inp, it_advanced(inp.xpsr, inp.next_xpsr, inp.cycle)) == Some(
            logic_written(rd, v, carry, setflags, it_advanced(inp.xpsr, inp.next_xpsr, inp.cycle)),
        ),
        forall|i: u32| i < 32 ==> #[trigger] word_bit(v, i) == f(i),
    ensures
        (execute_step(instr, inp) matches Some(e) && writes_bits(
            e,
            rd,
            f,
            carry,
            setflags,
            it_advanced(inp.xpsr, inp.next_xpsr, inp.cycle),
        )),
{
    lemma_logic_step_taken(instr, inp);
    lemma_logic_written_bits(rd, v, f, carry, setflags, it_advanced(inp.xpsr, inp.next_xpsr, inp.cycle));
}

/// `AND Rd, Rn, #imm`: bit `i` of the result is `Rn<i> AND imm<i>`. With `setflags`, the carry flag is the carry of the immediate's expansion.
pub proof fn lemma_and_immediate_bits(
    rd: RegisterID,
    rn: RegisterID,
    imm32: Word,
    setflags: bool,
    carry: bool,
    inp: ExecuteInputs,
)
    requires
        !it_condition_fails(inp),
    ensures
        ({
            let x = reg(inp, rn);
            execute_step(Instruction::And_Immediate { rd, rn, imm32, setflags, carry }, inp) matches Some(e) && writes_bits(
                e,
                rd,
                |i: u32| word_bit(x, i) && word_bit(imm32, i),
                carry,
                setflags,
                it_advanced(inp.xpsr, inp.next_xpsr, inp.cycle),
            )
        }),
{
    let x = reg(inp, rn);
    let f = |i: u32| word_bit(x, i) && word_bit(imm32, i);
    assert forall|i: u32| i < 32 implies #[trigger] word_bit(x & imm32, i) == f(i) by {
        lemma_bits_of_logic(x, imm32, i);
    }
    lemma_logic_case(Instruction::And_Immediate { rd, rn, imm32, setflags, carry }, inp, rd, x & imm32, f, carry, setflags);
}

/// `ORR Rd, Rn, #imm`: bit `i` of the result is `Rn<i> OR imm<i>`. With `setflags`, the carry flag is the carry of the immediate's expansion.
pub proof fn lemma_or_immediate_bits(
    rd: RegisterID,
    rn: RegisterID,
    imm32: Word,
    setflags: bool,
    carry: bool,
    inp: ExecuteInputs,
)
    requires
        !it_condition_fails(inp),
    ensures
        ({
            let x = reg(inp, rn);
            execute_step(Instruction::LogicalOr_Immediate { rd, rn, imm32, setflags, carry }, inp) matches Some(e) && writes_bits(
                e,
                rd,
                |i: u32| word_bit(x, i) || word_bit(imm32, i),
                carry,
                setflags,
                it_advanced(inp.xpsr, inp.next_xpsr, inp.cycle),
            )
        }),
{
    let x = reg(inp, rn);
    let f = |i: u32| word_bit(x, i) || word_bit(imm32, i);
    assert forall|i: u32| i < 32 implies #[trigger] word_bit(x | imm32, i) == f(i) by {
        lemma_bits_of_logic(x, imm32, i);
    }
    lemma_logic_case(Instruction::LogicalOr_Immediate { rd, rn, imm32, setflags, carry }, inp, rd, x | imm32, f, carry, setflags);
}

/// `EOR Rd, Rn, #imm`: bit `i` of the result is `Rn<i> XOR imm<i>`. With `setflags`, the carry flag is the carry of the immediate's expansion.
pub proof fn lemma_exclusive_or_immediate_bits(
    rd: RegisterID,
    rn: RegisterID,
    imm32: Word,
    setflags: bool,
    carry: bool,
    inp: ExecuteInputs,
)
    requires
        !it_condition_fails(inp),
    ensures
        ({
            let x = reg(inp, rn);
            execute_step(Instruction::ExclusiveOr_Immediate { rd, rn, imm32, setflags, carry }, inp) matches Some(e) && writes_bits(
                e,
                rd,
                |i: u32| word_bit(x, i) != word_bit(imm32, i),
                carry,
                setflags,
                it_advanced(inp.xpsr, inp.next_xpsr, inp.cycle),
            )
        }),
{
    let x = reg(inp, rn);
    let f = |i: u32| word_bit(x, i) != word_bit(imm32, i);
    assert forall|i: u32| i < 32 implies #[trigger] word_bit(x ^ imm32, i) == f(i) by {
        lemma_bits_of_logic(x, imm32, i);
    }
    lemma_logic_case(Instruction::ExclusiveOr_Immediate { rd, rn, imm32, setflags, carry }, inp, rd, x ^ imm32, f, carry, setflags);
}

/// `BIC Rd, Rn, #imm`: bit `i` of the result is `Rn<i> AND NOT imm<i>`. With `setflags`, the carry flag is the carry of the immediate's expansion.
pub proof fn lemma_bit_clear_immediate_bits(
    rd: RegisterID,
    rn: RegisterID,
    imm32: Word,
    setflags: bool,
    carry: bool,
    inp: ExecuteInputs,
)
    requires
        !it_condition_fails(inp),
    ensures
        ({
            let x = reg(inp, rn);
            execute_step(Instruction::BitClear_Immediate { rd, rn, imm32, setflags, carry }, inp) matches Some(e) && writes_bits(
                e,
                rd,
                |i: u32| word_bit(x, i) && !word_bit(imm32, i),
                carry,
                setflags,
                it_advanced(inp.xpsr, inp.next_xpsr, inp.cycle),
            )
        }),
{
    let x = reg(inp, rn);
    let f = |i: u32| word_bit(x, i) && !word_bit(imm32, i);
    assert forall|i: u32| i < 32 implies #[trigger] word_bit(x & !imm32, i) == f(i) by {
        lemma_bits_of_logic(x, imm32, i);
    }
    lemma_logic_case(Instruction::BitClear_Immediate { rd, rn, imm32, setflags, carry }, inp, rd, x & !imm32, f, carry, setflags);
}

/// `ORN Rd, Rn, #imm`: bit `i` of the result is `Rn<i> OR NOT imm<i>`. With `setflags`, the carry flag is the carry of the immediate's expansion.
pub proof fn lemma_or_not_immediate_bits(
    rd: RegisterID,
    rn: RegisterID,
    imm32: Word,
    setflags: bool,
    carry: bool,
    inp: ExecuteInputs,
)
    requires
        !it_condition_fails(inp),
    ensures
        ({
            let x = reg(inp, rn);
            execute_step(Instruction::LogicalOrNot_Immediate { rd, rn, imm32, setflags, carry }, inp) matches Some(e) && writes_bits(
                e,
                rd,
                |i: u32| word_bit(x, i) || !word_bit(imm32, i),
                carry,
                setflags,
                it_advanced(inp.xpsr, inp.next_xpsr, inp.cycle),
            )
        }),
{
    let x = reg(inp, rn);
    let f = |i: u32| word_bit(x, i) || !word_bit(imm32, i);
    assert forall|i: u32| i < 32 implies #[trigger] word_bit(x | !imm32, i) == f(i) by {
        lemma_bits_of_logic(x, imm32, i);
    }
    lemma_logic_case(Instruction::LogicalOrNot_Immediate { rd, rn, imm32, setflags, carry }, inp, rd, x | !imm32, f, carry, setflags);
}

/// `MVN Rd, #imm`: bit `i` of the result is `NOT imm<i>`. With `setflags`, the carry flag is the carry of the immediate's expansion.
pub proof fn lemma_not_immediate_bits(
    rd: RegisterID,
    imm32: Word,
    setflags: bool,
    carry: bool,
    inp: ExecuteInputs,
)
    requires
        !it_condition_fails(inp),
    ensures
        ({
            execute_step(Instruction::BitwiseNot_Immediate { rd, imm32, setflags, carry }, inp) matches Some(e) && writes_bits(
                e,
                rd,
                |i: u32| !word_bit(imm32, i),
                carry,
                setflags,
                it_advanced(inp.xpsr, inp.next_xpsr, inp.cycle),
            )
        }),
{
    let f = |i: u32| !word_bit(imm32, i);
    assert forall|i: u32| i < 32 implies #[trigger] word_bit(!imm32, i) == f(i) by {
        lemma_bits_of_logic(imm32, imm32, i);
    }
    lemma_logic_case(Instruction::BitwiseNot_Immediate { rd, imm32, setflags, carry }, inp, rd, !imm32, f, carry, setflags);
}

/// `MOV Rd, #imm` writes the immediate itself.
pub proof fn lemma_move_immediate_bits(
    rd: RegisterID,
    imm32: Word,
    setflags: bool,
    depends_on_it: bool,
    carry: bool,
    inp: ExecuteInputs,
)
    requires
        !it_condition_fails(inp),
    ensures
        (execute_step(
            Instruction::Move_Immediate { rd, imm32, setflags, setflags_depends_on_it: depends_on_it, carry },
            inp,
        ) matches Some(e) && writes_bits(
            e,
            rd,
            |i: u32| word_bit(imm32, i),
            carry,
            setflags,
            it_advanced(inp.xpsr, inp.next_xpsr, inp.cycle),
        )),
{
    let f = |i: u32| word_bit(imm32, i);
    lemma_logic_case(
        Instruction::Move_Immediate { rd, imm32, setflags, setflags_depends_on_it: depends_on_it, carry },
        inp,
        rd,
        imm32,
        f,
        carry,
        setflags,
    );
}

/// `ADR Rd, label` writes the PC rounded down to a multiple of 4, plus or minus the
/// immediate, modulo 2^32, and leaves the flags being built as they are.
pub proof fn lemma_address_to_register_result(rd: RegisterID, imm32: Word, add: bool, inp: ExecuteInputs)
    requires
        !it_condition_fails(inp),
    ensures
        ({
            let pc = reg(inp, RegisterID::PC);
            let target = pc - pc % 4 + (if add { imm32 as int } else { -(imm32 as int) });
            execute_step(Instruction::AddressToRegister { rd, imm32, add }, inp) matches Some(e) && {
                &&& e.result == ExecutionStepResult::NextInstruction
                &&& e.first_write == Some(RegisterWrite { register: rd, value: (target % 0x1_0000_0000) as Word })
                &&& e.second_write is None
                &&& e.next_xpsr == it_advanced(inp.xpsr, inp.next_xpsr, inp.cycle)
            }
        }),
{
    lemma_arithmetic_step_taken(Instruction::AddressToRegister { rd, imm32, add }, inp);
}

/// The cycle ends the instruction having written `value` to `rd`; with `setflags`, N and Z
/// come from the value and C is `carry`.
pub open spec fn writes_value(e: StepEffects, rd: RegisterID, value: int, carry: bool, setflags: bool, next: XPSR) -> bool {
    &&& e.result == ExecutionStepResult::NextInstruction
    &&& e.first_write == Some(RegisterWrite { register: rd, value: value as Word })
    &&& e.second_write is None
    &&& e.next_xpsr == if setflags {
        XPSR { negative: value >= 0x8000_0000, zero: value == 0, carry, ..next }
    } else {
        next
    }
}

/// `LSL Rd, Rm, #n` (0 < n < 32) writes `Rm * 2^n` modulo 2^32, the carry being the last
/// bit shifted out (bit `32 - n` of `Rm`); `LSR Rd, Rm, #n` writes `Rm / 2^n`, the carry
/// being bit `n - 1` of `Rm`.
pub proof fn lemma_logical_shift_immediate_results(
    rd: RegisterID,
    rm: RegisterID,
    n: u8,
    setflags: bool,
    depends_on_it: bool,
    inp: ExecuteInputs,
)
    requires
        !it_condition_fails(inp),
        0 < n < 32,
    ensures
        ({
            let next = it_advanced(inp.xpsr, inp.next_xpsr, inp.cycle);
            let x = reg(inp, rm);
            let p = vstd::arithmetic::power2::pow2(n as nat);
            &&& (execute_step(
                Instruction::LogicalShiftLeft_Immediate {
                    rd,
                    rm,
                    shift: Shift { srtype: SRType::LSL, amount: n },
                    setflags,
                    setflags_depends_on_it: depends_on_it,
                },
                inp,
            ) matches Some(e) && writes_value(e, rd, (x * p) % 0x1_0000_0000, word_bit(x, (32 - n) as u32), setflags, next))
            &&& (execute_step(
                Instruction::LogicalShiftRight_Immediate {
                    rd,
                    rm,
                    shift: Shift { srtype: SRType::LSR, amount: n },
                    setflags,
                    setflags_depends_on_it: depends_on_it,
                },
                inp,
            ) matches Some(e) && writes_value(e, rd, x as int / p as int, word_bit(x, (n - 1) as u32), setflags, next))
        }),
{
    let x = reg(inp, rm);
    let c = inp.xpsr.carry;
    lemma_logical_shifts_scale(x, n, c);
    vstd::arithmetic::power2::lemma_pow2_pos(n as nat);
    vstd::arithmetic::power2::lemma2_to64();
    vstd::arithmetic::power2::lemma_pow2_strictly_increases(n as nat, 32);
    let p = vstd::arithmetic::power2::pow2(n as nat);
    assert((p as Word) as int == p);
    lemma_logic_step_taken(
        Instruction::LogicalShiftLeft_Immediate {
            rd,
            rm,
            shift: Shift { srtype: SRType::LSL, amount: n },
            setflags,
            setflags_depends_on_it: depends_on_it,
        },
        inp,
    );
    lemma_logic_step_taken(
        Instruction::LogicalShiftRight_Immediate {
            rd,
            rm,
            shift: Shift { srtype: SRType::LSR, amount: n },
            setflags,
            setflags_depends_on_it: depends_on_it,
        },
        inp,
    );
}

} // verus!
