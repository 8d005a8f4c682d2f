//! The Decode stage as a state machine. Each step takes what the rest of the core shows
//! Decode in the cycle (a [`DecodeView`]) and returns what Decode asks of the rest of the
//! core ([`DecodeActions`]): the AGU result for the register bank, a decode-time branch
//! for fetch, and the outcome of a stalled speculative branch.
use vstd::prelude::*;

use crate::agu::{
    AdditionalAction, agu_form, agu_value, compute_agu_value, get_additional_action,
    lsl_offsets_only, spec_additional_action,
};
use crate::common::{Address, Word, wrap_add};
use crate::decode::{
    Brchstat, DecodeState, PipelineStepPack, TriggerData, get_pc_value, is_instr_tainted,
    is_long_instruction, is_second_instruction_short, it_pattern, looks_like_it, starts_long,
};
use crate::fetch::buffers::FDReg;
use crate::instruction::Instruction;
use crate::memory::{MemoryInstructionDescription, memory_description};
use crate::registers::{RegisterBitmap, RegisterID, XPSR};
use crate::thumb16::{decode_short_instruction, spec_decode_short};
use crate::thumb32::{decode_long_instruction, spec_decode_long};

verus! {

/// The bit of a register in a register set.
pub open spec fn reg_bit(r: RegisterID) -> u16 {
    1u16 << (r.index_of() as u16)
}

fn register_bit(r: RegisterID) -> (b: u16)
    ensures
        b == reg_bit(r),
{
    1u16 << (r.index() as u16)
}

/// The bit of a base register that is written back, if it is.
pub open spec fn written_back(rn: RegisterID, wback: bool) -> u16 {
    if wback {
        reg_bit(rn)
    } else {
        0
    }
}

fn written_back_bit(rn: RegisterID, wback: bool) -> (b: u16)
    ensures
        b == written_back(rn, wback),
{
    if wback {
        register_bit(rn)
    } else {
        0
    }
}

/// The set of registers an instruction writes: its destinations, a written-back base,
/// the loaded register list, and the PC (and LR) of branches. Flags are not registers.
pub open spec fn spec_written_registers(instr: Instruction) -> u16 {
    match instr {
        Instruction::AddWithCarry_Immediate { rd, .. }
        | Instruction::AddWithCarry_Register { rd, .. }
        | Instruction::Add_Immediate { rd, .. }
        | Instruction::Add_Register { rd, .. }
        | Instruction::Add_SPPlusImmediate { rd, .. }
        | Instruction::Add_SPPlusRegister { rd, .. }
        | Instruction::AddressToRegister { rd, .. }
        | Instruction::And_Immediate { rd, .. }
        | Instruction::And_Register { rd, .. }
        | Instruction::ArithmeticShiftRight_Immediate { rd, .. }
        | Instruction::ArithmeticShiftRight_Register { rd, .. }
        | Instruction::BitClear_Immediate { rd, .. }
        | Instruction::BitClear_Register { rd, .. }
        | Instruction::BitFieldClear { rd, .. }
        | Instruction::BitFieldInsert { rd, .. }
        | Instruction::BitwiseNot_Immediate { rd, .. }
        | Instruction::BitwiseNot_Register { rd, .. }
        | Instruction::ByteReversePackedHalfword { rd, .. }
        | Instruction::ByteReverseSignedHalfword { rd, .. }
        | Instruction::ByteReverseWord { rd, .. }
        | Instruction::CountLeadingZeros { rd, .. }
        | Instruction::ExclusiveOr_Immediate { rd, .. }
        | Instruction::ExclusiveOr_Register { rd, .. }
        | Instruction::LogicalOrNot_Immediate { rd, .. }
        | Instruction::LogicalOrNot_Register { rd, .. }
        | Instruction::LogicalOr_Immediate { rd, .. }
        | Instruction::LogicalOr_Register { rd, .. }
        | Instruction::LogicalShiftLeft_Immediate { rd, .. }
        | Instruction::LogicalShiftLeft_Register { rd, .. }
        | Instruction::LogicalShiftRight_Immediate { rd, .. }
        | Instruction::LogicalShiftRight_Register { rd, .. }
        | Instruction::MoveToRegisterFromSpecialRegister { rd, .. }
        | Instruction::MoveTop { rd, .. }
        | Instruction::Move_Immediate { rd, .. }
        | Instruction::Move_Register { rd, .. }
        | Instruction::Multiply { rd, .. }
        | Instruction::MultiplyAccumulate { rd, .. }
        | Instruction::MultiplyAndSubtract { rd, .. }
        | Instruction::ReverseBits { rd, .. }
        | Instruction::ReverseSubtract_Immediate { rd, .. }
        | Instruction::ReverseSubtract_Register { rd, .. }
        | Instruction::RotateRightWithExtend { rd, .. }
        | Instruction::RotateRight_Immediate { rd, .. }
        | Instruction::RotateRight_Register { rd, .. }
        | Instruction::SignedBitFieldExtract { rd, .. }
        | Instruction::SignedDivide { rd, .. }
        | Instruction::SignedExtendByte { rd, .. }
        | Instruction::SignedExtendHalfword { rd, .. }
        | Instruction::SignedSaturate { rd, .. }
        | Instruction::SubtractWithCarry_Immediate { rd, .. }
        | Instruction::SubtractWithCarry_Register { rd, .. }
        | Instruction::Subtract_Immediate { rd, .. }
        | Instruction::Subtract_Register { rd, .. }
        | Instruction::Subtract_SPMinusImmediate { rd, .. }
        | Instruction::Subtract_SPMinusRegister { rd, .. }
        | Instruction::UnsignedBitFieldExtract { rd, .. }
        | Instruction::UnsignedDivide { rd, .. }
        | Instruction::UnsignedExtendByte { rd, .. }
        | Instruction::UnsignedExtendHalfword { rd, .. }
        | Instruction::UnsignedSaturate { rd, .. }
        | Instruction::StoreRegisterExclusive { rd, .. }
        | Instruction::StoreRegisterExclusiveByte { rd, .. }
        | Instruction::StoreRegisterExclusiveHalfword { rd, .. } => reg_bit(rd),
        Instruction::SignedMultiplyAccumulateLong { rd_lo, rd_hi, .. }
        | Instruction::SignedMultiplyLong { rd_lo, rd_hi, .. }
        | Instruction::UnsignedMultiplyAccumulateLong { rd_lo, rd_hi, .. }
        | Instruction::UnsignedMultiplyLong { rd_lo, rd_hi, .. } => reg_bit(rd_lo) | reg_bit(rd_hi),
        Instruction::LoadRegisterByte_Immediate { rt, rn, wback, .. }
        | Instruction::LoadRegisterByte_Register { rt, rn, wback, .. }
        | Instruction::LoadRegisterHalfword_Immediate { rt, rn, wback, .. }
        | Instruction::LoadRegisterHalfword_Register { rt, rn, wback, .. }
        | Instruction::LoadRegisterSignedByte_Immediate { rt, rn, wback, .. }
        | Instruction::LoadRegisterSignedByte_Register { rt, rn, wback, .. }
        | Instruction::LoadRegisterSignedHalfword_Immediate { rt, rn, wback, .. }
        | Instruction::LoadRegisterSignedHalfword_Register { rt, rn, wback, .. }
        | Instruction::LoadRegister_Immediate { rt, rn, wback, .. }
        | Instruction::LoadRegister_Register { rt, rn, wback, .. } => reg_bit(rt) | written_back(rn, wback),
        Instruction::LoadRegister_Literal { rt, .. }
        | Instruction::LoadRegisterByte_Literal { rt, .. }
        | Instruction::LoadRegisterHalfword_Literal { rt, .. }
        | Instruction::LoadRegisterSignedByte_Literal { rt, .. }
        | Instruction::LoadRegisterSignedHalfword_Literal { rt, .. }
        | Instruction::LoadRegisterUnprivileged { rt, .. }
        | Instruction::LoadRegisterByteUnprivileged { rt, .. }
        | Instruction::LoadRegisterHalfwordUnprivileged { rt, .. }
        | Instruction::LoadRegisterSignedByteUnprivileged { rt, .. }
        | Instruction::LoadRegisterSignedHalfwordUnprivileged { rt, .. }
        | Instruction::LoadRegisterExclusive { rt, .. }
        | Instruction::LoadRegisterExclusiveByte { rt, .. }
        | Instruction::LoadRegisterExclusiveHalfword { rt, .. } => reg_bit(rt),
        Instruction::LoadRegisterDual_Immediate { rt, rt2, rn, wback, .. } => reg_bit(rt) | reg_bit(rt2) | written_back(rn, wback),
        Instruction::LoadRegisterDual_Literal { rt, rt2, .. } => reg_bit(rt) | reg_bit(rt2),
        Instruction::StoreRegister_Immediate { rn, wback, .. }
        | Instruction::StoreRegister_Register { rn, wback, .. }
        | Instruction::StoreRegisterByte_Immediate { rn, wback, .. }
        | Instruction::StoreRegisterByte_Register { rn, wback, .. }
        | Instruction::StoreRegisterHalfword_Immediate { rn, wback, .. }
        | Instruction::StoreRegisterHalfword_Register { rn, wback, .. }
        | Instruction::StoreRegisterDual_Immediate { rn, wback, .. }
        | Instruction::StoreMultiple { rn, wback, .. }
        | Instruction::StoreMultipleDecrementBefore { rn, wback, .. } => written_back(rn, wback),
        Instruction::LoadMultiple { rn, registers, wback, .. }
        | Instruction::LoadMultipleDecrementBefore { rn, registers, wback } => registers.0 | written_back(rn, wback),
        Instruction::Branch { .. }
        | Instruction::BranchAndExchange { .. }
        | Instruction::CompareAndBranch { .. }
        | Instruction::TableBranch { .. } => reg_bit(RegisterID::PC),
        Instruction::BranchWithLink_Immediate { .. }
        | Instruction::BranchWithLinkAndExchange_Register { .. } => reg_bit(RegisterID::PC) | reg_bit(RegisterID::LR),
        _ => 0,
    }
}

/// The set of registers an instruction writes.
pub fn written_registers(instr: Instruction) -> (r: RegisterBitmap)
    ensures
        r.0 == spec_written_registers(instr),
{
    RegisterBitmap(
    match instr {
        Instruction::AddWithCarry_Immediate { rd, .. }
        | Instruction::AddWithCarry_Register { rd, .. }
        | Instruction::Add_Immediate { rd, .. }
        | Instruction::Add_Register { rd, .. }
        | Instruction::Add_SPPlusImmediate { rd, .. }
        | Instruction::Add_SPPlusRegister { rd, .. }
        | Instruction::AddressToRegister { rd, .. }
        | Instruction::And_Immediate { rd, .. }
        | Instruction::And_Register { rd, .. }
        | Instruction::ArithmeticShiftRight_Immediate { rd, .. }
        | Instruction::ArithmeticShiftRight_Register { rd, .. }
        | Instruction::BitClear_Immediate { rd, .. }
        | Instruction::BitClear_Register { rd, .. }
        | Instruction::BitFieldClear { rd, .. }
        | Instruction::BitFieldInsert { rd, .. }
        | Instruction::BitwiseNot_Immediate { rd, .. }
        | Instruction::BitwiseNot_Register { rd, .. }
        | Instruction::ByteReversePackedHalfword { rd, .. }
        | Instruction::ByteReverseSignedHalfword { rd, .. }
        | Instruction::ByteReverseWord { rd, .. }
        | Instruction::CountLeadingZeros { rd, .. }
        | Instruction::ExclusiveOr_Immediate { rd, .. }
        | Instruction::ExclusiveOr_Register { rd, .. }
        | Instruction::LogicalOrNot_Immediate { rd, .. }
        | Instruction::LogicalOrNot_Register { rd, .. }
        | Instruction::LogicalOr_Immediate { rd, .. }
        | Instruction::LogicalOr_Register { rd, .. }
        | Instruction::LogicalShiftLeft_Immediate { rd, .. }
        | Instruction::LogicalShiftLeft_Register { rd, .. }
        | Instruction::LogicalShiftRight_Immediate { rd, .. }
        | Instruction::LogicalShiftRight_Register { rd, .. }
        | Instruction::MoveToRegisterFromSpecialRegister { rd, .. }
        | Instruction::MoveTop { rd, .. }
        | Instruction::Move_Immediate { rd, .. }
        | Instruction::Move_Register { rd, .. }
        | Instruction::Multiply { rd, .. }
        | Instruction::MultiplyAccumulate { rd, .. }
        | Instruction::MultiplyAndSubtract { rd, .. }
        | Instruction::ReverseBits { rd, .. }
        | Instruction::ReverseSubtract_Immediate { rd, .. }
        | Instruction::ReverseSubtract_Register { rd, .. }
        | Instruction::RotateRightWithExtend { rd, .. }
        | Instruction::RotateRight_Immediate { rd, .. }
        | Instruction::RotateRight_Register { rd, .. }
        | Instruction::SignedBitFieldExtract { rd, .. }
        | Instruction::SignedDivide { rd, .. }
        | Instruction::SignedExtendByte { rd, .. }
        | Instruction::SignedExtendHalfword { rd, .. }
        | Instruction::SignedSaturate { rd, .. }
        | Instruction::SubtractWithCarry_Immediate { rd, .. }
        | Instruction::SubtractWithCarry_Register { rd, .. }
        | Instruction::Subtract_Immediate { rd, .. }
        | Instruction::Subtract_Register { rd, .. }
        | Instruction::Subtract_SPMinusImmediate { rd, .. }
        | Instruction::Subtract_SPMinusRegister { rd, .. }
        | Instruction::UnsignedBitFieldExtract { rd, .. }
        | Instruction::UnsignedDivide { rd, .. }
        | Instruction::UnsignedExtendByte { rd, .. }
        | Instruction::UnsignedExtendHalfword { rd, .. }
        | Instruction::UnsignedSaturate { rd, .. }
        | Instruction::StoreRegisterExclusive { rd, .. }
        | Instruction::StoreRegisterExclusiveByte { rd, .. }
        | Instruction::StoreRegisterExclusiveHalfword { rd, .. } => register_bit(rd),
        Instruction::SignedMultiplyAccumulateLong { rd_lo, rd_hi, .. }
        | Instruction::SignedMultiplyLong { rd_lo, rd_hi, .. }
        | Instruction::UnsignedMultiplyAccumulateLong { rd_lo, rd_hi, .. }
        | Instruction::UnsignedMultiplyLong { rd_lo, rd_hi, .. } => register_bit(rd_lo) | register_bit(rd_hi),
        Instruction::LoadRegisterByte_Immediate { rt, rn, wback, .. }
        | Instruction::LoadRegisterByte_Register { rt, rn, wback, .. }
        | Instruction::LoadRegisterHalfword_Immediate { rt, rn, wback, .. }
        | Instruction::LoadRegisterHalfword_Register { rt, rn, wback, .. }
        | Instruction::LoadRegisterSignedByte_Immediate { rt, rn, wback, .. }
        | Instruction::LoadRegisterSignedByte_Register { rt, rn, wback, .. }
        | Instruction::LoadRegisterSignedHalfword_Immediate { rt, rn, wback, .. }
        | Instruction::LoadRegisterSignedHalfword_Register { rt, rn, wback, .. }
        | Instruction::LoadRegister_Immediate { rt, rn, wback, .. }
        | Instruction::LoadRegister_Register { rt, rn, wback, .. } => register_bit(rt) | written_back_bit(rn, wback),
        Instruction::LoadRegister_Literal { rt, .. }
        | Instruction::LoadRegisterByte_Literal { rt, .. }
        | Instruction::LoadRegisterHalfword_Literal { rt, .. }
        | Instruction::LoadRegisterSignedByte_Literal { rt, .. }
        | Instruction::LoadRegisterSignedHalfword_Literal { rt, .. }
        | Instruction::LoadRegisterUnprivileged { rt, .. }
        | Instruction::LoadRegisterByteUnprivileged { rt, .. }
        | Instruction::LoadRegisterHalfwordUnprivileged { rt, .. }
        | Instruction::LoadRegisterSignedByteUnprivileged { rt, .. }
        | Instruction::LoadRegisterSignedHalfwordUnprivileged { rt, .. }
        | Instruction::LoadRegisterExclusive { rt, .. }
        | Instruction::LoadRegisterExclusiveByte { rt, .. }
        | Instruction::LoadRegisterExclusiveHalfword { rt, .. } => register_bit(rt),
        Instruction::LoadRegisterDual_Immediate { rt, rt2, rn, wback, .. } => register_bit(rt) | register_bit(rt2) | written_back_bit(rn, wback),
        Instruction::LoadRegisterDual_Literal { rt, rt2, .. } => register_bit(rt) | register_bit(rt2),
        Instruction::StoreRegister_Immediate { rn, wback, .. }
        | Instruction::StoreRegister_Register { rn, wback, .. }
        | Instruction::StoreRegisterByte_Immediate { rn, wback, .. }
        | Instruction::StoreRegisterByte_Register { rn, wback, .. }
        | Instruction::StoreRegisterHalfword_Immediate { rn, wback, .. }
        | Instruction::StoreRegisterHalfword_Register { rn, wback, .. }
        | Instruction::StoreRegisterDual_Immediate { rn, wback, .. }
        | Instruction::StoreMultiple { rn, wback, .. }
        | Instruction::StoreMultipleDecrementBefore { rn, wback, .. } => written_back_bit(rn, wback),
        Instruction::LoadMultiple { rn, registers, wback, .. }
        | Instruction::LoadMultipleDecrementBefore { rn, registers, wback } => registers.0 | written_back_bit(rn, wback),
        Instruction::Branch { .. }
        | Instruction::BranchAndExchange { .. }
        | Instruction::CompareAndBranch { .. }
        | Instruction::TableBranch { .. } => register_bit(RegisterID::PC),
        Instruction::BranchWithLink_Immediate { .. }
        | Instruction::BranchWithLinkAndExchange_Register { .. } => register_bit(RegisterID::PC) | register_bit(RegisterID::LR),
        _ => 0,
    }
    )
}

/// Whether a memory instruction writes its base register back.
pub open spec fn writes_back(instr: Instruction) -> bool {
    match memory_description(instr) {
        MemoryInstructionDescription::LoadSingle { writeback, .. } => writeback,
        MemoryInstructionDescription::StoreSingle { writeback, .. } => writeback,
        MemoryInstructionDescription::LoadMultiple { writeback, .. } => writeback,
        MemoryInstructionDescription::StoreMultiple { writeback } => writeback,
        MemoryInstructionDescription::NoMemoryAccess => false,
    }
}

fn instruction_writes_back(instr: &Instruction) -> (r: bool)
    ensures
        r == writes_back(*instr),
{
    match instr.get_memory_description() {
        MemoryInstructionDescription::LoadSingle { writeback, .. } => writeback,
        MemoryInstructionDescription::StoreSingle { writeback, .. } => writeback,
        MemoryInstructionDescription::LoadMultiple { writeback, .. } => writeback,
        MemoryInstructionDescription::StoreMultiple { writeback } => writeback,
        MemoryInstructionDescription::NoMemoryAccess => false,
    }
}

/// An instruction whose IT condition fails: it is skipped.
pub open spec fn skipped_in_it(xpsr: XPSR) -> bool {
    xpsr.in_it() && !xpsr.it_condition().holds(xpsr)
}

/// The length in halfwords is 1 or 2, and 2 when an instruction is folded.
pub open spec fn length_ok(length: u8, folded: Option<Instruction>) -> bool {
    (length == 1 || length == 2) && (folded is Some ==> length == 2)
}

/// The instruction at the head of the F/D register (first halfword first) and its length.
pub open spec fn decoded_head(head: Seq<u16>, xpsr: XPSR) -> (Instruction, u8) {
    if starts_long(head[0]) {
        (spec_decode_long((head[0] * 0x1_0000 + head[1]) as u32, xpsr), 2u8)
    } else {
        (spec_decode_short(head[0], xpsr), 1u8)
    }
}

/// A ready result of decode.
pub open spec fn ready(
    instruction: Instruction,
    folded_instruction: Option<Instruction>,
    address: Address,
    branch_kind: Brchstat,
    branch_was_mispredicted: bool,
    length: u8,
    postponed_advance_head: bool,
    xpsr: XPSR,
) -> DecodeState {
    DecodeState::ResultReady {
        value: PipelineStepPack {
            instruction,
            folded_instruction,
            address,
            branch_kind,
            branch_was_mispredicted,
            length,
        },
        postponed_advance_head,
        xpsr,
    }
}

/// Settings of the modelled hardware for the flag "the previous instruction writes LR",
/// which makes `BX LR` and friends execute-time branches.
#[derive(Clone, Copy, Debug)]
pub struct LrFlagConfig {
    /// The flag is cleared when the pipeline moves only if there was no phony multicycle
    /// NOP (otherwise it is always cleared).
    pub clear_only_without_phony_nop: bool,
    /// Skipped instructions (failed IT condition) may set the flag.
    pub skipped_sets_flag: bool,
    /// `BL` and `BLX` may set the flag.
    pub bl_sets_flag: bool,
}

/// What the rest of the core shows Decode in a cycle.
pub struct DecodeView {
    /// The F/D register: the halfwords at the head of the prefetch queue.
    pub head: FDReg,
    /// Address of the first halfword of `head`.
    pub head_address: Address,
    /// The two halfwords of the shadow head of the prefetch queue.
    pub shadow_head: FDReg,
    /// The last instruction that took effect in execute, if any.
    pub last_effective_instruction: Option<Instruction>,
    /// Whether execute computes flags on the critical path to the AGU.
    pub flags_on_critical_path_to_agu: bool,
    /// Whether execute is free.
    pub execute_is_free: bool,
    /// The register bank as the AGU reads it; decode supplies the PC itself.
    pub registers: [Word; 16],
    /// Whether branching to the value of LR returns from an exception.
    pub lr_returns_from_exception: bool,
}

/// What Decode asks of the rest of the core after a step.
#[derive(Clone, Copy, Debug)]
pub struct DecodeActions {
    /// The address computed by the AGU, for the register bank.
    pub agu_result: Option<Word>,
    /// A decode-time branch for fetch: target, kind, and whether it is mispredicted.
    pub decode_time_branch: Option<(Word, Brchstat, bool)>,
    /// A stalled speculative branch resolved: taken (`true`) or cancelled (`false`).
    pub speculation: Option<bool>,
}

/// What moving the pipeline hands on: the step for execute and what fetch is told.
#[derive(Clone, Copy, Debug)]
pub struct PipelineMove {
    pub step: PipelineStepPack,
    pub postponed_advance_head: bool,
    pub phony_multicycle_nop: bool,
    pub xpsr: XPSR,
    /// A stalled speculative branch resolved on the way: taken or cancelled.
    pub speculation: Option<bool>,
}

/// The Decode stage.
pub struct Decode {
    pub state: DecodeState,
    /// The previously decoded instruction writes LR.
    pub prev_instruction_writes_lr: bool,
    /// A flag-setting `MUL` was decoded: it stalls a following conditional branch while
    /// execute is busy.
    pub muls_bcond_stall: bool,
    pub config: LrFlagConfig,
}

/// The decoded instructions waiting in each state are those that state is for.
pub open spec fn state_wf(state: DecodeState) -> bool {
    match state {
        DecodeState::WaitingForFetchAndExecute => true,
        DecodeState::AGUWaitingForData { instr, folded_instr, length, .. } => {
            &&& spec_additional_action(instr) is ComputeAGUValue
            &&& lsl_offsets_only(instr)
            &&& length_ok(length, folded_instr)
        },
        DecodeState::NotifyFetchAboutBranch { instr, folded_instr, length, .. } => {
            &&& spec_additional_action(instr) is Branch
            &&& folded_instr is None
            &&& length == 1 || length == 2
        },
        DecodeState::ResultReady { value, .. } => length_ok(value.length, value.folded_instruction),
    }
}

/// A speculative branch waiting in a ready result is resolved with the flags of `xpsr`
/// (or those it was decoded with): it becomes taken or no branch.
pub open spec fn resolve_speculation(state: DecodeState, new_xpsr: Option<XPSR>) -> (DecodeState, Option<bool>) {
    match state {
        DecodeState::ResultReady { value, postponed_advance_head, xpsr } => if value.branch_kind.speculative() {
            let flags = match new_xpsr {
                Some(n) => n,
                None => xpsr,
            };
            let taken = Brchstat::condition_holds(value.instruction, flags);
            (
                ready(
                    value.instruction,
                    value.folded_instruction,
                    value.address,
                    if taken { Brchstat::ConditionalTaken } else { Brchstat::NoBranch },
                    value.branch_was_mispredicted,
                    value.length,
                    postponed_advance_head,
                    xpsr,
                ),
                Some(taken),
            )
        } else {
            (state, None)
        },
        _ => (state, None),
    }
}

/// The decode phase of the main instruction: from the waiting state, with a full
/// instruction at the head, decode it and go to the state its additional action asks for.
pub open spec fn main_phase(
    state: DecodeState,
    prev_lr: bool,
    view: DecodeView,
    dirty: RegisterBitmap,
    xpsr: XPSR,
    postponed: bool,
) -> DecodeState {
    let head = view.head@;
    if !(state is WaitingForFetchAndExecute) || head.len() == 0 || (starts_long(head[0]) && head.len() < 2) {
        state
    } else {
        let instr = decoded_head(head, xpsr).0;
        let length = decoded_head(head, xpsr).1;
        let tainted_dependency = match view.last_effective_instruction {
            Some(last) => last.lsu() && writes_back(last) && it_pattern(view.shadow_head@[1])
                && !starts_long(view.shadow_head@[0]),
            None => false,
        };
        let action = spec_additional_action(instr);
        if action is ComputeAGUValue && (!skipped_in_it(xpsr) || view.flags_on_critical_path_to_agu
            || tainted_dependency) {
            DecodeState::AGUWaitingForData {
                addr: view.head_address,
                instr,
                folded_instr: None,
                length,
                dirty_registers: dirty,
                postponed_advance_head: postponed,
                xpsr,
            }
        } else if action is Branch {
            DecodeState::NotifyFetchAboutBranch {
                addr: view.head_address,
                instr,
                folded_instr: None,
                length,
                dirty_registers: dirty,
                postponed_advance_head: postponed,
                lr_is_dirty: prev_lr,
                xpsr,
            }
        } else {
            ready(
                instr,
                None,
                view.head_address,
                Brchstat::classify(instr, prev_lr, xpsr.in_it()),
                false,
                length,
                postponed,
                xpsr,
            )
        }
    }
}

/// A 16-bit instruction that is not a memory access, a branch, `CPS`, `CMP SP` or a write
/// of SP can have a following IT folded into it.
pub open spec fn can_fold(instr: Instruction, length: u8, head: Seq<u16>) -> bool {
    &&& length == 1
    &&& head.len() > 1
    &&& !starts_long(head[1])
    &&& !instr.lsu()
    &&& !instr.branch_like()
    &&& !(instr is ChangeProcessorState)
    &&& !(instr matches Instruction::Compare_Register { rn, .. } && rn == RegisterID::SP)
    &&& !RegisterBitmap(spec_written_registers(instr)).has(RegisterID::SP)
}

/// The IT following the decoded instruction, if one can be folded into it.
pub open spec fn fold_candidate(instr: Instruction, length: u8, head: Seq<u16>, xpsr: XPSR) -> Option<Instruction> {
    if can_fold(instr, length, head) && spec_decode_short(head[1], xpsr) is IfThen {
        Some(spec_decode_short(head[1], xpsr))
    } else {
        None
    }
}

/// The decode phase of a folded instruction: an IT right after a foldable 16-bit
/// instruction is decoded with it, and the step becomes two halfwords long.
pub open spec fn folded_phase(state: DecodeState, head: Seq<u16>) -> DecodeState {
    match state {
        DecodeState::WaitingForFetchAndExecute => state,
        DecodeState::AGUWaitingForData {
            addr,
            instr,
            folded_instr,
            length,
            dirty_registers,
            postponed_advance_head,
            xpsr,
        } => match fold_candidate(instr, length, head, xpsr) {
            Some(it) => DecodeState::AGUWaitingForData {
                addr,
                instr,
                folded_instr: Some(it),
                length: 2,
                dirty_registers,
                postponed_advance_head,
                xpsr,
            },
            None => state,
        },
        DecodeState::NotifyFetchAboutBranch {
            addr,
            instr,
            folded_instr,
            length,
            dirty_registers,
            postponed_advance_head,
            lr_is_dirty,
            xpsr,
        } => match fold_candidate(instr, length, head, xpsr) {
            Some(it) => DecodeState::NotifyFetchAboutBranch {
                addr,
                instr,
                folded_instr: Some(it),
                length: 2,
                dirty_registers,
                postponed_advance_head,
                lr_is_dirty,
                xpsr,
            },
            None => state,
        },
        DecodeState::ResultReady { value, postponed_advance_head, xpsr } => match fold_candidate(
            value.instruction,
            value.length,
            head,
            xpsr,
        ) {
            Some(it) => ready(
                value.instruction,
                Some(it),
                value.address,
                value.branch_kind,
                value.branch_was_mispredicted,
                2,
                postponed_advance_head,
                xpsr,
            ),
            None => state,
        },
    }
}

/// The registers that cannot be read are updated in the states that wait for them.
pub open spec fn with_dirty(state: DecodeState, dirty: RegisterBitmap) -> DecodeState {
    match state {
        DecodeState::AGUWaitingForData {
            addr,
            instr,
            folded_instr,
            length,
            postponed_advance_head,
            xpsr,
            ..
        } => DecodeState::AGUWaitingForData {
            addr,
            instr,
            folded_instr,
            length,
            dirty_registers: dirty,
            postponed_advance_head,
            xpsr,
        },
        DecodeState::NotifyFetchAboutBranch {
            addr,
            instr,
            folded_instr,
            length,
            postponed_advance_head,
            lr_is_dirty,
            xpsr,
            ..
        } => DecodeState::NotifyFetchAboutBranch {
            addr,
            instr,
            folded_instr,
            length,
            dirty_registers: dirty,
            postponed_advance_head,
            lr_is_dirty,
            xpsr,
        },
        _ => state,
    }
}

/// The AGU phase: once the registers it reads are available (the PC reading as the
/// instruction address plus 4), the address is computed and the result is ready.
pub open spec fn agu_phase(state: DecodeState, registers: Seq<Word>, ff: Option<(RegisterID, Word)>) -> (DecodeState, Option<Word>) {
    match state {
        DecodeState::AGUWaitingForData {
            addr,
            instr,
            folded_instr,
            length,
            dirty_registers,
            postponed_advance_head,
            xpsr,
        } => match agu_value(
            agu_form(instr),
            registers.update(15, wrap_add(addr.0, 4)),
            dirty_registers,
            ff,
        ) {
            Some(v) => (
                ready(
                    instr,
                    folded_instr,
                    addr,
                    Brchstat::classify(instr, dirty_registers.has(RegisterID::LR), xpsr.in_it()),
                    false,
                    length,
                    postponed_advance_head,
                    xpsr,
                ),
                Some(v),
            ),
            None => (state, None),
        },
        _ => (state, None),
    }
}

/// `BX LR`, `BLX LR` or `MOV PC, LR` reads LR at decode time.
pub open spec fn reads_lr_at_decode(instr: Instruction) -> bool {
    !(instr is Branch) && !(instr is BranchWithLink_Immediate)
}

/// A decode-time branch that reads LR must not find LR being written.
pub open spec fn lr_readable(state: DecodeState) -> bool {
    match state {
        DecodeState::NotifyFetchAboutBranch { instr, dirty_registers, lr_is_dirty, xpsr, .. } =>
            Brchstat::classify(instr, lr_is_dirty, xpsr.in_it()).decode_time() && reads_lr_at_decode(
            instr) ==> (dirty_registers.has(RegisterID::LR) ==> lr_is_dirty),
        _ => true,
    }
}

/// The branch phase: a decode-time branch is handed to fetch with its target (the PC plus
/// the offset, or LR), unless `BX LR` returns from an exception; a conditional `B` waits
/// while a flag-setting `MUL` is in a busy execute.
pub open spec fn branch_phase(state: DecodeState, muls_bcond_stall: bool, view: DecodeView) -> (DecodeState, Option<(Word, Brchstat, bool)>) {
    match state {
        DecodeState::NotifyFetchAboutBranch {
            addr,
            instr,
            folded_instr,
            length,
            postponed_advance_head,
            lr_is_dirty,
            xpsr,
            ..
        } => {
            let kind = Brchstat::classify(instr, lr_is_dirty, xpsr.in_it());
            if (instr matches Instruction::Branch { cond, .. } && cond.0 != 14) && muls_bcond_stall
                && !view.execute_is_free {
                (state, None)
            } else if kind.decode_time() {
                let will_fail = kind.conditional() && !Brchstat::condition_holds(instr, xpsr);
                let mispredicted = kind.speculative() && will_fail;
                let folded = if will_fail { folded_instr } else { None };
                match instr {
                    Instruction::Branch { imm32, .. } => (
                        ready(instr, folded, addr, kind, mispredicted, length, postponed_advance_head, xpsr),
                        Some((wrap_add(wrap_add(addr.0, 4), imm32 as int), kind, mispredicted)),
                    ),
                    Instruction::BranchWithLink_Immediate { imm32 } => (
                        ready(instr, folded, addr, kind, mispredicted, length, postponed_advance_head, xpsr),
                        Some((wrap_add(wrap_add(addr.0, 4), imm32 as int), kind, mispredicted)),
                    ),
                    _ => if instr is BranchAndExchange && view.lr_returns_from_exception {
                        (
                            ready(
                                instr,
                                folded,
                                addr,
                                Brchstat::ExecuteTimeUnconditional,
                                false,
                                length,
                                postponed_advance_head,
                                xpsr,
                            ),
                            None,
                        )
                    } else {
                        (
                            ready(instr, folded, addr, kind, mispredicted, length, postponed_advance_head, xpsr),
                            Some((view.registers@[14], kind, mispredicted)),
                        )
                    },
                }
            } else {
                (ready(instr, folded_instr, addr, kind, false, length, postponed_advance_head, xpsr), None)
            }
        },
        _ => (state, None),
    }
}

/// A skipped instruction whose AGU is stalled gives up on the AGU: it is ready, with no
/// branch.
pub open spec fn skip_stalled_agu(state: DecodeState, xpsr: XPSR) -> DecodeState {
    match state {
        DecodeState::AGUWaitingForData {
            addr,
            instr,
            folded_instr,
            length,
            postponed_advance_head,
            xpsr: decoded_xpsr,
            ..
        } => if skipped_in_it(xpsr) {
            ready(instr, folded_instr, addr, Brchstat::NoBranch, false, length, postponed_advance_head, decoded_xpsr)
        } else {
            state
        },
        _ => state,
    }
}

/// The state before the branch phase of a decode step that does not find a ready result.
pub open spec fn state_before_branch_phase(
    state: DecodeState,
    prev_lr: bool,
    view: DecodeView,
    dirty: RegisterBitmap,
    xpsr: XPSR,
    postponed: bool,
) -> DecodeState {
    let decoded = folded_phase(main_phase(state, prev_lr, view, dirty, xpsr, postponed), view.head@);
    agu_phase(with_dirty(decoded, dirty), view.registers@, None).0
}

impl Decode {
    /// The state machine's invariant.
    pub open spec fn wf(self) -> bool {
        state_wf(self.state)
    }

    /// What a decode step does: the new state and the actions.
    pub open spec fn decode_step(self, trigger: TriggerData, view: DecodeView) -> (DecodeState, DecodeActions) {
        match trigger {
            TriggerData::IgnoreCurrent => (
                DecodeState::WaitingForFetchAndExecute,
                DecodeActions { agu_result: None, decode_time_branch: None, speculation: None },
            ),
            TriggerData::DecodeCurrent { dirty_registers, xpsr, postponed_advance_head } => {
                let s1 = skip_stalled_agu(self.state, xpsr);
                if s1 is ResultReady {
                    let resolved = resolve_speculation(s1, Some(xpsr));
                    let s3 = if resolved.0.folded() { resolved.0 } else { folded_phase(resolved.0, view.head@) };
                    (s3, DecodeActions { agu_result: None, decode_time_branch: None, speculation: resolved.1 })
                } else {
                    let decoded = folded_phase(
                        main_phase(s1, self.prev_instruction_writes_lr, view, dirty_registers, xpsr, postponed_advance_head),
                        view.head@,
                    );
                    let agu = agu_phase(with_dirty(decoded, dirty_registers), view.registers@, None);
                    let branch = branch_phase(agu.0, self.muls_bcond_stall, view);
                    (
                        branch.0,
                        DecodeActions { agu_result: agu.1, decode_time_branch: branch.1, speculation: None },
                    )
                }
            },
        }
    }

    /// Whether a decode step can run: the shadow head has two halfwords, and a decode-time
    /// branch reading LR does not find LR being written.
    pub open spec fn can_step(self, trigger: TriggerData, view: DecodeView) -> bool {
        &&& view.shadow_head@.len() == 2
        &&& match trigger {
            TriggerData::IgnoreCurrent => true,
            TriggerData::DecodeCurrent { dirty_registers, xpsr, postponed_advance_head } => {
                let s1 = skip_stalled_agu(self.state, xpsr);
                !(s1 is ResultReady) ==> lr_readable(
                    state_before_branch_phase(
                        s1,
                        self.prev_instruction_writes_lr,
                        view,
                        dirty_registers,
                        xpsr,
                        postponed_advance_head,
                    ),
                )
            },
        }
    }
}


/// The decoders give register-offset transfers only left shifts.
pub proof fn lemma_decoded_lsl(head: Seq<u16>, xpsr: XPSR)
    requires
        head.len() > 0,
        starts_long(head[0]) ==> head.len() > 1,
    ensures
        lsl_offsets_only(decoded_head(head, xpsr).0),
{
    if starts_long(head[0]) {
        crate::thumb32::lemma_decode_long_lsl((head[0] * 0x1_0000 + head[1]) as u32, xpsr);
    } else {
        crate::thumb16::lemma_decode_short_lsl(head[0], xpsr);
    }
}

/// Instructions whose target Decode computes are branches.
pub proof fn lemma_branch_action_is_branch(instr: Instruction)
    requires
        spec_additional_action(instr) is Branch,
    ensures
        instr.branch_like(),
        reads_lr_at_decode(instr) ==> (instr is BranchAndExchange || instr is BranchWithLinkAndExchange_Register
            || instr is Move_Register),
{
}

/// The value a fast-forwarded register has for the AGU: SP is word aligned.
pub open spec fn forwarded_value(register: RegisterID, value: Word) -> Word {
    if register == RegisterID::SP {
        (value - value % 4) as Word
    } else {
        value
    }
}

impl Decode {
    /// What moving the pipeline does: the new stage and what it hands on.
    pub open spec fn moved(self, phony_multicycle_nop: bool) -> (Decode, PipelineMove) {
        let resolved = resolve_speculation(self.state, None);
        match resolved.0 {
            DecodeState::ResultReady { value, postponed_advance_head, xpsr } => {
                let instr = value.instruction;
                let skipped = skipped_in_it(xpsr) && !instr.unconditional_in_it();
                let clear = !self.config.clear_only_without_phony_nop || !phony_multicycle_nop;
                let sets = (!skipped || self.config.skipped_sets_flag) && (!instr.branch_with_link()
                    || self.config.bl_sets_flag);
                let writes_lr = RegisterBitmap(spec_written_registers(instr)).has(RegisterID::LR);
                let flag_setting_mul = instr matches Instruction::Multiply { setflags_depends_on_it, .. }
                    && setflags_depends_on_it;
                (
                    Decode {
                        state: DecodeState::WaitingForFetchAndExecute,
                        prev_instruction_writes_lr: (!clear && self.prev_instruction_writes_lr) || (sets
                            && writes_lr),
                        muls_bcond_stall: (!clear && self.muls_bcond_stall) || flag_setting_mul,
                        config: self.config,
                    },
                    PipelineMove {
                        step: value,
                        postponed_advance_head,
                        phony_multicycle_nop,
                        xpsr,
                        speculation: resolved.1,
                    },
                )
            },
            _ => (self, arbitrary()),
        }
    }

    /// A stage waiting for fetch and execute.
    pub fn new(config: LrFlagConfig) -> (r: Decode)
        ensures
            r.wf(),
            r.state is WaitingForFetchAndExecute,
            !r.prev_instruction_writes_lr,
            !r.muls_bcond_stall,
            r.config == config,
    {
        Decode {
            state: DecodeState::WaitingForFetchAndExecute,
            prev_instruction_writes_lr: false,
            muls_bcond_stall: false,
            config,
        }
    }

    /// Whether a result waits for the pipeline to move.
    pub fn is_ready(&self) -> (r: bool)
        ensures
            r == (self.state is ResultReady),
    {
        matches!(self.state, DecodeState::ResultReady { .. })
    }

    /// Whether the AGU waits for data.
    pub fn is_agu_stalled(&self) -> (r: bool)
        ensures
            r == (self.state is AGUWaitingForData),
    {
        matches!(self.state, DecodeState::AGUWaitingForData { .. })
    }

    /// Decoded size in halfwords and whether an instruction is folded.
    pub fn get_decoded_size(&self) -> (r: (u8, bool))
        ensures
            r.0 == match self.state {
                DecodeState::WaitingForFetchAndExecute => 0u8,
                DecodeState::AGUWaitingForData { length, .. } => length,
                DecodeState::NotifyFetchAboutBranch { length, .. } => length,
                DecodeState::ResultReady { value, .. } => value.length,
            },
            r.1 == self.state.folded(),
    {
        self.state.get_decoded_size()
    }

    /// The ready instruction, whether its IT condition fails, whether an instruction is
    /// folded with it, and whether it is tainted by an IT in the shadow head.
    pub fn peek_instruction(&self, shadow_head: &FDReg) -> (r: (Instruction, bool, bool, bool))
        requires
            self.state is ResultReady,
            shadow_head@.len() == 2,
        ensures
            r.0 == self.state->value.instruction,
            r.1 == skipped_in_it(self.state->ResultReady_xpsr),
            r.2 == self.state->value.folded_instruction is Some,
            r.3 == (it_pattern(shadow_head@[1]) && !starts_long(shadow_head@[0])),
    {
        let tainted = is_instr_tainted(shadow_head);
        match self.state {
            DecodeState::ResultReady { value, xpsr, .. } => (
                value.instruction,
                xpsr.in_it_block() && !xpsr.it_condition_passed(),
                value.folded_instruction.is_some(),
                tainted,
            ),
            _ => (Instruction::Undefined, false, false, false),
        }
    }

    /// What execute is asked about when the pipeline moves: the ready instruction, whether
    /// it is skipped, and whether the second halfword of the shadow head looks like an IT.
    pub fn move_pipeline_query(&self, shadow_head: &FDReg) -> (r: (Instruction, bool, bool))
        requires
            self.state is ResultReady,
            shadow_head@.len() == 2,
        ensures
            r.0 == self.state->value.instruction,
            r.1 == (skipped_in_it(self.state->ResultReady_xpsr) && !self.state->value.instruction.unconditional_in_it()),
            r.2 == it_pattern(shadow_head@[1]),
    {
        let second = match shadow_head.get(1) {
            Some(h) => h,
            None => 0,
        };
        match self.state {
            DecodeState::ResultReady { value, xpsr, .. } => (
                value.instruction,
                xpsr.in_it_block() && !xpsr.it_condition_passed()
                    && !value.instruction.is_unconditional_in_it_block(),
                looks_like_it(second),
            ),
            _ => (Instruction::Undefined, false, false),
        }
    }

    fn handle_stalled_speculative_branches(&mut self, new_xpsr: Option<XPSR>) -> (r: Option<bool>)
        requires
            old(self).wf(),
        ensures
            final(self).state == resolve_speculation(old(self).state, new_xpsr).0,
            r == resolve_speculation(old(self).state, new_xpsr).1,
            final(self).wf(),
            final(self).prev_instruction_writes_lr == old(self).prev_instruction_writes_lr,
            final(self).muls_bcond_stall == old(self).muls_bcond_stall,
            final(self).config == old(self).config,
    {
        if let DecodeState::ResultReady { value, postponed_advance_head, xpsr } = self.state {
            if value.branch_kind.is_speculative() {
                let flags = match new_xpsr {
                    Some(n) => n,
                    None => xpsr,
                };
                let taken = value.branch_kind.evaluate_condition(&value.instruction, flags);
                let branch_kind = if taken {
                    Brchstat::ConditionalTaken
                } else {
                    Brchstat::NoBranch
                };
                self.state = DecodeState::ResultReady {
                    value: PipelineStepPack {
                        instruction: value.instruction,
                        folded_instruction: value.folded_instruction,
                        address: value.address,
                        branch_kind,
                        branch_was_mispredicted: value.branch_was_mispredicted,
                        length: value.length,
                    },
                    postponed_advance_head,
                    xpsr,
                };
                return Some(taken);
            }
        }
        None
    }

    fn run_decode_phase_for_main_instruction(
        &mut self,
        view: &DecodeView,
        dirty_registers: RegisterBitmap,
        xpsr: XPSR,
        postponed_advance_head: bool,
    )
        requires
            old(self).wf(),
            view.shadow_head@.len() == 2,
        ensures
            final(self).state == main_phase(
                old(self).state,
                old(self).prev_instruction_writes_lr,
                *view,
                dirty_registers,
                xpsr,
                postponed_advance_head,
            ),
            final(self).wf(),
            final(self).prev_instruction_writes_lr == old(self).prev_instruction_writes_lr,
            final(self).muls_bcond_stall == old(self).muls_bcond_stall,
            final(self).config == old(self).config,
    {
        if !matches!(self.state, DecodeState::WaitingForFetchAndExecute) {
            return;
        }
        let len = view.head.len();
        if len == 0 {
            return;
        }
        let first = match view.head.get(0) {
            Some(h) => h,
            None => 0,
        };
        let head_is_long = is_long_instruction(first);
        if head_is_long && len < 2 {
            return;
        }
        let (instr, length) = if head_is_long {
            let second = match view.head.get(1) {
                Some(h) => h,
                None => 0,
            };
            let value = (first as u32) * 0x1_0000 + second as u32;
            assert(value / 0x1_0000 == first);
            (decode_long_instruction(value, xpsr), 2u8)
        } else {
            (decode_short_instruction(first, xpsr), 1u8)
        };
        proof {
            lemma_decoded_lsl(view.head@, xpsr);
        }
        let lr_considered_dirty = self.prev_instruction_writes_lr;
        let skipped = xpsr.in_it_block() && !xpsr.it_condition_passed();
        let tainted_dependency = match view.last_effective_instruction {
            Some(last) => last.is_lsu_instruction() && instruction_writes_back(&last)
                && is_instr_tainted(&view.shadow_head),
            None => false,
        };
        let action = get_additional_action(&instr);
        self.state = if matches!(action, AdditionalAction::ComputeAGUValue) && (!skipped
            || view.flags_on_critical_path_to_agu || tainted_dependency) {
            DecodeState::AGUWaitingForData {
                addr: view.head_address,
                instr,
                folded_instr: None,
                length,
                dirty_registers,
                postponed_advance_head,
                xpsr,
            }
        } else if matches!(action, AdditionalAction::Branch) {
            DecodeState::NotifyFetchAboutBranch {
                addr: view.head_address,
                instr,
                folded_instr: None,
                length,
                dirty_registers,
                postponed_advance_head,
                lr_is_dirty: lr_considered_dirty,
                xpsr,
            }
        } else {
            DecodeState::ResultReady {
                value: PipelineStepPack {
                    address: view.head_address,
                    instruction: instr,
                    length,
                    folded_instruction: None,
                    branch_was_mispredicted: false,
                    branch_kind: Brchstat::from_instruction(&instr, lr_considered_dirty, xpsr.in_it_block()),
                },
                postponed_advance_head,
                xpsr,
            }
        };
    }

    fn fold_candidate(instr: &Instruction, length: u8, head: &FDReg, xpsr: XPSR) -> (r: Option<Instruction>)
        ensures
            r == fold_candidate(*instr, length, head@, xpsr),
    {
        if length == 1 && is_second_instruction_short(head) && !instr.is_lsu_instruction()
            && !instr.is_branch() && !matches!(instr, Instruction::ChangeProcessorState { .. })
            && !matches!(instr, Instruction::Compare_Register { rn: RegisterID::SP, .. })
            && !written_registers(*instr).get(RegisterID::SP) {
            let second = match head.get(1) {
                Some(h) => h,
                None => 0,
            };
            let it = decode_short_instruction(second, xpsr);
            if matches!(it, Instruction::IfThen { .. }) {
                Some(it)
            } else {
                None
            }
        } else {
            None
        }
    }

    fn run_decode_phase_for_folded_instruction(&mut self, head: &FDReg)
        requires
            old(self).wf(),
        ensures
            final(self).state == folded_phase(old(self).state, head@),
            final(self).wf(),
            final(self).prev_instruction_writes_lr == old(self).prev_instruction_writes_lr,
            final(self).muls_bcond_stall == old(self).muls_bcond_stall,
            final(self).config == old(self).config,
    {
        match self.state {
            DecodeState::WaitingForFetchAndExecute => {},
            DecodeState::AGUWaitingForData {
                addr,
                instr,
                length,
                dirty_registers,
                postponed_advance_head,
                xpsr,
                ..
            } => {
                if let Some(it) = Self::fold_candidate(&instr, length, head, xpsr) {
                    self.state = DecodeState::AGUWaitingForData {
                        addr,
                        instr,
                        folded_instr: Some(it),
                        length: 2,
                        dirty_registers,
                        postponed_advance_head,
                        xpsr,
                    };
                }
            },
            DecodeState::NotifyFetchAboutBranch {
                addr,
                instr,
                length,
                dirty_registers,
                postponed_advance_head,
                lr_is_dirty,
                xpsr,
                ..
            } => {
                proof {
                    lemma_branch_action_is_branch(instr);
                }
                if let Some(it) = Self::fold_candidate(&instr, length, head, xpsr) {
                    self.state = DecodeState::NotifyFetchAboutBranch {
                        addr,
                        instr,
                        folded_instr: Some(it),
                        length: 2,
                        dirty_registers,
                        postponed_advance_head,
                        lr_is_dirty,
                        xpsr,
                    };
                }
            },
            DecodeState::ResultReady { value, postponed_advance_head, xpsr } => {
                if let Some(it) = Self::fold_candidate(&value.instruction, value.length, head, xpsr) {
                    self.state = DecodeState::ResultReady {
                        value: PipelineStepPack {
                            instruction: value.instruction,
                            folded_instruction: Some(it),
                            address: value.address,
                            branch_kind: value.branch_kind,
                            branch_was_mispredicted: value.branch_was_mispredicted,
                            length: 2,
                        },
                        postponed_advance_head,
                        xpsr,
                    };
                }
            },
        }
    }

    fn run_agu_phase(
        &mut self,
        new_dirty_registers: Option<RegisterBitmap>,
        registers: &[Word; 16],
        fast_forwarded_reg: Option<(RegisterID, Word)>,
    ) -> (r: Option<Word>)
        requires
            old(self).wf(),
        ensures
            ({
                let updated = match new_dirty_registers {
                    Some(d) => with_dirty(old(self).state, d),
                    None => old(self).state,
                };
                &&& final(self).state == agu_phase(updated, registers@, fast_forwarded_reg).0
                &&& r == agu_phase(updated, registers@, fast_forwarded_reg).1
            }),
            final(self).wf(),
            final(self).prev_instruction_writes_lr == old(self).prev_instruction_writes_lr,
            final(self).muls_bcond_stall == old(self).muls_bcond_stall,
            final(self).config == old(self).config,
    {
        if let Some(dirty) = new_dirty_registers {
            match self.state {
                DecodeState::AGUWaitingForData {
                    addr,
                    instr,
                    folded_instr,
                    length,
                    postponed_advance_head,
                    xpsr,
                    ..
                } => {
                    self.state = DecodeState::AGUWaitingForData {
                        addr,
                        instr,
                        folded_instr,
                        length,
                        dirty_registers: dirty,
                        postponed_advance_head,
                        xpsr,
                    };
                },
                DecodeState::NotifyFetchAboutBranch {
                    addr,
                    instr,
                    folded_instr,
                    length,
                    postponed_advance_head,
                    lr_is_dirty,
                    xpsr,
                    ..
                } => {
                    self.state = DecodeState::NotifyFetchAboutBranch {
                        addr,
                        instr,
                        folded_instr,
                        length,
                        dirty_registers: dirty,
                        postponed_advance_head,
                        lr_is_dirty,
                        xpsr,
                    };
                },
                _ => {},
            }
        }
        if let DecodeState::AGUWaitingForData {
            addr,
            instr,
            folded_instr,
            length,
            dirty_registers,
            postponed_advance_head,
            xpsr,
        } = self.state {
            proof {
                crate::agu::lemma_agu_action_has_form(instr);
            }
            let mut with_pc = *registers;
            with_pc[15] = get_pc_value(addr);
            assert(with_pc@ == registers@.update(15, wrap_add(addr.0, 4)));
            match compute_agu_value(&with_pc, &instr, dirty_registers, fast_forwarded_reg) {
                Some(value) => {
                    self.state = DecodeState::ResultReady {
                        value: PipelineStepPack {
                            address: addr,
                            instruction: instr,
                            length,
                            folded_instruction: folded_instr,
                            branch_was_mispredicted: false,
                            branch_kind: Brchstat::from_instruction(
                                &instr,
                                dirty_registers.get(RegisterID::LR),
                                xpsr.in_it_block(),
                            ),
                        },
                        postponed_advance_head,
                        xpsr,
                    };
                    Some(value)
                },
                None => None,
            }
        } else {
            None
        }
    }
}


impl Decode {
    fn run_branch_phase(&mut self, view: &DecodeView) -> (r: Option<(Word, Brchstat, bool)>)
        requires
            old(self).wf(),
            lr_readable(old(self).state),
        ensures
            final(self).state == branch_phase(old(self).state, old(self).muls_bcond_stall, *view).0,
            r == branch_phase(old(self).state, old(self).muls_bcond_stall, *view).1,
            final(self).wf(),
            final(self).prev_instruction_writes_lr == old(self).prev_instruction_writes_lr,
            final(self).muls_bcond_stall == old(self).muls_bcond_stall,
            final(self).config == old(self).config,
    {
        if let DecodeState::NotifyFetchAboutBranch {
            addr,
            instr,
            folded_instr,
            length,
            postponed_advance_head,
            lr_is_dirty,
            xpsr,
            ..
        } = self.state {
            proof {
                lemma_branch_action_is_branch(instr);
            }
            let branch_kind = Brchstat::from_instruction(&instr, lr_is_dirty, xpsr.in_it_block());
            let conditional_b = match instr {
                Instruction::Branch { cond, .. } => !cond.is_al(),
                _ => false,
            };
            if conditional_b && self.muls_bcond_stall && !view.execute_is_free {
                return None;
            }
            if branch_kind.is_decode_time() {
                let condition_will_fail = branch_kind.is_conditional() && !branch_kind.evaluate_condition(
                    &instr,
                    xpsr,
                );
                let branch_is_mispredicted = branch_kind.is_speculative() && condition_will_fail;
                let folded = if condition_will_fail {
                    folded_instr
                } else {
                    None
                };
                let target = match instr {
                    Instruction::Branch { imm32, .. } => crate::common::word_add(get_pc_value(addr), imm32),
                    Instruction::BranchWithLink_Immediate { imm32 } => crate::common::word_add(
                        get_pc_value(addr),
                        imm32,
                    ),
                    _ => {
                        let is_bx = matches!(instr, Instruction::BranchAndExchange { .. });
                        if is_bx && view.lr_returns_from_exception {
                            self.state = DecodeState::ResultReady {
                                value: PipelineStepPack {
                                    instruction: instr,
                                    folded_instruction: folded,
                                    address: addr,
                                    branch_kind: Brchstat::ExecuteTimeUnconditional,
                                    branch_was_mispredicted: false,
                                    length,
                                },
                                postponed_advance_head,
                                xpsr,
                            };
                            return None;
                        }
                        view.registers[14]
                    },
                };
                self.state = DecodeState::ResultReady {
                    value: PipelineStepPack {
                        instruction: instr,
                        folded_instruction: folded,
                        address: addr,
                        branch_kind,
                        branch_was_mispredicted: branch_is_mispredicted,
                        length,
                    },
                    postponed_advance_head,
                    xpsr,
                };
                Some((target, branch_kind, branch_is_mispredicted))
            } else {
                self.state = DecodeState::ResultReady {
                    value: PipelineStepPack {
                        instruction: instr,
                        folded_instruction: folded_instr,
                        address: addr,
                        branch_kind,
                        branch_was_mispredicted: false,
                        length,
                    },
                    postponed_advance_head,
                    xpsr,
                };
                None
            }
        } else {
            None
        }
    }

    /// One decode step of a cycle, after execute has told decode what it may do.
    pub fn run_decode(&mut self, trigger_data: TriggerData, view: &DecodeView) -> (r: DecodeActions)
        requires
            old(self).wf(),
            old(self).can_step(trigger_data, *view),
        ensures
            final(self).wf(),
            final(self).state == old(self).decode_step(trigger_data, *view).0,
            r == old(self).decode_step(trigger_data, *view).1,
            final(self).prev_instruction_writes_lr == old(self).prev_instruction_writes_lr,
            final(self).muls_bcond_stall == (!(trigger_data is IgnoreCurrent) && old(self).muls_bcond_stall),
            final(self).config == old(self).config,
    {
        match trigger_data {
            TriggerData::IgnoreCurrent => {
                self.state = DecodeState::WaitingForFetchAndExecute;
                self.muls_bcond_stall = false;
                DecodeActions { agu_result: None, decode_time_branch: None, speculation: None }
            },
            TriggerData::DecodeCurrent { dirty_registers, xpsr, postponed_advance_head } => {
                if self.is_agu_stalled() && xpsr.in_it_block() && !xpsr.it_condition_passed() {
                    if let DecodeState::AGUWaitingForData {
                        addr,
                        instr,
                        folded_instr,
                        length,
                        postponed_advance_head,
                        xpsr,
                        ..
                    } = self.state {
                        self.state = DecodeState::ResultReady {
                            value: PipelineStepPack {
                                address: addr,
                                instruction: instr,
                                length,
                                folded_instruction: folded_instr,
                                branch_was_mispredicted: false,
                                branch_kind: Brchstat::NoBranch,
                            },
                            postponed_advance_head,
                            xpsr,
                        };
                    }
                }
                if self.is_ready() {
                    let speculation = self.handle_stalled_speculative_branches(Some(xpsr));
                    if !self.state.has_folded_instruction() {
                        self.run_decode_phase_for_folded_instruction(&view.head);
                    }
                    return DecodeActions { agu_result: None, decode_time_branch: None, speculation };
                }
                self.run_decode_phase_for_main_instruction(view, dirty_registers, xpsr, postponed_advance_head);
                self.run_decode_phase_for_folded_instruction(&view.head);
                let agu_result = self.run_agu_phase(Some(dirty_registers), &view.registers, None);
                let decode_time_branch = self.run_branch_phase(view);
                DecodeActions { agu_result, decode_time_branch, speculation: None }
            },
        }
    }

    /// A register value forwarded from execute reaches the AGU (SP word aligned).
    pub fn fast_forward_agu_register(&mut self, register: RegisterID, value: Word, registers: &[Word; 16]) -> (r: Option<Word>)
        requires
            old(self).wf(),
        ensures
            final(self).state == agu_phase(old(self).state, registers@, Some((register, forwarded_value(register, value)))).0,
            r == agu_phase(old(self).state, registers@, Some((register, forwarded_value(register, value)))).1,
            final(self).wf(),
            final(self).prev_instruction_writes_lr == old(self).prev_instruction_writes_lr,
            final(self).muls_bcond_stall == old(self).muls_bcond_stall,
            final(self).config == old(self).config,
    {
        let value = if register == RegisterID::SP {
            value - value % 4
        } else {
            value
        };
        self.run_agu_phase(None, registers, Some((register, value)))
    }

    /// Moves the pipeline by one step: the ready result goes to execute. A speculative
    /// branch still waiting is resolved first with the flags it was decoded with.
    /// `phony_multicycle_nop` is execute's answer to what [`Self::move_pipeline_query`] asks.
    pub fn move_pipeline(&mut self, phony_multicycle_nop: bool) -> (r: PipelineMove)
        requires
            old(self).wf(),
            old(self).state is ResultReady,
        ensures
            *final(self) == old(self).moved(phony_multicycle_nop).0,
            r == old(self).moved(phony_multicycle_nop).1,
            final(self).wf(),
    {
        let speculation = self.handle_stalled_speculative_branches(None);
        match self.state {
            DecodeState::ResultReady { value, postponed_advance_head, xpsr } => {
                let instr = value.instruction;
                let skipped = xpsr.in_it_block() && !xpsr.it_condition_passed()
                    && !instr.is_unconditional_in_it_block();
                self.state = DecodeState::WaitingForFetchAndExecute;
                let clear_lr_flag = !self.config.clear_only_without_phony_nop || !phony_multicycle_nop;
                if clear_lr_flag {
                    self.prev_instruction_writes_lr = false;
                    self.muls_bcond_stall = false;
                }
                if (!skipped || self.config.skipped_sets_flag) && (!instr.is_branch_with_link_instruction()
                    || self.config.bl_sets_flag) {
                    self.prev_instruction_writes_lr = self.prev_instruction_writes_lr
                        || written_registers(instr).get(RegisterID::LR);
                }
                if matches!(instr, Instruction::Multiply { setflags_depends_on_it: true, .. }) {
                    self.muls_bcond_stall = true;
                }
                PipelineMove {
                    step: value,
                    postponed_advance_head,
                    phony_multicycle_nop,
                    xpsr,
                    speculation,
                }
            },
            _ => {
                assert(false);
                PipelineMove {
                    step: PipelineStepPack {
                        instruction: Instruction::Undefined,
                        folded_instruction: None,
                        address: Address(0),
                        branch_kind: Brchstat::NoBranch,
                        branch_was_mispredicted: false,
                        length: 1,
                    },
                    postponed_advance_head: false,
                    phony_multicycle_nop,
                    xpsr: XPSR {
                        negative: false,
                        zero: false,
                        carry: false,
                        overflow: false,
                        saturation: false,
                        itstate: 0,
                    },
                    speculation,
                }
            },
        }
    }
}


/// An ignored cycle (pipeline refill) drops whatever decode held, asks nothing of the
/// rest of the core, and leaves decode not ready.
pub proof fn lemma_ignore_resets(d: Decode, view: DecodeView)
    ensures
        d.decode_step(TriggerData::IgnoreCurrent, view).0 is WaitingForFetchAndExecute,
        d.decode_step(TriggerData::IgnoreCurrent, view).1 == (DecodeActions {
            agu_result: None,
            decode_time_branch: None,
            speculation: None,
        }),
{
}

/// A decode-time branch handed to fetch is the branch of the step that goes to execute:
/// same kind, same misprediction, and the kind is a decode-time one.
pub proof fn lemma_branch_request_matches_step(d: Decode, trigger: TriggerData, view: DecodeView)
    requires
        d.wf(),
        d.decode_step(trigger, view).1.decode_time_branch is Some,
    ensures
        ({
            let (target, kind, mispredicted) = d.decode_step(trigger, view).1.decode_time_branch->0;
            &&& d.decode_step(trigger, view).0 is ResultReady
            &&& d.decode_step(trigger, view).0->value.branch_kind == kind
            &&& d.decode_step(trigger, view).0->value.branch_was_mispredicted == mispredicted
            &&& kind.decode_time()
        }),
{
}

/// A step that finds a ready result resolves a waiting speculative branch: afterwards
/// the result holds no speculative branch, and fetch is told exactly when one was waiting.
pub proof fn lemma_ready_step_resolves_speculation(d: Decode, view: DecodeView, dirty: RegisterBitmap, xpsr: XPSR, postponed: bool)
    requires
        d.wf(),
        d.state is ResultReady,
    ensures
        ({
            let trigger = TriggerData::DecodeCurrent { dirty_registers: dirty, xpsr, postponed_advance_head: postponed };
            let (state, actions) = d.decode_step(trigger, view);
            &&& state is ResultReady
            &&& !state->value.branch_kind.speculative()
            &&& actions.speculation is Some <==> d.state->value.branch_kind.speculative()
            &&& actions.agu_result is None
            &&& actions.decode_time_branch is None
        }),
{
}

/// Moving the pipeline leaves decode waiting for the next instruction and hands on a
/// step whose branch is no longer speculative, with its length of 1 or 2 halfwords.
pub proof fn lemma_move_leaves_waiting(d: Decode, phony_multicycle_nop: bool)
    requires
        d.wf(),
        d.state is ResultReady,
    ensures
        d.moved(phony_multicycle_nop).0.state is WaitingForFetchAndExecute,
        !d.moved(phony_multicycle_nop).1.step.branch_kind.speculative(),
        d.moved(phony_multicycle_nop).1.step.length == 1 || d.moved(phony_multicycle_nop).1.step.length == 2,
        d.moved(phony_multicycle_nop).0.config == d.config,
{
}

/// The AGU result is handed to the register bank exactly when a waiting AGU
/// computation completes, and the step it completes is never a decode-time branch.
pub proof fn lemma_agu_result_completes(state: DecodeState, registers: Seq<Word>, ff: Option<(RegisterID, Word)>)
    requires
        state_wf(state),
        state is AGUWaitingForData,
    ensures
        agu_phase(state, registers, ff).1 is Some <==> agu_phase(state, registers, ff).0 is ResultReady,
        agu_phase(state, registers, ff).0 is ResultReady ==> !agu_phase(state, registers, ff).0->value.branch_kind.decode_time(),
{
    let instr = state->AGUWaitingForData_instr;
    crate::agu::lemma_agu_branches_execute_time(
        instr,
        state->AGUWaitingForData_dirty_registers.has(RegisterID::LR),
        state->AGUWaitingForData_xpsr.in_it(),
    );
}

} // verus!
