//! The Decode stage: branch status, AGU address computation and helpers on the F/D halfwords.
use vstd::prelude::*;

use crate::common::{Address, Word, wrap_add};
use crate::fetch::buffers::FDReg;
use crate::instruction::Instruction;
use crate::registers::{RegisterBitmap, RegisterID, XPSR};

verus! {

// ---------------------------------------------------------------------------
// Classification of instructions
// ---------------------------------------------------------------------------

impl Instruction {
    /// Writes the PC as an ALU or LSU destination.
    pub open spec fn writes_pc(self) -> bool {
        match self {
            Instruction::Add_Register { rd, .. } => rd == RegisterID::PC,
            Instruction::Add_SPPlusRegister { rd, .. } => rd == RegisterID::PC,
            Instruction::Move_Register { rd, .. } => rd == RegisterID::PC,
            Instruction::LoadRegister_Immediate { rt, .. } => rt == RegisterID::PC,
            Instruction::LoadRegister_Literal { rt, .. } => rt == RegisterID::PC,
            Instruction::LoadRegister_Register { rt, .. } => rt == RegisterID::PC,
            Instruction::LoadMultiple { registers, .. } => registers.has(RegisterID::PC),
            Instruction::LoadMultipleDecrementBefore { registers, .. } => registers.has(
                RegisterID::PC,
            ),
            _ => false,
        }
    }

    /// Branch instructions and instructions that write the PC.
    pub open spec fn branch_like(self) -> bool {
        match self {
            Instruction::Branch { .. }
            | Instruction::BranchWithLink_Immediate { .. }
            | Instruction::BranchAndExchange { .. }
            | Instruction::BranchWithLinkAndExchange_Register { .. }
            | Instruction::CompareAndBranch { .. }
            | Instruction::TableBranch { .. } => true,
            _ => self.writes_pc(),
        }
    }

    pub fn is_branch(&self) -> (r: bool)
        ensures
            r == self.branch_like(),
    {
        match self {
            Instruction::Branch { .. }
            | Instruction::BranchWithLink_Immediate { .. }
            | Instruction::BranchAndExchange { .. }
            | Instruction::BranchWithLinkAndExchange_Register { .. }
            | Instruction::CompareAndBranch { .. }
            | Instruction::TableBranch { .. } => true,
            Instruction::Add_Register { rd, .. }
            | Instruction::Add_SPPlusRegister { rd, .. }
            | Instruction::Move_Register { rd, .. } => *rd == RegisterID::PC,
            Instruction::LoadRegister_Immediate { rt, .. }
            | Instruction::LoadRegister_Literal { rt, .. }
            | Instruction::LoadRegister_Register { rt, .. } => *rt == RegisterID::PC,
            Instruction::LoadMultiple { registers, .. }
            | Instruction::LoadMultipleDecrementBefore { registers, .. } => registers.get(
                RegisterID::PC,
            ),
            _ => false,
        }
    }

    /// Executed whatever the condition of an enclosing IT block.
    pub open spec fn unconditional_in_it(self) -> bool {
        self is Breakpoint
    }

    pub fn is_unconditional_in_it_block(&self) -> (r: bool)
        ensures
            r == self.unconditional_in_it(),
    {
        matches!(self, Instruction::Breakpoint { .. })
    }

    /// Branches that write the return address to LR.
    pub open spec fn branch_with_link(self) -> bool {
        self is BranchWithLink_Immediate || self is BranchWithLinkAndExchange_Register
    }

    pub fn is_branch_with_link_instruction(&self) -> (r: bool)
        ensures
            r == self.branch_with_link(),
    {
        matches!(
            self,
            Instruction::BranchWithLink_Immediate { .. }
                | Instruction::BranchWithLinkAndExchange_Register { .. }
        )
    }

    /// Instructions executed by the load/store unit: loads, stores and table branches.
    pub open spec fn lsu(self) -> bool {
        match self {
            Instruction::LoadMultiple { .. }
            | Instruction::LoadMultipleDecrementBefore { .. }
            | Instruction::LoadRegisterByteUnprivileged { .. }
            | Instruction::LoadRegisterByte_Immediate { .. }
            | Instruction::LoadRegisterByte_Literal { .. }
            | Instruction::LoadRegisterByte_Register { .. }
            | Instruction::LoadRegisterDual_Immediate { .. }
            | Instruction::LoadRegisterDual_Literal { .. }
            | Instruction::LoadRegisterExclusive { .. }
            | Instruction::LoadRegisterExclusiveByte { .. }
            | Instruction::LoadRegisterExclusiveHalfword { .. }
            | Instruction::LoadRegisterHalfwordUnprivileged { .. }
            | Instruction::LoadRegisterHalfword_Immediate { .. }
            | Instruction::LoadRegisterHalfword_Literal { .. }
            | Instruction::LoadRegisterHalfword_Register { .. }
            | Instruction::LoadRegisterSignedByteUnprivileged { .. }
            | Instruction::LoadRegisterSignedByte_Immediate { .. }
            | Instruction::LoadRegisterSignedByte_Literal { .. }
            | Instruction::LoadRegisterSignedByte_Register { .. }
            | Instruction::LoadRegisterSignedHalfwordUnprivileged { .. }
            | Instruction::LoadRegisterSignedHalfword_Immediate { .. }
            | Instruction::LoadRegisterSignedHalfword_Literal { .. }
            | Instruction::LoadRegisterSignedHalfword_Register { .. }
            | Instruction::LoadRegisterUnprivileged { .. }
            | Instruction::LoadRegister_Immediate { .. }
            | Instruction::LoadRegister_Literal { .. }
            | Instruction::LoadRegister_Register { .. }
            | Instruction::StoreMultiple { .. }
            | Instruction::StoreMultipleDecrementBefore { .. }
            | Instruction::StoreRegisterByteUnprivileged { .. }
            | Instruction::StoreRegisterByte_Immediate { .. }
            | Instruction::StoreRegisterByte_Register { .. }
            | Instruction::StoreRegisterDual_Immediate { .. }
            | Instruction::StoreRegisterExclusive { .. }
            | Instruction::StoreRegisterExclusiveByte { .. }
            | Instruction::StoreRegisterExclusiveHalfword { .. }
            | Instruction::StoreRegisterHalfwordUnprivileged { .. }
            | Instruction::StoreRegisterHalfword_Immediate { .. }
            | Instruction::StoreRegisterHalfword_Register { .. }
            | Instruction::StoreRegisterUnprivileged { .. }
            | Instruction::StoreRegister_Immediate { .. }
            | Instruction::StoreRegister_Register { .. }
            | Instruction::TableBranch { .. } => true,
            _ => false,
        }
    }

    pub fn is_lsu_instruction(&self) -> (r: bool)
        ensures
            r == self.lsu(),
    {
        match self {
            Instruction::LoadMultiple { .. }
            | Instruction::LoadMultipleDecrementBefore { .. }
            | Instruction::LoadRegisterByteUnprivileged { .. }
            | Instruction::LoadRegisterByte_Immediate { .. }
            | Instruction::LoadRegisterByte_Literal { .. }
            | Instruction::LoadRegisterByte_Register { .. }
            | Instruction::LoadRegisterDual_Immediate { .. }
            | Instruction::LoadRegisterDual_Literal { .. }
            | Instruction::LoadRegisterExclusive { .. }
            | Instruction::LoadRegisterExclusiveByte { .. }
            | Instruction::LoadRegisterExclusiveHalfword { .. }
            | Instruction::LoadRegisterHalfwordUnprivileged { .. }
            | Instruction::LoadRegisterHalfword_Immediate { .. }
            | Instruction::LoadRegisterHalfword_Literal { .. }
            | Instruction::LoadRegisterHalfword_Register { .. }
            | Instruction::LoadRegisterSignedByteUnprivileged { .. }
            | Instruction::LoadRegisterSignedByte_Immediate { .. }
            | Instruction::LoadRegisterSignedByte_Literal { .. }
            | Instruction::LoadRegisterSignedByte_Register { .. }
            | Instruction::LoadRegisterSignedHalfwordUnprivileged { .. }
            | Instruction::LoadRegisterSignedHalfword_Immediate { .. }
            | Instruction::LoadRegisterSignedHalfword_Literal { .. }
            | Instruction::LoadRegisterSignedHalfword_Register { .. }
            | Instruction::LoadRegisterUnprivileged { .. }
            | Instruction::LoadRegister_Immediate { .. }
            | Instruction::LoadRegister_Literal { .. }
            | Instruction::LoadRegister_Register { .. }
            | Instruction::StoreMultiple { .. }
            | Instruction::StoreMultipleDecrementBefore { .. }
            | Instruction::StoreRegisterByteUnprivileged { .. }
            | Instruction::StoreRegisterByte_Immediate { .. }
            | Instruction::StoreRegisterByte_Register { .. }
            | Instruction::StoreRegisterDual_Immediate { .. }
            | Instruction::StoreRegisterExclusive { .. }
            | Instruction::StoreRegisterExclusiveByte { .. }
            | Instruction::StoreRegisterExclusiveHalfword { .. }
            | Instruction::StoreRegisterHalfwordUnprivileged { .. }
            | Instruction::StoreRegisterHalfword_Immediate { .. }
            | Instruction::StoreRegisterHalfword_Register { .. }
            | Instruction::StoreRegisterUnprivileged { .. }
            | Instruction::StoreRegister_Immediate { .. }
            | Instruction::StoreRegister_Register { .. }
            | Instruction::TableBranch { .. } => true,
            _ => false,
        }
    }
}

// ---------------------------------------------------------------------------
// Branch status
// ---------------------------------------------------------------------------

/// Branch status of the instruction in Decode.
///
/// Execute-time branches may keep this while the previous operation is stalled.
/// Some upcoming execute-time branches may suppress prefetching of next instructions.
#[derive(Clone, Copy, Debug, PartialEq, Eq, Structural)]
pub enum Brchstat {
    NoBranch,
    DecodeTimeConditionalBackwards,
    DecodeTimeConditional,
    ExecuteTimeConditional,
    DecodeTimeUnconditional,
    ExecuteTimeUnconditional,
    /// Only a cycle after `DecodeTimeConditional*`.
    ConditionalTaken,
}

impl Brchstat {
    pub open spec fn speculative(self) -> bool {
        self is DecodeTimeConditional || self is DecodeTimeConditionalBackwards
    }

    pub open spec fn decode_time(self) -> bool {
        self is DecodeTimeConditional || self is DecodeTimeConditionalBackwards
            || self is DecodeTimeUnconditional || self is ConditionalTaken
    }

    pub open spec fn execute_time(self) -> bool {
        self is ExecuteTimeConditional || self is ExecuteTimeUnconditional
    }

    pub open spec fn conditional(self) -> bool {
        self is DecodeTimeConditional || self is DecodeTimeConditionalBackwards
            || self is ExecuteTimeConditional
    }

    /// The 4-bit code of the status on the branch status interface.
    pub fn status_bits(self) -> (r: u8)
        ensures
            r == match self {
                Brchstat::NoBranch => 0u8,
                Brchstat::DecodeTimeConditionalBackwards => 1u8,
                Brchstat::DecodeTimeConditional => 2u8,
                Brchstat::ExecuteTimeConditional => 3u8,
                Brchstat::DecodeTimeUnconditional => 4u8,
                Brchstat::ExecuteTimeUnconditional => 5u8,
                Brchstat::ConditionalTaken => 8u8,
            },
    {
        match self {
            Brchstat::NoBranch => 0b0000,
            Brchstat::DecodeTimeConditionalBackwards => 0b0001,
            Brchstat::DecodeTimeConditional => 0b0010,
            Brchstat::ExecuteTimeConditional => 0b0011,
            Brchstat::DecodeTimeUnconditional => 0b0100,
            Brchstat::ExecuteTimeUnconditional => 0b0101,
            Brchstat::ConditionalTaken => 0b1000,
        }
    }

    /// Whether fetch may speculatively follow the branch: decode-time conditional branches.
    pub fn is_speculative(self) -> (r: bool)
        ensures
            r == self.speculative(),
    {
        matches!(self, Brchstat::DecodeTimeConditional | Brchstat::DecodeTimeConditionalBackwards)
    }

    pub fn is_decode_time(self) -> (r: bool)
        ensures
            r == self.decode_time(),
    {
        matches!(
            self,
            Brchstat::DecodeTimeConditional | Brchstat::DecodeTimeConditionalBackwards
                | Brchstat::DecodeTimeUnconditional | Brchstat::ConditionalTaken
        )
    }

    pub fn is_execute_time(self) -> (r: bool)
        ensures
            r == self.execute_time(),
    {
        matches!(self, Brchstat::ExecuteTimeConditional | Brchstat::ExecuteTimeUnconditional)
    }

    pub fn is_conditional(self) -> (r: bool)
        ensures
            r == self.conditional(),
    {
        matches!(
            self,
            Brchstat::DecodeTimeConditional | Brchstat::DecodeTimeConditionalBackwards
                | Brchstat::ExecuteTimeConditional
        )
    }

    pub fn changes_pc(self) -> (r: bool)
        ensures
            r == !(self is NoBranch),
    {
        !matches!(self, Brchstat::NoBranch)
    }

    /// Whether the branch condition holds while still in Decode: the IT condition and the
    /// condition of a conditional `B`. CBZ is out of scope.
    pub open spec fn condition_holds(instr: Instruction, xpsr: XPSR) -> bool {
        let condition_failed = (xpsr.in_it() && !xpsr.it_condition().holds(xpsr)) || (
        instr matches Instruction::Branch { cond, .. } && !cond.holds(xpsr));
        !condition_failed
    }

    /// Evaluates the condition while still in Decode (meant for branches, the last
    /// instruction of an IT block if in one).
    pub fn evaluate_condition(self, instr: &Instruction, xpsr: XPSR) -> (r: bool)
        ensures
            r == Self::condition_holds(*instr, xpsr),
    {
        let it_failed = xpsr.in_it_block() && !xpsr.it_condition_passed();
        let cond_failed = match instr {
            Instruction::Branch { cond, .. } => !cond.passed(xpsr),
            _ => false,
        };
        !(it_failed || cond_failed)
    }

    /// A speculative branch becomes `ConditionalTaken` or `NoBranch` once its condition is
    /// known; other statuses stay.
    pub fn speculative_with_condition(self, instr: &Instruction, xpsr: XPSR) -> (r: Self)
        ensures
            r == (if self.speculative() {
                if Self::condition_holds(*instr, xpsr) {
                    Brchstat::ConditionalTaken
                } else {
                    Brchstat::NoBranch
                }
            } else {
                self
            }),
    {
        if self.is_speculative() {
            if self.evaluate_condition(instr, xpsr) {
                Brchstat::ConditionalTaken
            } else {
                Brchstat::NoBranch
            }
        } else {
            self
        }
    }

    /// Branch status of a decoded instruction.
    ///
    /// * Only branches (and ISB) have a status.
    /// * In an IT block, the instruction is conditional ("ALU register based branches and
    ///   LSU PC modifying instructions are recognized as 0b0011 conditional branches"), and
    ///   so are `B<c>` and CBZ/CBNZ.
    /// * `B` and `BL` are decode-time; `BX LR`, `BLX LR` and `MOV PC, LR` are decode-time
    ///   unless LR is being written; the other ALU and LSU writes of the PC are execute-time.
    /// * A conditional decode-time `B` with a negative offset goes backwards.
    pub open spec fn classify(instr: Instruction, lr_is_dirty: bool, in_it_block: bool) -> Brchstat {
        if !instr.branch_like() && !(instr is InstructionSynchronizationBarrier) {
            Brchstat::NoBranch
        } else {
            let conditional = (in_it_block && !instr.unconditional_in_it()) || (
            instr matches Instruction::Branch { cond, .. } && cond.0 != 14)
                || instr is CompareAndBranch;
            let execute_time = match instr {
                Instruction::Branch { .. } => false,
                Instruction::BranchWithLinkAndExchange_Register { rm } => if rm == RegisterID::LR {
                    lr_is_dirty
                } else {
                    true
                },
                Instruction::BranchAndExchange { rm } => if rm == RegisterID::LR {
                    lr_is_dirty
                } else {
                    true
                },
                Instruction::Move_Register { rd, rm, .. } => if rd == RegisterID::PC && rm
                    == RegisterID::LR {
                    lr_is_dirty
                } else {
                    true
                },
                Instruction::BranchWithLink_Immediate { .. } => false,
                _ => true,
            };
            let is_backwards = instr matches Instruction::Branch { imm32, .. } && imm32
                >= 0x8000_0000;
            if conditional && !execute_time && is_backwards {
                Brchstat::DecodeTimeConditionalBackwards
            } else if conditional && !execute_time {
                Brchstat::DecodeTimeConditional
            } else if conditional {
                Brchstat::ExecuteTimeConditional
            } else if !execute_time {
                Brchstat::DecodeTimeUnconditional
            } else {
                Brchstat::ExecuteTimeUnconditional
            }
        }
    }

    pub fn from_instruction(instr: &Instruction, lr_is_dirty: bool, in_it_block: bool) -> (r: Self)
        ensures
            r == Self::classify(*instr, lr_is_dirty, in_it_block),
    {
        if !instr.is_branch() && !matches!(instr, Instruction::InstructionSynchronizationBarrier { .. }) {
            return Brchstat::NoBranch;
        }
        let conditional = (in_it_block && !instr.is_unconditional_in_it_block()) || match instr {
            Instruction::Branch { cond, .. } => !cond.is_al(),
            Instruction::CompareAndBranch { .. } => true,
            _ => false,
        };
        let execute_time = match instr {
            Instruction::Branch { .. } => false,
            Instruction::BranchWithLinkAndExchange_Register { rm }
            | Instruction::BranchAndExchange { rm } => if *rm == RegisterID::LR {
                lr_is_dirty
            } else {
                true
            },
            Instruction::Move_Register { rd, rm, .. } => if *rd == RegisterID::PC && *rm
                == RegisterID::LR {
                lr_is_dirty
            } else {
                true
            },
            // `BL` is always decode-time: writing LR just before it does not change that.
            Instruction::BranchWithLink_Immediate { .. } => false,
            // ALU & LSU with PC as destination
            _ => true,
        };
        let is_backwards = match instr {
            Instruction::Branch { imm32, .. } => (*imm32 >> 31) & 1 == 1,
            _ => false,
        };
        proof {
            if let Instruction::Branch { imm32, .. } = *instr {
                assert(((imm32 >> 31) & 1 == 1) == (imm32 >= 0x8000_0000)) by (bit_vector);
            }
        }
        match (conditional, execute_time, is_backwards) {
            (true, false, true) => Brchstat::DecodeTimeConditionalBackwards,
            (true, false, false) => Brchstat::DecodeTimeConditional,
            (true, true, _) => Brchstat::ExecuteTimeConditional,
            (false, false, _) => Brchstat::DecodeTimeUnconditional,
            (false, true, _) => Brchstat::ExecuteTimeUnconditional,
        }
    }
}

// ---------------------------------------------------------------------------
// Pipeline step and decode state
// ---------------------------------------------------------------------------

/// All information produced in the decode phase that is needed in the execute phase.
#[derive(Clone, Copy, Debug, PartialEq, Eq)]
pub struct PipelineStepPack {
    /// The main instruction.
    pub instruction: Instruction,
    /// Candidate for an instruction folded with the main instruction.
    pub folded_instruction: Option<Instruction>,
    /// Address of the main instruction.
    pub address: Address,
    pub branch_kind: Brchstat,
    /// A decode-time conditional branch was made and its prediction was wrong.
    pub branch_was_mispredicted: bool,
    /// Length of the main and folded instructions in halfwords (1 or 2).
    pub length: u8,
}

impl PipelineStepPack {
    /// Address right after the main and folded instructions.
    pub fn following_instruction_address(&self) -> (r: Address)
        requires
            self.length < 128,
        ensures
            r == self.address.plus(2 * self.length),
    {
        self.address.offset((self.length * 2) as u32)
    }

    /// Address of the folded instruction, if there is one: the halfword after the main one.
    pub fn folded_instruction_address(&self) -> (r: Option<Address>)
        ensures
            r == (if self.folded_instruction.is_some() {
                Some(self.address.plus(2))
            } else {
                None
            }),
    {
        if self.folded_instruction.is_some() {
            Some(self.address.offset(2))
        } else {
            None
        }
    }
}

/// Information from the execute component needed to decode the next instruction.
#[derive(Clone, Copy, Debug)]
pub enum TriggerData {
    /// Decode resets its state, because the pipeline is refilled.
    IgnoreCurrent,
    /// Normal execution: try to decode an instruction.
    DecodeCurrent {
        /// Registers that execute writes in this cycle and that cannot be read.
        dirty_registers: RegisterBitmap,
        /// Fast-forwarded xPSR.
        xpsr: XPSR,
        postponed_advance_head: bool,
    },
}

impl TriggerData {
    pub fn ignore_currently_decoding_instruction() -> (r: Self)
        ensures
            r is IgnoreCurrent,
    {
        TriggerData::IgnoreCurrent
    }

    pub fn next_instruction(
        dirty_registers: RegisterBitmap,
        fast_forwarded_xpsr: XPSR,
        postponed_advance_head: bool,
    ) -> (r: Self)
        ensures
            r == (TriggerData::DecodeCurrent {
                dirty_registers,
                xpsr: fast_forwarded_xpsr,
                postponed_advance_head,
            }),
    {
        TriggerData::DecodeCurrent {
            dirty_registers,
            xpsr: fast_forwarded_xpsr,
            postponed_advance_head,
        }
    }
}

/// Decode as a state machine.
#[derive(Clone, Copy, Debug)]
pub enum DecodeState {
    /// Waiting for execute to be ready and for fetch to have data.
    WaitingForFetchAndExecute,
    /// The instruction is decoded, but the AGU waits for data to be fast-forwarded.
    AGUWaitingForData {
        addr: Address,
        instr: Instruction,
        folded_instr: Option<Instruction>,
        length: u8,
        dirty_registers: RegisterBitmap,
        postponed_advance_head: bool,
        xpsr: XPSR,
    },
    /// The result is computed; fetch has to be told about the branch.
    NotifyFetchAboutBranch {
        addr: Address,
        instr: Instruction,
        folded_instr: Option<Instruction>,
        length: u8,
        dirty_registers: RegisterBitmap,
        postponed_advance_head: bool,
        lr_is_dirty: bool,
        xpsr: XPSR,
    },
    /// The result waits for the pipeline to move.
    ResultReady { value: PipelineStepPack, postponed_advance_head: bool, xpsr: XPSR },
}

impl DecodeState {
    pub open spec fn folded(self) -> bool {
        match self {
            DecodeState::AGUWaitingForData { folded_instr, .. } => folded_instr.is_some(),
            DecodeState::NotifyFetchAboutBranch { folded_instr, .. } => folded_instr.is_some(),
            DecodeState::ResultReady { value, .. } => value.folded_instruction.is_some(),
            DecodeState::WaitingForFetchAndExecute => false,
        }
    }

    pub fn has_folded_instruction(&self) -> (r: bool)
        ensures
            r == self.folded(),
    {
        match self {
            DecodeState::AGUWaitingForData { folded_instr, .. }
            | DecodeState::NotifyFetchAboutBranch { folded_instr, .. } => folded_instr.is_some(),
            DecodeState::ResultReady { value, .. } => value.folded_instruction.is_some(),
            DecodeState::WaitingForFetchAndExecute => false,
        }
    }

    /// Decoded size in halfwords and whether an instruction is folded.
    pub fn get_decoded_size(&self) -> (r: (u8, bool))
        ensures
            r == match *self {
                DecodeState::WaitingForFetchAndExecute => (0u8, false),
                DecodeState::AGUWaitingForData { length, folded_instr, .. } => (
                    length,
                    folded_instr.is_some(),
                ),
                DecodeState::NotifyFetchAboutBranch { length, folded_instr, .. } => (
                    length,
                    folded_instr.is_some(),
                ),
                DecodeState::ResultReady { value, .. } => (
                    value.length,
                    value.folded_instruction.is_some(),
                ),
            },
    {
        match self {
            DecodeState::WaitingForFetchAndExecute => (0, false),
            DecodeState::AGUWaitingForData { length, folded_instr, .. }
            | DecodeState::NotifyFetchAboutBranch { length, folded_instr, .. } => (
                *length,
                folded_instr.is_some(),
            ),
            DecodeState::ResultReady { value, .. } => (value.length, value.folded_instruction.is_some()),
        }
    }
}

// ---------------------------------------------------------------------------
// Halfword helpers
// ---------------------------------------------------------------------------

/// The value of the PC seen by an instruction: its address plus 4.
pub fn get_pc_value(instruction_address: Address) -> (r: Word)
    ensures
        r == wrap_add(instruction_address.0, 4),
{
    instruction_address.0.wrapping_add(4)
}

/// Whether a first halfword starts a 32-bit instruction: bits 15:11 are 0b11101, 0b11110
/// or 0b11111.
pub open spec fn starts_long(first_halfword: u16) -> bool {
    first_halfword / 0x800 >= 0b11101
}

pub fn is_long_instruction(first_halfword: u16) -> (r: bool)
    ensures
        r == starts_long(first_halfword),
{
    let top = (first_halfword >> 11) & 0b11111;
    assert(((first_halfword >> 11) & 0b11111) == first_halfword / 0x800) by (bit_vector);
    top == 0b11101 || top == 0b11110 || top == 0b11111
}

/// Whether the second halfword of the F/D register exists and starts a 16-bit instruction.
pub fn is_second_instruction_short(fetch_head: &FDReg) -> (r: bool)
    ensures
        r == (fetch_head@.len() > 1 && !starts_long(fetch_head@[1])),
{
    match fetch_head.get(1) {
        Some(b) => !is_long_instruction(b),
        None => false,
    }
}

/// Whether a halfword has the bit pattern of an IT instruction (0xBFxy with a nonzero
/// mask y), regardless of whether it would be unpredictable.
pub open spec fn it_pattern(halfword: u16) -> bool {
    halfword / 0x100 == 0xbf && halfword % 16 != 0
}

pub fn looks_like_it(halfword: u16) -> (r: bool)
    ensures
        r == it_pattern(halfword),
{
    assert((halfword >> 8) == halfword / 0x100) by (bit_vector);
    assert((halfword & 0xf) == halfword % 16) by (bit_vector);
    halfword >> 8 == 0b1011_1111 && halfword & 0xf != 0
}

/// An instruction is tainted (cursed by an IT) when the shadow head shows IT bits in its
/// second halfword while the first halfword is a 16-bit instruction, whether or not the IT is
/// actually in the instruction stream.
pub fn is_instr_tainted(shadow_head: &FDReg) -> (r: bool)
    requires
        shadow_head@.len() == 2,
    ensures
        r == (it_pattern(shadow_head@[1]) && !starts_long(shadow_head@[0])),
{
    let first = match shadow_head.get(0) {
        Some(v) => v,
        None => 0,
    };
    let second = match shadow_head.get(1) {
        Some(v) => v,
        None => 0,
    };
    looks_like_it(second) && !is_long_instruction(first)
}

// ---------------------------------------------------------------------------
// Laws of the branch status
// ---------------------------------------------------------------------------

/// A branch is resolved either in decode or in execute, never both; only `NoBranch`
/// leaves the PC alone; speculative branches are conditional decode-time branches.
pub proof fn lemma_brchstat_kinds(b: Brchstat)
    ensures
        !(b.decode_time() && b.execute_time()),
        !(b is NoBranch) <==> (b.decode_time() || b.execute_time()),
        b.speculative() ==> b.decode_time() && b.conditional(),
{
}

/// Once its condition is evaluated, a branch is no longer speculative.
pub proof fn lemma_condition_resolves_speculation(b: Brchstat, instr: Instruction, xpsr: XPSR)
    ensures
        !(if b.speculative() {
            if Brchstat::condition_holds(instr, xpsr) {
                Brchstat::ConditionalTaken
            } else {
                Brchstat::NoBranch
            }
        } else {
            b
        }).speculative(),
{
}

/// A freshly decoded instruction is never reported as an already taken conditional
/// branch, and outside IT blocks only `B<c>` and CBZ/CBNZ are conditional.
pub proof fn lemma_classify_fresh(instr: Instruction, lr_is_dirty: bool)
    ensures
        !(Brchstat::classify(instr, lr_is_dirty, false) is ConditionalTaken),
        !(Brchstat::classify(instr, lr_is_dirty, true) is ConditionalTaken),
        Brchstat::classify(instr, lr_is_dirty, false).conditional() ==> (instr is Branch
            || instr is CompareAndBranch),
{
}

} // verus!
