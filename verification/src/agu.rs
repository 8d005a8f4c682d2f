//! The address generation unit (AGU) of Decode: which instructions need an address computed
//! in Decode, and the address itself.
use vstd::prelude::*;

use crate::common::{Word, word_add, word_sub, wrap_add};
use crate::decode::Brchstat;
use crate::instruction::Instruction;
use crate::registers::{RegisterBitmap, RegisterID, SRType};

verus! {

/// Additional actions of Decode for an instruction.
#[derive(Clone, Copy, Debug, PartialEq, Eq, Structural)]
pub enum AdditionalAction {
    /// An address is computed (loads, stores, table branches).
    ComputeAGUValue,
    /// A branch target is computed and fetch is told about it.
    Branch,
    /// Nothing special.
    NoAction,
}

/// How the AGU forms the address of an instruction.
pub enum AguForm {
    /// `Rn ± (Rm << amount)`.
    RegisterOffset { rn: RegisterID, rm: RegisterID, amount: u8, add: bool },
    /// `Align(PC, 4) ± imm32`.
    Literal { imm32: Word, add: bool },
    /// `Rn ± imm32`.
    ImmediateOffset { rn: RegisterID, imm32: Word, add: bool },
    /// `Rn + imm32` (unprivileged and exclusive accesses).
    PositiveOffset { rn: RegisterID, imm32: Word },
    /// `Rn` (increment-after multiple accesses).
    Base { rn: RegisterID },
    /// `Rn - 4 * |registers|` (decrement-before multiple accesses).
    DecrementBefore { rn: RegisterID, registers: RegisterBitmap },
    /// `Rn + Rm` or `Rn + 2 * Rm` (TBB, TBH).
    Table { rn: RegisterID, rm: RegisterID, is_tbh: bool },
    /// `ADD PC, ...` reads R0 through the AGU.
    ReadR0,
    /// Not handled by the AGU.
    Unsupported,
}

/// The addressing form of an instruction.
pub open spec fn agu_form(instr: Instruction) -> AguForm {
    match instr {
        Instruction::LoadRegister_Register { rn, rm, shift, add, .. }
        | Instruction::LoadRegisterByte_Register { rn, rm, shift, add, .. }
        | Instruction::LoadRegisterHalfword_Register { rn, rm, shift, add, .. }
        | Instruction::LoadRegisterSignedByte_Register { rn, rm, shift, add, .. }
        | Instruction::LoadRegisterSignedHalfword_Register { rn, rm, shift, add, .. }
        | Instruction::StoreRegister_Register { rn, rm, shift, add, .. }
        | Instruction::StoreRegisterByte_Register { rn, rm, shift, add, .. }
        | Instruction::StoreRegisterHalfword_Register {
            rn,
            rm,
            shift,
            add,
            ..
        } => AguForm::RegisterOffset { rn, rm, amount: shift.amount, add },
        Instruction::LoadRegister_Literal { imm32, add, .. }
        | Instruction::LoadRegisterByte_Literal { imm32, add, .. }
        | Instruction::LoadRegisterHalfword_Literal { imm32, add, .. }
        | Instruction::LoadRegisterSignedByte_Literal { imm32, add, .. }
        | Instruction::LoadRegisterSignedHalfword_Literal { imm32, add, .. }
        | Instruction::LoadRegisterDual_Literal { imm32, add, .. } => AguForm::Literal {
            imm32,
            add,
        },
        Instruction::LoadRegister_Immediate { rn, imm32, add, .. }
        | Instruction::LoadRegisterByte_Immediate { rn, imm32, add, .. }
        | Instruction::LoadRegisterHalfword_Immediate { rn, imm32, add, .. }
        | Instruction::LoadRegisterSignedByte_Immediate { rn, imm32, add, .. }
        | Instruction::LoadRegisterSignedHalfword_Immediate { rn, imm32, add, .. }
        | Instruction::LoadRegisterDual_Immediate { rn, imm32, add, .. }
        | Instruction::StoreRegister_Immediate { rn, imm32, add, .. }
        | Instruction::StoreRegisterByte_Immediate { rn, imm32, add, .. }
        | Instruction::StoreRegisterHalfword_Immediate { rn, imm32, add, .. }
        | Instruction::StoreRegisterDual_Immediate {
            rn,
            imm32,
            add,
            ..
        } => AguForm::ImmediateOffset { rn, imm32, add },
        Instruction::LoadRegisterUnprivileged { rn, imm32, .. }
        | Instruction::LoadRegisterByteUnprivileged { rn, imm32, .. }
        | Instruction::LoadRegisterHalfwordUnprivileged { rn, imm32, .. }
        | Instruction::LoadRegisterSignedByteUnprivileged { rn, imm32, .. }
        | Instruction::LoadRegisterSignedHalfwordUnprivileged { rn, imm32, .. }
        | Instruction::LoadRegisterExclusive { rn, imm32, .. }
        | Instruction::StoreRegisterUnprivileged { rn, imm32, .. }
        | Instruction::StoreRegisterByteUnprivileged { rn, imm32, .. }
        | Instruction::StoreRegisterHalfwordUnprivileged { rn, imm32, .. }
        | Instruction::StoreRegisterExclusive { rn, imm32, .. } => AguForm::PositiveOffset {
            rn,
            imm32,
        },
        Instruction::LoadMultiple { rn, .. } | Instruction::StoreMultiple { rn, .. } => AguForm::Base {
            rn,
        },
        Instruction::LoadMultipleDecrementBefore { rn, registers, .. }
        | Instruction::StoreMultipleDecrementBefore {
            rn,
            registers,
            ..
        } => AguForm::DecrementBefore { rn, registers },
        Instruction::TableBranch { rn, rm, is_tbh } => AguForm::Table { rn, rm, is_tbh },
        Instruction::Add_Register { rd, .. } => if rd == RegisterID::PC {
            AguForm::ReadR0
        } else {
            AguForm::Unsupported
        },
        Instruction::Add_SPPlusRegister { rd, .. } => if rd == RegisterID::PC {
            AguForm::ReadR0
        } else {
            AguForm::Unsupported
        },
        _ => AguForm::Unsupported,
    }
}

/// The action Decode takes for an instruction. `ADD PC, ...` goes through the AGU, which
/// reads R0 (an extra stall is observed when the previous instruction writes R0).
pub open spec fn spec_additional_action(instr: Instruction) -> AdditionalAction {
    match agu_form(instr) {
        AguForm::Unsupported => match instr {
            Instruction::Branch { .. } | Instruction::BranchWithLink_Immediate { .. } => AdditionalAction::Branch,
            Instruction::BranchWithLinkAndExchange_Register { rm } => if rm == RegisterID::LR {
                AdditionalAction::Branch
            } else {
                AdditionalAction::NoAction
            },
            Instruction::BranchAndExchange { rm } => if rm == RegisterID::LR {
                AdditionalAction::Branch
            } else {
                AdditionalAction::NoAction
            },
            Instruction::Move_Register { rd, rm, .. } => if rd == RegisterID::PC && rm
                == RegisterID::LR {
                AdditionalAction::Branch
            } else {
                AdditionalAction::NoAction
            },
            _ => AdditionalAction::NoAction,
        },
        _ => AdditionalAction::ComputeAGUValue,
    }
}

pub fn get_additional_action(instr: &Instruction) -> (r: AdditionalAction)
    ensures
        r == spec_additional_action(*instr),
{
    match instr {
        Instruction::LoadRegister_Immediate { .. }
        | Instruction::LoadRegister_Literal { .. }
        | Instruction::LoadRegister_Register { .. }
        | Instruction::LoadRegisterByte_Immediate { .. }
        | Instruction::LoadRegisterByte_Literal { .. }
        | Instruction::LoadRegisterByte_Register { .. }
        | Instruction::LoadRegisterHalfword_Immediate { .. }
        | Instruction::LoadRegisterHalfword_Literal { .. }
        | Instruction::LoadRegisterHalfword_Register { .. }
        | Instruction::LoadRegisterSignedByte_Immediate { .. }
        | Instruction::LoadRegisterSignedByte_Literal { .. }
        | Instruction::LoadRegisterSignedByte_Register { .. }
        | Instruction::LoadRegisterSignedHalfword_Immediate { .. }
        | Instruction::LoadRegisterSignedHalfword_Literal { .. }
        | Instruction::LoadRegisterSignedHalfword_Register { .. }
        | Instruction::LoadRegisterDual_Immediate { .. }
        | Instruction::LoadRegisterDual_Literal { .. }
        | Instruction::LoadRegisterUnprivileged { .. }
        | Instruction::LoadRegisterByteUnprivileged { .. }
        | Instruction::LoadRegisterHalfwordUnprivileged { .. }
        | Instruction::LoadRegisterSignedByteUnprivileged { .. }
        | Instruction::LoadRegisterSignedHalfwordUnprivileged { .. }
        | Instruction::LoadRegisterExclusive { .. }
        | Instruction::LoadMultiple { .. }
        | Instruction::LoadMultipleDecrementBefore { .. }
        | Instruction::StoreRegister_Immediate { .. }
        | Instruction::StoreRegister_Register { .. }
        | Instruction::StoreRegisterByte_Immediate { .. }
        | Instruction::StoreRegisterByte_Register { .. }
        | Instruction::StoreRegisterHalfword_Immediate { .. }
        | Instruction::StoreRegisterHalfword_Register { .. }
        | Instruction::StoreRegisterDual_Immediate { .. }
        | Instruction::StoreRegisterUnprivileged { .. }
        | Instruction::StoreRegisterByteUnprivileged { .. }
        | Instruction::StoreRegisterHalfwordUnprivileged { .. }
        | Instruction::StoreRegisterExclusive { .. }
        | Instruction::StoreMultiple { .. }
        | Instruction::StoreMultipleDecrementBefore { .. }
        | Instruction::TableBranch { .. } => AdditionalAction::ComputeAGUValue,
        Instruction::Add_Register { rd: RegisterID::PC, .. }
        | Instruction::Add_SPPlusRegister { rd: RegisterID::PC, .. } => AdditionalAction::ComputeAGUValue,
        Instruction::Branch { .. }
        | Instruction::BranchWithLink_Immediate { .. }
        | Instruction::BranchWithLinkAndExchange_Register { rm: RegisterID::LR }
        | Instruction::BranchAndExchange { rm: RegisterID::LR }
        | Instruction::Move_Register { rd: RegisterID::PC, rm: RegisterID::LR, .. } => AdditionalAction::Branch,
        _ => AdditionalAction::NoAction,
    }
}

/// The registers whose value the AGU needs for an instruction (none outside the AGU).
pub open spec fn agu_base_registers_dirty(instr: Instruction, dirty: RegisterBitmap) -> bool {
    match instr {
        Instruction::LoadRegister_Immediate { rn, .. }
        | Instruction::LoadRegisterByte_Immediate { rn, .. }
        | Instruction::LoadRegisterHalfword_Immediate { rn, .. }
        | Instruction::LoadRegisterSignedByte_Immediate { rn, .. }
        | Instruction::LoadRegisterSignedHalfword_Immediate { rn, .. }
        | Instruction::LoadRegisterDual_Immediate { rn, .. }
        | Instruction::StoreRegister_Immediate { rn, .. }
        | Instruction::StoreRegisterByte_Immediate { rn, .. }
        | Instruction::StoreRegisterHalfword_Immediate { rn, .. }
        | Instruction::StoreRegisterDual_Immediate { rn, .. }
        | Instruction::LoadRegisterUnprivileged { rn, .. }
        | Instruction::LoadRegisterByteUnprivileged { rn, .. }
        | Instruction::LoadRegisterHalfwordUnprivileged { rn, .. }
        | Instruction::LoadRegisterSignedByteUnprivileged { rn, .. }
        | Instruction::LoadRegisterSignedHalfwordUnprivileged { rn, .. }
        | Instruction::LoadRegisterExclusive { rn, .. }
        | Instruction::StoreRegisterUnprivileged { rn, .. }
        | Instruction::StoreRegisterByteUnprivileged { rn, .. }
        | Instruction::StoreRegisterHalfwordUnprivileged { rn, .. }
        | Instruction::StoreRegisterExclusive { rn, .. }
        | Instruction::LoadMultiple { rn, .. }
        | Instruction::LoadMultipleDecrementBefore { rn, .. }
        | Instruction::StoreMultiple { rn, .. }
        | Instruction::StoreMultipleDecrementBefore { rn, .. } => dirty.has(rn),
        Instruction::LoadRegister_Register { rn, rm, .. }
        | Instruction::LoadRegisterByte_Register { rn, rm, .. }
        | Instruction::LoadRegisterHalfword_Register { rn, rm, .. }
        | Instruction::LoadRegisterSignedByte_Register { rn, rm, .. }
        | Instruction::LoadRegisterSignedHalfword_Register { rn, rm, .. }
        | Instruction::StoreRegister_Register { rn, rm, .. }
        | Instruction::StoreRegisterByte_Register { rn, rm, .. }
        | Instruction::StoreRegisterHalfword_Register { rn, rm, .. }
        | Instruction::TableBranch { rn, rm, .. } => dirty.has(rn) || dirty.has(rm),
        _ => false,
    }
}

/// Whether the AGU has to wait for a register of the address that is being written.
pub fn does_agu_wait_for_data(instr: &Instruction, dirty_registers: RegisterBitmap) -> (r: bool)
    ensures
        r == agu_base_registers_dirty(*instr, dirty_registers),
{
    match instr {
        Instruction::LoadRegister_Immediate { rn, .. }
        | Instruction::LoadRegisterByte_Immediate { rn, .. }
        | Instruction::LoadRegisterHalfword_Immediate { rn, .. }
        | Instruction::LoadRegisterSignedByte_Immediate { rn, .. }
        | Instruction::LoadRegisterSignedHalfword_Immediate { rn, .. }
        | Instruction::LoadRegisterDual_Immediate { rn, .. }
        | Instruction::StoreRegister_Immediate { rn, .. }
        | Instruction::StoreRegisterByte_Immediate { rn, .. }
        | Instruction::StoreRegisterHalfword_Immediate { rn, .. }
        | Instruction::StoreRegisterDual_Immediate { rn, .. }
        | Instruction::LoadRegisterUnprivileged { rn, .. }
        | Instruction::LoadRegisterByteUnprivileged { rn, .. }
        | Instruction::LoadRegisterHalfwordUnprivileged { rn, .. }
        | Instruction::LoadRegisterSignedByteUnprivileged { rn, .. }
        | Instruction::LoadRegisterSignedHalfwordUnprivileged { rn, .. }
        | Instruction::LoadRegisterExclusive { rn, .. }
        | Instruction::StoreRegisterUnprivileged { rn, .. }
        | Instruction::StoreRegisterByteUnprivileged { rn, .. }
        | Instruction::StoreRegisterHalfwordUnprivileged { rn, .. }
        | Instruction::StoreRegisterExclusive { rn, .. }
        | Instruction::LoadMultiple { rn, .. }
        | Instruction::LoadMultipleDecrementBefore { rn, .. }
        | Instruction::StoreMultiple { rn, .. }
        | Instruction::StoreMultipleDecrementBefore { rn, .. } => dirty_registers.get(*rn),
        Instruction::LoadRegister_Register { rn, rm, .. }
        | Instruction::LoadRegisterByte_Register { rn, rm, .. }
        | Instruction::LoadRegisterHalfword_Register { rn, rm, .. }
        | Instruction::LoadRegisterSignedByte_Register { rn, rm, .. }
        | Instruction::LoadRegisterSignedHalfword_Register { rn, rm, .. }
        | Instruction::StoreRegister_Register { rn, rm, .. }
        | Instruction::StoreRegisterByte_Register { rn, rm, .. }
        | Instruction::StoreRegisterHalfword_Register { rn, rm, .. }
        | Instruction::TableBranch { rn, rm, .. } => dirty_registers.get(*rn) || dirty_registers.get(
            *rm,
        ),
        _ => false,
    }
}

/// The value of a register for the AGU: from the register bank unless it is being written,
/// otherwise only if it is the fast-forwarded one.
pub open spec fn agu_register(
    regs: Seq<Word>,
    register: RegisterID,
    dirty: RegisterBitmap,
    fast_forwarded: Option<(RegisterID, Word)>,
) -> Option<Word> {
    if !dirty.has(register) {
        Some(regs[register.index_of() as int])
    } else {
        match fast_forwarded {
            Some((ff_register, ff_value)) => if ff_register == register {
                Some(ff_value)
            } else {
                None
            },
            None => None,
        }
    }
}

pub fn get_register_value(
    regs: &[Word; 16],
    register: RegisterID,
    dirty_registers: RegisterBitmap,
    fast_forwarded_reg: Option<(RegisterID, Word)>,
) -> (r: Option<Word>)
    ensures
        r == agu_register(regs@, register, dirty_registers, fast_forwarded_reg),
{
    if !dirty_registers.get(register) {
        return Some(regs[register.index() as usize]);
    }
    if let Some((ff_register, ff_value)) = fast_forwarded_reg {
        if register == ff_register {
            return Some(ff_value);
        }
    }
    None
}

/// Logical left shift of a word by up to 32 bits.
pub open spec fn lsl(x: Word, amount: u8) -> Word {
    if amount >= 32 {
        0
    } else {
        x << (amount as u32)
    }
}

/// `Align(x, 4)`: the low two bits cleared.
pub open spec fn align4(x: Word) -> Word {
    (x - x % 4) as Word
}

/// The address the AGU computes from the register values (the PC reads as the instruction
/// address plus 4), or `None` when a needed register is being written.
pub open spec fn agu_value(
    form: AguForm,
    regs: Seq<Word>,
    dirty: RegisterBitmap,
    ff: Option<(RegisterID, Word)>,
) -> Option<Word> {
    match form {
        AguForm::RegisterOffset { rn, rm, amount, add } => {
            let vm = agu_register(regs, rm, dirty, ff);
            let vn = agu_register(regs, rn, dirty, ff);
            if vm is Some && vn is Some {
                let offset = lsl(vm->0, amount) as int;
                Some(wrap_add(vn->0, if add { offset } else { -offset }))
            } else {
                None
            }
        },
        AguForm::Literal { imm32, add } => match agu_register(regs, RegisterID::PC, dirty, ff) {
            Some(pc) => Some(wrap_add(align4(pc), if add { imm32 as int } else { -imm32 })),
            None => None,
        },
        AguForm::ImmediateOffset { rn, imm32, add } => match agu_register(regs, rn, dirty, ff) {
            Some(v) => Some(wrap_add(v, if add { imm32 as int } else { -imm32 })),
            None => None,
        },
        AguForm::PositiveOffset { rn, imm32 } => match agu_register(regs, rn, dirty, ff) {
            Some(v) => Some(wrap_add(v, imm32 as int)),
            None => None,
        },
        AguForm::Base { rn } => agu_register(regs, rn, dirty, ff),
        AguForm::DecrementBefore { rn, registers } => match agu_register(regs, rn, dirty, ff) {
            Some(v) => Some(wrap_add(v, -4 * registers.size())),
            None => None,
        },
        AguForm::Table { rn, rm, is_tbh } => {
            let vn = agu_register(regs, rn, dirty, ff);
            let vm = agu_register(regs, rm, dirty, ff);
            if vn is Some && vm is Some {
                Some(wrap_add(vn->0, if is_tbh { lsl(vm->0, 1) as int } else { vm->0 as int }))
            } else {
                None
            }
        },
        AguForm::ReadR0 => agu_register(regs, RegisterID::R0, dirty, ff),
        AguForm::Unsupported => None,
    }
}

fn shift_left(x: Word, amount: u8) -> (r: Word)
    ensures
        r == lsl(x, amount),
{
    if amount >= 32 {
        0
    } else {
        x << (amount as u32)
    }
}

/// The addressing form of an instruction.
pub fn addressing_form(instr: &Instruction) -> (r: AguForm)
    ensures
        r == agu_form(*instr),
{
    match instr {
        Instruction::LoadRegister_Register { rn, rm, shift, add, .. }
        | Instruction::LoadRegisterByte_Register { rn, rm, shift, add, .. }
        | Instruction::LoadRegisterHalfword_Register { rn, rm, shift, add, .. }
        | Instruction::LoadRegisterSignedByte_Register { rn, rm, shift, add, .. }
        | Instruction::LoadRegisterSignedHalfword_Register { rn, rm, shift, add, .. }
        | Instruction::StoreRegister_Register { rn, rm, shift, add, .. }
        | Instruction::StoreRegisterByte_Register { rn, rm, shift, add, .. }
        | Instruction::StoreRegisterHalfword_Register {
            rn,
            rm,
            shift,
            add,
            ..
        } => AguForm::RegisterOffset { rn: *rn, rm: *rm, amount: shift.amount, add: *add },
        Instruction::LoadRegister_Literal { imm32, add, .. }
        | Instruction::LoadRegisterByte_Literal { imm32, add, .. }
        | Instruction::LoadRegisterHalfword_Literal { imm32, add, .. }
        | Instruction::LoadRegisterSignedByte_Literal { imm32, add, .. }
        | Instruction::LoadRegisterSignedHalfword_Literal { imm32, add, .. }
        | Instruction::LoadRegisterDual_Literal { imm32, add, .. } => AguForm::Literal {
            imm32: *imm32,
            add: *add,
        },
        Instruction::LoadRegister_Immediate { rn, imm32, add, .. }
        | Instruction::LoadRegisterByte_Immediate { rn, imm32, add, .. }
        | Instruction::LoadRegisterHalfword_Immediate { rn, imm32, add, .. }
        | Instruction::LoadRegisterSignedByte_Immediate { rn, imm32, add, .. }
        | Instruction::LoadRegisterSignedHalfword_Immediate { rn, imm32, add, .. }
        | Instruction::LoadRegisterDual_Immediate { rn, imm32, add, .. }
        | Instruction::StoreRegister_Immediate { rn, imm32, add, .. }
        | Instruction::StoreRegisterByte_Immediate { rn, imm32, add, .. }
        | Instruction::StoreRegisterHalfword_Immediate { rn, imm32, add, .. }
        | Instruction::StoreRegisterDual_Immediate {
            rn,
            imm32,
            add,
            ..
        } => AguForm::ImmediateOffset { rn: *rn, imm32: *imm32, add: *add },
        Instruction::LoadRegisterUnprivileged { rn, imm32, .. }
        | Instruction::LoadRegisterByteUnprivileged { rn, imm32, .. }
        | Instruction::LoadRegisterHalfwordUnprivileged { rn, imm32, .. }
        | Instruction::LoadRegisterSignedByteUnprivileged { rn, imm32, .. }
        | Instruction::LoadRegisterSignedHalfwordUnprivileged { rn, imm32, .. }
        | Instruction::LoadRegisterExclusive { rn, imm32, .. }
        | Instruction::StoreRegisterUnprivileged { rn, imm32, .. }
        | Instruction::StoreRegisterByteUnprivileged { rn, imm32, .. }
        | Instruction::StoreRegisterHalfwordUnprivileged { rn, imm32, .. }
        | Instruction::StoreRegisterExclusive { rn, imm32, .. } => AguForm::PositiveOffset {
            rn: *rn,
            imm32: *imm32,
        },
        Instruction::LoadMultiple { rn, .. } | Instruction::StoreMultiple { rn, .. } => AguForm::Base {
            rn: *rn,
        },
        Instruction::LoadMultipleDecrementBefore { rn, registers, .. }
        | Instruction::StoreMultipleDecrementBefore {
            rn,
            registers,
            ..
        } => AguForm::DecrementBefore { rn: *rn, registers: *registers },
        Instruction::TableBranch { rn, rm, is_tbh } => AguForm::Table {
            rn: *rn,
            rm: *rm,
            is_tbh: *is_tbh,
        },
        // The microcode of `ADD PC, Rx` is believed to read R0 through the AGU (an extra
        // stall is observed after an ALU write to R0).
        Instruction::Add_Register { rd: RegisterID::PC, .. }
        | Instruction::Add_SPPlusRegister { rd: RegisterID::PC, .. } => AguForm::ReadR0,
        _ => AguForm::Unsupported,
    }
}

/// The address of the given addressing form, or `None` in case of a register conflict.
pub fn evaluate_agu_form(
    regs: &[Word; 16],
    form: &AguForm,
    dirty_registers: RegisterBitmap,
    fast_forwarded_reg: Option<(RegisterID, Word)>,
) -> (r: Option<Word>)
    ensures
        r == agu_value(*form, regs@, dirty_registers, fast_forwarded_reg),
{
    match form {
        AguForm::RegisterOffset { rn, rm, amount, add } => {
            let rm_value = match get_register_value(regs, *rm, dirty_registers, fast_forwarded_reg) {
                Some(v) => v,
                None => return None,
            };
            let rn_value = match get_register_value(regs, *rn, dirty_registers, fast_forwarded_reg) {
                Some(v) => v,
                None => return None,
            };
            let offset = shift_left(rm_value, *amount);
            if *add {
                Some(word_add(rn_value, offset))
            } else {
                Some(word_sub(rn_value, offset))
            }
        },
        AguForm::Literal { imm32, add } => {
            let pc = match get_register_value(
                regs,
                RegisterID::PC,
                dirty_registers,
                fast_forwarded_reg,
            ) {
                Some(v) => v,
                None => return None,
            };
            let base = pc - pc % 4;
            if *add {
                Some(word_add(base, *imm32))
            } else {
                Some(word_sub(base, *imm32))
            }
        },
        AguForm::ImmediateOffset { rn, imm32, add } => {
            let rn_val = match get_register_value(regs, *rn, dirty_registers, fast_forwarded_reg) {
                Some(v) => v,
                None => return None,
            };
            if *add {
                Some(word_add(rn_val, *imm32))
            } else {
                Some(word_sub(rn_val, *imm32))
            }
        },
        AguForm::PositiveOffset { rn, imm32 } => {
            let rn_val = match get_register_value(regs, *rn, dirty_registers, fast_forwarded_reg) {
                Some(v) => v,
                None => return None,
            };
            Some(word_add(rn_val, *imm32))
        },
        AguForm::Base { rn } => get_register_value(regs, *rn, dirty_registers, fast_forwarded_reg),
        AguForm::DecrementBefore { rn, registers } => {
            let rn_value = match get_register_value(
                regs,
                *rn,
                dirty_registers,
                fast_forwarded_reg,
            ) {
                Some(v) => v,
                None => return None,
            };
            Some(word_sub(rn_value, 4 * registers.count()))
        },
        AguForm::Table { rn, rm, is_tbh } => {
            let rn_val = match get_register_value(regs, *rn, dirty_registers, fast_forwarded_reg) {
                Some(v) => v,
                None => return None,
            };
            let rm_val = match get_register_value(regs, *rm, dirty_registers, fast_forwarded_reg) {
                Some(v) => v,
                None => return None,
            };
            if *is_tbh {
                Some(word_add(rn_val, shift_left(rm_val, 1)))
            } else {
                Some(word_add(rn_val, rm_val))
            }
        },
        AguForm::ReadR0 => get_register_value(regs, RegisterID::R0, dirty_registers, fast_forwarded_reg),
        AguForm::Unsupported => None,
    }
}

/// Computes the address of a memory instruction in Decode, or `None` in case of a register
/// conflict. `regs` holds the register bank, with the PC as seen by the instruction.
/// Only instructions with an addressing form are supported, and register offsets are
/// shifted left only.
pub fn compute_agu_value(
    regs: &[Word; 16],
    instr: &Instruction,
    dirty_registers: RegisterBitmap,
    fast_forwarded_reg: Option<(RegisterID, Word)>,
) -> (r: Option<Word>)
    requires
        !(agu_form(*instr) is Unsupported),
        lsl_offsets_only(*instr),
    ensures
        r == agu_value(agu_form(*instr), regs@, dirty_registers, fast_forwarded_reg),
{
    let form = addressing_form(instr);
    evaluate_agu_form(regs, &form, dirty_registers, fast_forwarded_reg)
}

/// Register offsets of loads and stores are shifted left (the AGU supports only LSL).
pub open spec fn lsl_offsets_only(instr: Instruction) -> bool {
    match instr {
        Instruction::LoadRegister_Register { shift, .. }
        | Instruction::LoadRegisterByte_Register { shift, .. }
        | Instruction::LoadRegisterHalfword_Register { shift, .. }
        | Instruction::LoadRegisterSignedByte_Register { shift, .. }
        | Instruction::LoadRegisterSignedHalfword_Register { shift, .. }
        | Instruction::StoreRegister_Register { shift, .. }
        | Instruction::StoreRegisterByte_Register { shift, .. }
        | Instruction::StoreRegisterHalfword_Register { shift, .. } => shift.srtype == SRType::LSL,
        _ => true,
    }
}

/// The instructions Decode routes to the AGU are exactly those with an addressing
/// form, so `compute_agu_value` is defined on all of them.
pub proof fn lemma_agu_action_has_form(instr: Instruction)
    ensures
        (spec_additional_action(instr) is ComputeAGUValue) <==> !(agu_form(instr) is Unsupported),
{
}

/// Instructions that go through the AGU (loads of the PC, table branches, `ADD PC`)
/// are never decode-time branches.
pub proof fn lemma_agu_branches_execute_time(instr: Instruction, lr_is_dirty: bool, in_it_block: bool)
    requires
        spec_additional_action(instr) is ComputeAGUValue,
    ensures
        !Brchstat::classify(instr, lr_is_dirty, in_it_block).decode_time(),
{
}

/// Instructions whose branch target Decode computes are decode-time branches, unless
/// they read LR while it is being written.
pub proof fn lemma_branch_action_decode_time(instr: Instruction, in_it_block: bool)
    requires
        spec_additional_action(instr) is Branch,
    ensures
        Brchstat::classify(instr, false, in_it_block).decode_time(),
{
}

/// A left shift by `n < 32` bits multiplies by 2^n modulo 2^32.
pub proof fn lemma_lsl_scales(x: Word, n: u8)
    requires
        n < 32,
    ensures
        lsl(x, n) as int == (x * vstd::arithmetic::power2::pow2(n as nat)) % 0x1_0000_0000,
{
    vstd::arithmetic::power2::lemma2_to64();
    vstd::arithmetic::power2::lemma_pow2_strictly_increases(n as nat, 32);
    vstd::bits::lemma_u64_shl_is_mul(1, n as u64);
    let p: u64 = 1u64 << (n as u64);
    let s: u32 = x << (n as u32);
    assert(s == ((x as u64 * p) % 0x1_0000_0000) as u32) by (bit_vector)
        requires
            p == 1u64 << (n as u64),
            s == x << (n as u32),
            n < 32,
    ;
    assert(p == vstd::arithmetic::power2::pow2(n as nat));
    assert(x as u64 * p == x * p) by (nonlinear_arith)
        requires
            p <= 0x8000_0000,
    ;
}

/// A register-offset address (`[Rn, Rm, LSL #n]`, or `[Rn, -Rm, LSL #n]` when subtracting)
/// is `Rn ± Rm * 2^n` modulo 2^32, whatever values the AGU gets for `Rn` and `Rm` (from the
/// register bank when they are clean, or fast-forwarded); registers not being written are
/// read from the bank.
pub proof fn lemma_register_offset_address(
    rn: RegisterID,
    rm: RegisterID,
    amount: u8,
    add: bool,
    regs: Seq<Word>,
    dirty: RegisterBitmap,
    ff: Option<(RegisterID, Word)>,
    vn: Word,
    vm: Word,
)
    requires
        amount < 32,
        agu_register(regs, rn, dirty, ff) == Some(vn),
        agu_register(regs, rm, dirty, ff) == Some(vm),
    ensures
        ({
            let scaled = vm * vstd::arithmetic::power2::pow2(amount as nat);
            agu_value(AguForm::RegisterOffset { rn, rm, amount, add }, regs, dirty, ff) == Some(
                ((if add {
                    vn + scaled
                } else {
                    vn - scaled
                }) % 0x1_0000_0000) as Word,
            )
        }),
        !dirty.has(rn) ==> vn == regs[rn.index_of() as int],
        !dirty.has(rm) ==> vm == regs[rm.index_of() as int],
{
    let m: int = 0x1_0000_0000;
    let scaled = vm * vstd::arithmetic::power2::pow2(amount as nat);
    lemma_lsl_scales(vm, amount);
    vstd::arithmetic::div_mod::lemma_add_mod_noop_right(vn as int, scaled, m);
    vstd::arithmetic::div_mod::lemma_sub_mod_noop_right(vn as int, scaled, m);
}

/// The other address forms, from the values the AGU gets for the registers: `[Rn, #±imm]`
/// is `Rn ± imm`, an unprivileged or exclusive access `Rn + imm`, an increment-after
/// multiple access `Rn`, a decrement-before one `Rn - 4 * count`, a table branch `Rn + Rm`
/// (`TBB`) or `Rn + 2 * Rm` (`TBH`), and a literal `PC` rounded down to a multiple of 4,
/// `± imm`, all modulo 2^32. Without a value for a register that a form reads, there is no
/// address.
pub proof fn lemma_other_forms_address(
    rn: RegisterID,
    rm: RegisterID,
    imm32: Word,
    add: bool,
    is_tbh: bool,
    registers: RegisterBitmap,
    regs: Seq<Word>,
    dirty: RegisterBitmap,
    ff: Option<(RegisterID, Word)>,
    vn: Word,
    vm: Word,
    vpc: Word,
)
    requires
        agu_register(regs, rn, dirty, ff) == Some(vn),
        agu_register(regs, rm, dirty, ff) == Some(vm),
        agu_register(regs, RegisterID::PC, dirty, ff) == Some(vpc),
    ensures
        ({
            let m: int = 0x1_0000_0000;
            let signed_imm: int = if add { imm32 as int } else { -(imm32 as int) };
            &&& agu_value(AguForm::ImmediateOffset { rn, imm32, add }, regs, dirty, ff) == Some(
                ((vn + signed_imm) % m) as Word,
            )
            &&& agu_value(AguForm::PositiveOffset { rn, imm32 }, regs, dirty, ff) == Some(
                ((vn + imm32) % m) as Word,
            )
            &&& agu_value(AguForm::Base { rn }, regs, dirty, ff) == Some(vn)
            &&& agu_value(AguForm::DecrementBefore { rn, registers }, regs, dirty, ff) == Some(
                ((vn - 4 * registers.size()) % m) as Word,
            )
            &&& agu_value(AguForm::Table { rn, rm, is_tbh }, regs, dirty, ff) == Some(
                ((vn + (if is_tbh { 2 * vm } else { vm as int })) % m) as Word,
            )
            &&& agu_value(AguForm::Literal { imm32, add }, regs, dirty, ff) == Some(
                ((vpc - vpc % 4 + signed_imm) % m) as Word,
            )
        }),
{
    let m: int = 0x1_0000_0000;
    lemma_lsl_scales(vm, 1);
    vstd::arithmetic::power2::lemma2_to64();
    assert(lsl(vm, 1) as int == (2 * vm) % m);
    vstd::arithmetic::div_mod::lemma_add_mod_noop_right(vn as int, 2 * vm, m);
    let signed_imm: int = if add { imm32 as int } else { -(imm32 as int) };
    assert(agu_value(AguForm::ImmediateOffset { rn, imm32, add }, regs, dirty, ff) == Some(
        ((vn + signed_imm) % m) as Word));
    assert(agu_value(AguForm::Table { rn, rm, is_tbh }, regs, dirty, ff) == Some(
                ((vn + (if is_tbh { 2 * vm } else { vm as int })) % m) as Word));
    assert(agu_value(AguForm::Literal { imm32, add }, regs, dirty, ff) == Some(
                ((vpc - vpc % 4 + signed_imm) % m) as Word));
}

/// A form that reads a register gets no address while the register is being written and
/// not fast-forwarded.
pub proof fn lemma_unavailable_register_gives_no_address(
    rn: RegisterID,
    rm: RegisterID,
    imm32: Word,
    add: bool,
    amount: u8,
    regs: Seq<Word>,
    dirty: RegisterBitmap,
    ff: Option<(RegisterID, Word)>,
)
    requires
        agu_register(regs, rn, dirty, ff) is None,
    ensures
        agu_value(AguForm::ImmediateOffset { rn, imm32, add }, regs, dirty, ff) is None,
        agu_value(AguForm::RegisterOffset { rn, rm, amount, add }, regs, dirty, ff) is None,
        agu_value(AguForm::RegisterOffset { rn: rm, rm: rn, amount, add }, regs, dirty, ff) is None,
        agu_value(AguForm::Base { rn }, regs, dirty, ff) is None,
{
}

} // verus!
