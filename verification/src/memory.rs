//! Descriptions of memory instructions for the load/store unit.
use vstd::prelude::*;

use crate::instruction::Instruction;
use crate::registers::{RegisterBitmap, RegisterID};

verus! {

/// Size of a data transfer.
#[derive(Clone, Copy, Debug, PartialEq, Eq, Structural)]
pub enum Size {
    Byte,
    Halfword,
    Word,
}

impl Size {
    pub open spec fn byte_count(self) -> nat {
        match self {
            Size::Byte => 1,
            Size::Halfword => 2,
            Size::Word => 4,
        }
    }

    pub fn bytes(self) -> (r: usize)
        ensures
            r == self.byte_count(),
    {
        match self {
            Size::Byte => 1,
            Size::Halfword => 2,
            Size::Word => 4,
        }
    }
}

/// Where the base address of a transfer comes from, and the role of its register.
#[derive(Clone, Copy, Debug, PartialEq, Eq, Structural)]
pub enum RegMode {
    /// No base register (literal addressing, table branches).
    NA,
    /// The address is read from the register (post-indexed forms).
    Source(RegisterID),
    /// The address comes from the AGU; the register may be written back.
    Destination(RegisterID),
}

impl RegMode {
    /// The register; there must be one.
    pub fn unwrap(self) -> (r: RegisterID)
        requires
            !(self is NA),
        ensures
            self == RegMode::Source(r) || self == RegMode::Destination(r),
    {
        match self {
            RegMode::Source(reg) | RegMode::Destination(reg) => reg,
            RegMode::NA => RegisterID::PC,
        }
    }
}

/// The data registers of a multiple or dual transfer, to be iterated.
#[derive(Clone, Copy, Debug, PartialEq, Eq, Structural)]
pub enum RegPreIter {
    BitMap(RegisterBitmap),
    Pair(RegisterID, RegisterID),
}

/// Kind of a memory instruction, with its transferred register and writeback.
#[derive(Clone, Copy, Debug, PartialEq, Eq, Structural)]
pub enum MemoryInstructionDescription {
    LoadSingle { rt: RegisterID, writeback: bool },
    StoreSingle { rt: RegisterID, writeback: bool },
    LoadMultiple { writeback: bool, is_narrow_ldm: bool },
    StoreMultiple { writeback: bool },
    NoMemoryAccess,
}

/// The memory description of an instruction. Dual transfers are made as multiple ones;
/// unprivileged and exclusive transfers never write back; a table branch loads the PC.
pub open spec fn memory_description(instr: Instruction) -> MemoryInstructionDescription {
    match instr {
        Instruction::LoadRegister_Immediate { rt, wback, .. }
        | Instruction::LoadRegister_Register { rt, wback, .. }
        | Instruction::LoadRegisterByte_Immediate { rt, wback, .. }
        | Instruction::LoadRegisterByte_Register { rt, wback, .. }
        | Instruction::LoadRegisterHalfword_Immediate { rt, wback, .. }
        | Instruction::LoadRegisterHalfword_Register { rt, wback, .. }
        | Instruction::LoadRegisterSignedByte_Immediate { rt, wback, .. }
        | Instruction::LoadRegisterSignedByte_Register { rt, wback, .. }
        | Instruction::LoadRegisterSignedHalfword_Immediate { rt, wback, .. }
        | Instruction::LoadRegisterSignedHalfword_Register { rt, wback, .. } => MemoryInstructionDescription::LoadSingle { rt, writeback: wback },
        Instruction::LoadRegister_Literal { rt, .. }
        | Instruction::LoadRegisterByte_Literal { rt, .. }
        | Instruction::LoadRegisterHalfword_Literal { rt, .. }
        | Instruction::LoadRegisterSignedByte_Literal { rt, .. }
        | Instruction::LoadRegisterSignedHalfword_Literal { rt, .. }
        | Instruction::LoadRegisterUnprivileged { rt, .. }
        | Instruction::LoadRegisterByteUnprivileged { rt, .. }
        | Instruction::LoadRegisterHalfwordUnprivileged { rt, .. }
        | Instruction::LoadRegisterSignedByteUnprivileged { rt, .. }
        | Instruction::LoadRegisterSignedHalfwordUnprivileged { rt, .. }
        | Instruction::LoadRegisterExclusive { rt, .. }
        | Instruction::LoadRegisterExclusiveByte { rt, .. }
        | Instruction::LoadRegisterExclusiveHalfword {
            rt,
            ..
        } => MemoryInstructionDescription::LoadSingle { rt, writeback: false },
        Instruction::TableBranch { .. } => MemoryInstructionDescription::LoadSingle {
            rt: RegisterID::PC,
            writeback: false,
        },
        Instruction::StoreRegister_Immediate { rt, wback, .. }
        | Instruction::StoreRegister_Register { rt, wback, .. }
        | Instruction::StoreRegisterByte_Immediate { rt, wback, .. }
        | Instruction::StoreRegisterByte_Register { rt, wback, .. }
        | Instruction::StoreRegisterHalfword_Immediate { rt, wback, .. }
        | Instruction::StoreRegisterHalfword_Register { rt, wback, .. } => MemoryInstructionDescription::StoreSingle { rt, writeback: wback },
        Instruction::StoreRegisterUnprivileged { rt, .. }
        | Instruction::StoreRegisterByteUnprivileged { rt, .. }
        | Instruction::StoreRegisterHalfwordUnprivileged { rt, .. }
        | Instruction::StoreRegisterExclusive { rt, .. }
        | Instruction::StoreRegisterExclusiveByte { rt, .. }
        | Instruction::StoreRegisterExclusiveHalfword {
            rt,
            ..
        } => MemoryInstructionDescription::StoreSingle { rt, writeback: false },
        Instruction::LoadRegisterDual_Immediate { wback, .. } => MemoryInstructionDescription::LoadMultiple {
            writeback: wback,
            is_narrow_ldm: false,
        },
        Instruction::LoadRegisterDual_Literal { .. } => MemoryInstructionDescription::LoadMultiple {
            writeback: false,
            is_narrow_ldm: false,
        },
        Instruction::StoreRegisterDual_Immediate { wback, .. } => MemoryInstructionDescription::StoreMultiple {
            writeback: wback,
        },
        Instruction::LoadMultiple { wback, is_narrow, .. } => MemoryInstructionDescription::LoadMultiple {
            writeback: wback,
            is_narrow_ldm: is_narrow,
        },
        Instruction::LoadMultipleDecrementBefore {
            wback,
            ..
        } => MemoryInstructionDescription::LoadMultiple { writeback: wback, is_narrow_ldm: false },
        Instruction::StoreMultiple { wback, .. }
        | Instruction::StoreMultipleDecrementBefore {
            wback,
            ..
        } => MemoryInstructionDescription::StoreMultiple { writeback: wback },
        _ => MemoryInstructionDescription::NoMemoryAccess,
    }
}

impl Instruction {
    pub fn get_memory_description(&self) -> (r: MemoryInstructionDescription)
        ensures
            r == memory_description(*self),
    {
        match *self {
            Instruction::LoadRegister_Immediate { rt, wback, .. }
            | Instruction::LoadRegister_Register { rt, wback, .. }
            | Instruction::LoadRegisterByte_Immediate { rt, wback, .. }
            | Instruction::LoadRegisterByte_Register { rt, wback, .. }
            | Instruction::LoadRegisterHalfword_Immediate { rt, wback, .. }
            | Instruction::LoadRegisterHalfword_Register { rt, wback, .. }
            | Instruction::LoadRegisterSignedByte_Immediate { rt, wback, .. }
            | Instruction::LoadRegisterSignedByte_Register { rt, wback, .. }
            | Instruction::LoadRegisterSignedHalfword_Immediate { rt, wback, .. }
            | Instruction::LoadRegisterSignedHalfword_Register { rt, wback, .. } => MemoryInstructionDescription::LoadSingle { rt, writeback: wback },
            Instruction::LoadRegister_Literal { rt, .. }
            | Instruction::LoadRegisterByte_Literal { rt, .. }
            | Instruction::LoadRegisterHalfword_Literal { rt, .. }
            | Instruction::LoadRegisterSignedByte_Literal { rt, .. }
            | Instruction::LoadRegisterSignedHalfword_Literal { rt, .. }
            | Instruction::LoadRegisterUnprivileged { rt, .. }
            | Instruction::LoadRegisterByteUnprivileged { rt, .. }
            | Instruction::LoadRegisterHalfwordUnprivileged { rt, .. }
            | Instruction::LoadRegisterSignedByteUnprivileged { rt, .. }
            | Instruction::LoadRegisterSignedHalfwordUnprivileged { rt, .. }
            | Instruction::LoadRegisterExclusive { rt, .. }
            | Instruction::LoadRegisterExclusiveByte { rt, .. }
            | Instruction::LoadRegisterExclusiveHalfword {
                rt,
                ..
            } => MemoryInstructionDescription::LoadSingle { rt, writeback: false },
            Instruction::TableBranch { .. } => MemoryInstructionDescription::LoadSingle {
                rt: RegisterID::PC,
                writeback: false,
            },
            Instruction::StoreRegister_Immediate { rt, wback, .. }
            | Instruction::StoreRegister_Register { rt, wback, .. }
            | Instruction::StoreRegisterByte_Immediate { rt, wback, .. }
            | Instruction::StoreRegisterByte_Register { rt, wback, .. }
            | Instruction::StoreRegisterHalfword_Immediate { rt, wback, .. }
            | Instruction::StoreRegisterHalfword_Register { rt, wback, .. } => MemoryInstructionDescription::StoreSingle { rt, writeback: wback },
            Instruction::StoreRegisterUnprivileged { rt, .. }
            | Instruction::StoreRegisterByteUnprivileged { rt, .. }
            | Instruction::StoreRegisterHalfwordUnprivileged { rt, .. }
            | Instruction::StoreRegisterExclusive { rt, .. }
            | Instruction::StoreRegisterExclusiveByte { rt, .. }
            | Instruction::StoreRegisterExclusiveHalfword {
                rt,
                ..
            } => MemoryInstructionDescription::StoreSingle { rt, writeback: false },
            Instruction::LoadRegisterDual_Immediate { wback, .. } => MemoryInstructionDescription::LoadMultiple {
                writeback: wback,
                is_narrow_ldm: false,
            },
            Instruction::LoadRegisterDual_Literal { .. } => MemoryInstructionDescription::LoadMultiple {
                writeback: false,
                is_narrow_ldm: false,
            },
            Instruction::StoreRegisterDual_Immediate { wback, .. } => MemoryInstructionDescription::StoreMultiple {
                writeback: wback,
            },
            Instruction::LoadMultiple { wback, is_narrow, .. } => MemoryInstructionDescription::LoadMultiple {
                writeback: wback,
                is_narrow_ldm: is_narrow,
            },
            Instruction::LoadMultipleDecrementBefore {
                wback,
                ..
            } => MemoryInstructionDescription::LoadMultiple { writeback: wback, is_narrow_ldm: false },
            Instruction::StoreMultiple { wback, .. }
            | Instruction::StoreMultipleDecrementBefore {
                wback,
                ..
            } => MemoryInstructionDescription::StoreMultiple { writeback: wback },
            _ => MemoryInstructionDescription::NoMemoryAccess,
        }
    }
}

// ---------------------------------------------------------------------------
// Description of a memory instruction for the LSU
// ---------------------------------------------------------------------------

/// What the load/store unit needs to know of a memory instruction.
#[derive(Clone, Copy, Debug)]
pub struct MemorierDescription {
    pub size: Size,
    /// Whether the address comes from the AGU or from a register.
    pub addr_from_reg: RegMode,
    /// The data register, if the data is a single register.
    pub single_data_reg: Option<RegisterID>,
    pub writeback: bool,
    pub length: usize,
    pub data_reg_iter: Option<RegPreIter>,
    pub is_store: bool,
    pub is_signed: bool,
    pub is_branch: bool,
    pub is_unpriviledged: bool,
    pub is_exclusive: bool,
    /// Unaligned access is supported.
    pub supports_unaligned: bool,
    pub addr_registers_bitmap: RegisterBitmap,
    pub data_registers_bitmap: RegisterBitmap,
}

impl MemorierDescription {
    /// The base register of the address: the PC when there is no register.
    pub fn addr_base_reg(&self) -> (r: RegisterID)
        ensures
            r == match self.addr_from_reg {
                RegMode::NA => RegisterID::PC,
                RegMode::Destination(reg) => reg,
                RegMode::Source(reg) => reg,
            },
    {
        match self.addr_from_reg {
            RegMode::NA => RegisterID::PC,
            RegMode::Destination(reg) | RegMode::Source(reg) => reg,
        }
    }
}

/// Transfer size: bytes for the byte forms, halfwords for the halfword forms, words
/// otherwise.
pub open spec fn transfer_size(instr: Instruction) -> Size {
    match instr {
        Instruction::LoadRegisterByteUnprivileged { .. }
        | Instruction::LoadRegisterByte_Immediate { .. }
        | Instruction::LoadRegisterByte_Literal { .. }
        | Instruction::LoadRegisterByte_Register { .. }
        | Instruction::LoadRegisterExclusiveByte { .. }
        | Instruction::LoadRegisterSignedByteUnprivileged { .. }
        | Instruction::LoadRegisterSignedByte_Immediate { .. }
        | Instruction::LoadRegisterSignedByte_Literal { .. }
        | Instruction::LoadRegisterSignedByte_Register { .. }
        | Instruction::StoreRegisterByteUnprivileged { .. }
        | Instruction::StoreRegisterByte_Immediate { .. }
        | Instruction::StoreRegisterByte_Register { .. }
        | Instruction::StoreRegisterExclusiveByte { .. } => Size::Byte,
        Instruction::LoadRegisterExclusiveHalfword { .. }
        | Instruction::LoadRegisterHalfwordUnprivileged { .. }
        | Instruction::LoadRegisterHalfword_Immediate { .. }
        | Instruction::LoadRegisterHalfword_Literal { .. }
        | Instruction::LoadRegisterHalfword_Register { .. }
        | Instruction::LoadRegisterSignedHalfwordUnprivileged { .. }
        | Instruction::LoadRegisterSignedHalfword_Immediate { .. }
        | Instruction::LoadRegisterSignedHalfword_Literal { .. }
        | Instruction::LoadRegisterSignedHalfword_Register { .. }
        | Instruction::StoreRegisterExclusiveHalfword { .. }
        | Instruction::StoreRegisterHalfwordUnprivileged { .. }
        | Instruction::StoreRegisterHalfword_Immediate { .. }
        | Instruction::StoreRegisterHalfword_Register { .. } => Size::Halfword,
        _ => Size::Word,
    }
}

fn get_transfer_size(instr: &Instruction) -> (r: Size)
    ensures
        r == transfer_size(*instr),
{
    match instr {
        Instruction::LoadRegisterByteUnprivileged { .. }
        | Instruction::LoadRegisterByte_Immediate { .. }
        | Instruction::LoadRegisterByte_Literal { .. }
        | Instruction::LoadRegisterByte_Register { .. }
        | Instruction::LoadRegisterExclusiveByte { .. }
        | Instruction::LoadRegisterSignedByteUnprivileged { .. }
        | Instruction::LoadRegisterSignedByte_Immediate { .. }
        | Instruction::LoadRegisterSignedByte_Literal { .. }
        | Instruction::LoadRegisterSignedByte_Register { .. }
        | Instruction::StoreRegisterByteUnprivileged { .. }
        | Instruction::StoreRegisterByte_Immediate { .. }
        | Instruction::StoreRegisterByte_Register { .. }
        | Instruction::StoreRegisterExclusiveByte { .. } => Size::Byte,
        Instruction::LoadRegisterExclusiveHalfword { .. }
        | Instruction::LoadRegisterHalfwordUnprivileged { .. }
        | Instruction::LoadRegisterHalfword_Immediate { .. }
        | Instruction::LoadRegisterHalfword_Literal { .. }
        | Instruction::LoadRegisterHalfword_Register { .. }
        | Instruction::LoadRegisterSignedHalfwordUnprivileged { .. }
        | Instruction::LoadRegisterSignedHalfword_Immediate { .. }
        | Instruction::LoadRegisterSignedHalfword_Literal { .. }
        | Instruction::LoadRegisterSignedHalfword_Register { .. }
        | Instruction::StoreRegisterExclusiveHalfword { .. }
        | Instruction::StoreRegisterHalfwordUnprivileged { .. }
        | Instruction::StoreRegisterHalfword_Immediate { .. }
        | Instruction::StoreRegisterHalfword_Register { .. } => Size::Halfword,
        _ => Size::Word,
    }
}

/// Unprivileged forms (`LDRT`, `STRT`, ...).
pub open spec fn unprivileged(instr: Instruction) -> bool {
    instr is LoadRegisterUnprivileged || instr is LoadRegisterByteUnprivileged
        || instr is LoadRegisterHalfwordUnprivileged || instr is LoadRegisterSignedByteUnprivileged
        || instr is LoadRegisterSignedHalfwordUnprivileged || instr is StoreRegisterUnprivileged
        || instr is StoreRegisterByteUnprivileged || instr is StoreRegisterHalfwordUnprivileged
}

/// Exclusive forms (`LDREX`, `STREX`, ...).
pub open spec fn exclusive(instr: Instruction) -> bool {
    instr is LoadRegisterExclusive || instr is LoadRegisterExclusiveByte
        || instr is LoadRegisterExclusiveHalfword || instr is StoreRegisterExclusive
        || instr is StoreRegisterExclusiveByte || instr is StoreRegisterExclusiveHalfword
}

/// Sign-extending loads.
pub open spec fn signed_load(instr: Instruction) -> bool {
    instr is LoadRegisterSignedByteUnprivileged || instr is LoadRegisterSignedByte_Immediate
        || instr is LoadRegisterSignedByte_Literal || instr is LoadRegisterSignedByte_Register
        || instr is LoadRegisterSignedHalfwordUnprivileged || instr is LoadRegisterSignedHalfword_Immediate
        || instr is LoadRegisterSignedHalfword_Literal || instr is LoadRegisterSignedHalfword_Register
}

/// Accesses that support unaligned addresses: word and halfword loads and stores of single
/// registers, and TBH.
pub open spec fn unaligned_supported(instr: Instruction) -> bool {
    instr is LoadRegister_Literal || instr is LoadRegister_Immediate || instr is LoadRegister_Register
        || instr is LoadRegisterUnprivileged || instr is LoadRegisterHalfword_Immediate
        || instr is LoadRegisterHalfword_Register || instr is LoadRegisterHalfword_Literal
        || instr is LoadRegisterHalfwordUnprivileged || instr is LoadRegisterSignedHalfword_Literal
        || instr is LoadRegisterSignedHalfword_Immediate || instr is LoadRegisterSignedHalfword_Register
        || instr is LoadRegisterSignedHalfwordUnprivileged || instr is StoreRegister_Immediate
        || instr is StoreRegister_Register || instr is StoreRegisterUnprivileged
        || instr is StoreRegisterHalfword_Immediate || instr is StoreRegisterHalfword_Register
        || instr is StoreRegisterHalfwordUnprivileged || instr is TableBranch
}

fn flags_of(instr: &Instruction) -> (r: (bool, bool, bool, bool))
    ensures
        r == (unprivileged(*instr), exclusive(*instr), signed_load(*instr), unaligned_supported(*instr)),
{
    let unprivileged = matches!(
        instr,
        Instruction::LoadRegisterUnprivileged { .. }
            | Instruction::LoadRegisterByteUnprivileged { .. }
            | Instruction::LoadRegisterHalfwordUnprivileged { .. }
            | Instruction::LoadRegisterSignedByteUnprivileged { .. }
            | Instruction::LoadRegisterSignedHalfwordUnprivileged { .. }
            | Instruction::StoreRegisterUnprivileged { .. }
            | Instruction::StoreRegisterByteUnprivileged { .. }
            | Instruction::StoreRegisterHalfwordUnprivileged { .. }
    );
    let exclusive = matches!(
        instr,
        Instruction::LoadRegisterExclusive { .. }
            | Instruction::LoadRegisterExclusiveByte { .. }
            | Instruction::LoadRegisterExclusiveHalfword { .. }
            | Instruction::StoreRegisterExclusive { .. }
            | Instruction::StoreRegisterExclusiveByte { .. }
            | Instruction::StoreRegisterExclusiveHalfword { .. }
    );
    let signed = matches!(
        instr,
        Instruction::LoadRegisterSignedByteUnprivileged { .. }
            | Instruction::LoadRegisterSignedByte_Immediate { .. }
            | Instruction::LoadRegisterSignedByte_Literal { .. }
            | Instruction::LoadRegisterSignedByte_Register { .. }
            | Instruction::LoadRegisterSignedHalfwordUnprivileged { .. }
            | Instruction::LoadRegisterSignedHalfword_Immediate { .. }
            | Instruction::LoadRegisterSignedHalfword_Literal { .. }
            | Instruction::LoadRegisterSignedHalfword_Register { .. }
    );
    let unaligned = matches!(
        instr,
        Instruction::LoadRegister_Literal { .. }
            | Instruction::LoadRegister_Immediate { .. }
            | Instruction::LoadRegister_Register { .. }
            | Instruction::LoadRegisterUnprivileged { .. }
            | Instruction::LoadRegisterHalfword_Immediate { .. }
            | Instruction::LoadRegisterHalfword_Register { .. }
            | Instruction::LoadRegisterHalfword_Literal { .. }
            | Instruction::LoadRegisterHalfwordUnprivileged { .. }
            | Instruction::LoadRegisterSignedHalfword_Literal { .. }
            | Instruction::LoadRegisterSignedHalfword_Immediate { .. }
            | Instruction::LoadRegisterSignedHalfword_Register { .. }
            | Instruction::LoadRegisterSignedHalfwordUnprivileged { .. }
            | Instruction::StoreRegister_Immediate { .. }
            | Instruction::StoreRegister_Register { .. }
            | Instruction::StoreRegisterUnprivileged { .. }
            | Instruction::StoreRegisterHalfword_Immediate { .. }
            | Instruction::StoreRegisterHalfword_Register { .. }
            | Instruction::StoreRegisterHalfwordUnprivileged { .. }
            | Instruction::TableBranch { .. }
    );
    (unprivileged, exclusive, signed, unaligned)
}

/// Source of the base address: none for literals and table branches; the AGU for
/// multiple, unprivileged and exclusive accesses and for pre-indexed forms; the register
/// itself for post-indexed forms.
pub open spec fn address_mode(instr: Instruction) -> RegMode {
    match instr {
        Instruction::LoadRegister_Literal { .. }
        | Instruction::LoadRegisterSignedByte_Literal { .. }
        | Instruction::LoadRegisterSignedHalfword_Literal { .. }
        | Instruction::LoadRegisterByte_Literal { .. }
        | Instruction::LoadRegisterHalfword_Literal { .. }
        | Instruction::LoadRegisterDual_Literal { .. } => RegMode::NA,
        Instruction::LoadMultiple { rn, .. }
        | Instruction::LoadMultipleDecrementBefore { rn, .. }
        | Instruction::LoadRegisterByteUnprivileged { rn, .. }
        | Instruction::LoadRegisterExclusive { rn, .. }
        | Instruction::LoadRegisterHalfwordUnprivileged { rn, .. }
        | Instruction::LoadRegisterSignedByteUnprivileged { rn, .. }
        | Instruction::LoadRegisterSignedHalfwordUnprivileged { rn, .. }
        | Instruction::LoadRegisterUnprivileged { rn, .. }
        | Instruction::LoadRegisterExclusiveByte { rn, .. }
        | Instruction::LoadRegisterExclusiveHalfword { rn, .. }
        | Instruction::StoreMultiple { rn, .. }
        | Instruction::StoreMultipleDecrementBefore { rn, .. }
        | Instruction::StoreRegisterByteUnprivileged { rn, .. }
        | Instruction::StoreRegisterExclusive { rn, .. }
        | Instruction::StoreRegisterExclusiveByte { rn, .. }
        | Instruction::StoreRegisterExclusiveHalfword { rn, .. }
        | Instruction::StoreRegisterHalfwordUnprivileged { rn, .. }
        | Instruction::StoreRegisterUnprivileged { rn, .. } => RegMode::Destination(rn),
        Instruction::LoadRegister_Immediate { rn, index, .. }
        | Instruction::LoadRegister_Register { rn, index, .. }
        | Instruction::LoadRegisterByte_Immediate { rn, index, .. }
        | Instruction::LoadRegisterByte_Register { rn, index, .. }
        | Instruction::LoadRegisterDual_Immediate { rn, index, .. }
        | Instruction::LoadRegisterHalfword_Immediate { rn, index, .. }
        | Instruction::LoadRegisterHalfword_Register { rn, index, .. }
        | Instruction::LoadRegisterSignedByte_Immediate { rn, index, .. }
        | Instruction::LoadRegisterSignedByte_Register { rn, index, .. }
        | Instruction::LoadRegisterSignedHalfword_Immediate { rn, index, .. }
        | Instruction::LoadRegisterSignedHalfword_Register { rn, index, .. }
        | Instruction::StoreRegister_Immediate { rn, index, .. }
        | Instruction::StoreRegister_Register { rn, index, .. }
        | Instruction::StoreRegisterByte_Immediate { rn, index, .. }
        | Instruction::StoreRegisterByte_Register { rn, index, .. }
        | Instruction::StoreRegisterHalfword_Immediate { rn, index, .. }
        | Instruction::StoreRegisterHalfword_Register { rn, index, .. }
        | Instruction::StoreRegisterDual_Immediate { rn, index, .. } => if index {
            RegMode::Destination(rn)
        } else {
            RegMode::Source(rn)
        },
        _ => RegMode::NA,
    }
}

fn get_address_mode(instr: &Instruction) -> (r: RegMode)
    ensures
        r == address_mode(*instr),
{
    match *instr {
        Instruction::LoadRegister_Literal { .. }
        | Instruction::LoadRegisterSignedByte_Literal { .. }
        | Instruction::LoadRegisterSignedHalfword_Literal { .. }
        | Instruction::LoadRegisterByte_Literal { .. }
        | Instruction::LoadRegisterHalfword_Literal { .. }
        | Instruction::LoadRegisterDual_Literal { .. } => RegMode::NA,
        Instruction::LoadMultiple { rn, .. }
        | Instruction::LoadMultipleDecrementBefore { rn, .. }
        | Instruction::LoadRegisterByteUnprivileged { rn, .. }
        | Instruction::LoadRegisterExclusive { rn, .. }
        | Instruction::LoadRegisterHalfwordUnprivileged { rn, .. }
        | Instruction::LoadRegisterSignedByteUnprivileged { rn, .. }
        | Instruction::LoadRegisterSignedHalfwordUnprivileged { rn, .. }
        | Instruction::LoadRegisterUnprivileged { rn, .. }
        | Instruction::LoadRegisterExclusiveByte { rn, .. }
        | Instruction::LoadRegisterExclusiveHalfword { rn, .. }
        | Instruction::StoreMultiple { rn, .. }
        | Instruction::StoreMultipleDecrementBefore { rn, .. }
        | Instruction::StoreRegisterByteUnprivileged { rn, .. }
        | Instruction::StoreRegisterExclusive { rn, .. }
        | Instruction::StoreRegisterExclusiveByte { rn, .. }
        | Instruction::StoreRegisterExclusiveHalfword { rn, .. }
        | Instruction::StoreRegisterHalfwordUnprivileged { rn, .. }
        | Instruction::StoreRegisterUnprivileged { rn, .. } => RegMode::Destination(rn),
        Instruction::LoadRegister_Immediate { rn, index, .. }
        | Instruction::LoadRegister_Register { rn, index, .. }
        | Instruction::LoadRegisterByte_Immediate { rn, index, .. }
        | Instruction::LoadRegisterByte_Register { rn, index, .. }
        | Instruction::LoadRegisterDual_Immediate { rn, index, .. }
        | Instruction::LoadRegisterHalfword_Immediate { rn, index, .. }
        | Instruction::LoadRegisterHalfword_Register { rn, index, .. }
        | Instruction::LoadRegisterSignedByte_Immediate { rn, index, .. }
        | Instruction::LoadRegisterSignedByte_Register { rn, index, .. }
        | Instruction::LoadRegisterSignedHalfword_Immediate { rn, index, .. }
        | Instruction::LoadRegisterSignedHalfword_Register { rn, index, .. }
        | Instruction::StoreRegister_Immediate { rn, index, .. }
        | Instruction::StoreRegister_Register { rn, index, .. }
        | Instruction::StoreRegisterByte_Immediate { rn, index, .. }
        | Instruction::StoreRegisterByte_Register { rn, index, .. }
        | Instruction::StoreRegisterHalfword_Immediate { rn, index, .. }
        | Instruction::StoreRegisterHalfword_Register { rn, index, .. }
        | Instruction::StoreRegisterDual_Immediate { rn, index, .. } => if index {
            RegMode::Destination(rn)
        } else {
            RegMode::Source(rn)
        },
        _ => RegMode::NA,
    }
}

/// Registers read to form the address.
pub open spec fn address_registers(instr: Instruction) -> u16 {
    match instr {
        Instruction::LoadRegister_Literal { .. }
        | Instruction::LoadRegisterSignedByte_Literal { .. }
        | Instruction::LoadRegisterSignedHalfword_Literal { .. }
        | Instruction::LoadRegisterByte_Literal { .. }
        | Instruction::LoadRegisterHalfword_Literal { .. }
        | Instruction::LoadRegisterDual_Literal { .. } => 1u16 << 15u16,
        Instruction::LoadMultiple { rn, .. }
        | Instruction::LoadMultipleDecrementBefore { rn, .. }
        | Instruction::LoadRegisterByteUnprivileged { rn, .. }
        | Instruction::LoadRegisterExclusive { rn, .. }
        | Instruction::LoadRegisterHalfwordUnprivileged { rn, .. }
        | Instruction::LoadRegisterSignedByteUnprivileged { rn, .. }
        | Instruction::LoadRegisterSignedHalfwordUnprivileged { rn, .. }
        | Instruction::LoadRegisterUnprivileged { rn, .. }
        | Instruction::LoadRegisterExclusiveByte { rn, .. }
        | Instruction::LoadRegisterExclusiveHalfword { rn, .. }
        | Instruction::StoreMultiple { rn, .. }
        | Instruction::StoreMultipleDecrementBefore { rn, .. }
        | Instruction::StoreRegisterByteUnprivileged { rn, .. }
        | Instruction::StoreRegisterExclusive { rn, .. }
        | Instruction::StoreRegisterExclusiveByte { rn, .. }
        | Instruction::StoreRegisterExclusiveHalfword { rn, .. }
        | Instruction::StoreRegisterHalfwordUnprivileged { rn, .. }
        | Instruction::StoreRegisterUnprivileged { rn, .. }
        | Instruction::LoadRegister_Immediate { rn, .. }
        | Instruction::LoadRegisterByte_Immediate { rn, .. }
        | Instruction::LoadRegisterDual_Immediate { rn, .. }
        | Instruction::LoadRegisterHalfword_Immediate { rn, .. }
        | Instruction::LoadRegisterSignedByte_Immediate { rn, .. }
        | Instruction::LoadRegisterSignedHalfword_Immediate { rn, .. }
        | Instruction::StoreRegister_Immediate { rn, .. }
        | Instruction::StoreRegisterByte_Immediate { rn, .. }
        | Instruction::StoreRegisterHalfword_Immediate { rn, .. }
        | Instruction::StoreRegisterDual_Immediate { rn, .. } => 1u16 << (rn.index_of() as u16),
        Instruction::LoadRegister_Register { rn, rm, .. }
        | Instruction::LoadRegisterByte_Register { rn, rm, .. }
        | Instruction::LoadRegisterHalfword_Register { rn, rm, .. }
        | Instruction::LoadRegisterSignedByte_Register { rn, rm, .. }
        | Instruction::LoadRegisterSignedHalfword_Register { rn, rm, .. }
        | Instruction::StoreRegister_Register { rn, rm, .. }
        | Instruction::StoreRegisterByte_Register { rn, rm, .. }
        | Instruction::StoreRegisterHalfword_Register { rn, rm, .. }
        | Instruction::TableBranch { rn, rm, .. } => (1u16 << (rn.index_of() as u16)) | (1u16 << (rm.index_of() as u16)),
        _ => 0,
    }
}

fn get_address_registers(instr: &Instruction) -> (r: RegisterBitmap)
    ensures
        r.0 == address_registers(*instr),
{
    match *instr {
        Instruction::LoadRegister_Literal { .. }
        | Instruction::LoadRegisterSignedByte_Literal { .. }
        | Instruction::LoadRegisterSignedHalfword_Literal { .. }
        | Instruction::LoadRegisterByte_Literal { .. }
        | Instruction::LoadRegisterHalfword_Literal { .. }
        | Instruction::LoadRegisterDual_Literal { .. } => RegisterBitmap::singleton(RegisterID::PC),
        Instruction::LoadMultiple { rn, .. }
        | Instruction::LoadMultipleDecrementBefore { rn, .. }
        | Instruction::LoadRegisterByteUnprivileged { rn, .. }
        | Instruction::LoadRegisterExclusive { rn, .. }
        | Instruction::LoadRegisterHalfwordUnprivileged { rn, .. }
        | Instruction::LoadRegisterSignedByteUnprivileged { rn, .. }
        | Instruction::LoadRegisterSignedHalfwordUnprivileged { rn, .. }
        | Instruction::LoadRegisterUnprivileged { rn, .. }
        | Instruction::LoadRegisterExclusiveByte { rn, .. }
        | Instruction::LoadRegisterExclusiveHalfword { rn, .. }
        | Instruction::StoreMultiple { rn, .. }
        | Instruction::StoreMultipleDecrementBefore { rn, .. }
        | Instruction::StoreRegisterByteUnprivileged { rn, .. }
        | Instruction::StoreRegisterExclusive { rn, .. }
        | Instruction::StoreRegisterExclusiveByte { rn, .. }
        | Instruction::StoreRegisterExclusiveHalfword { rn, .. }
        | Instruction::StoreRegisterHalfwordUnprivileged { rn, .. }
        | Instruction::StoreRegisterUnprivileged { rn, .. }
        | Instruction::LoadRegister_Immediate { rn, .. }
        | Instruction::LoadRegisterByte_Immediate { rn, .. }
        | Instruction::LoadRegisterDual_Immediate { rn, .. }
        | Instruction::LoadRegisterHalfword_Immediate { rn, .. }
        | Instruction::LoadRegisterSignedByte_Immediate { rn, .. }
        | Instruction::LoadRegisterSignedHalfword_Immediate { rn, .. }
        | Instruction::StoreRegister_Immediate { rn, .. }
        | Instruction::StoreRegisterByte_Immediate { rn, .. }
        | Instruction::StoreRegisterHalfword_Immediate { rn, .. }
        | Instruction::StoreRegisterDual_Immediate { rn, .. } => RegisterBitmap::singleton(rn),
        Instruction::LoadRegister_Register { rn, rm, .. }
        | Instruction::LoadRegisterByte_Register { rn, rm, .. }
        | Instruction::LoadRegisterHalfword_Register { rn, rm, .. }
        | Instruction::LoadRegisterSignedByte_Register { rn, rm, .. }
        | Instruction::LoadRegisterSignedHalfword_Register { rn, rm, .. }
        | Instruction::StoreRegister_Register { rn, rm, .. }
        | Instruction::StoreRegisterByte_Register { rn, rm, .. }
        | Instruction::StoreRegisterHalfword_Register { rn, rm, .. }
        | Instruction::TableBranch { rn, rm, .. } => RegisterBitmap::singleton(rn).with(rm, true),
        _ => RegisterBitmap::new(),
    }
}

/// The data register of single transfers (the PC for table branches).
pub open spec fn single_data_register(instr: Instruction) -> Option<RegisterID> {
    match instr {
        Instruction::LoadRegister_Literal { rt, .. }
        | Instruction::LoadRegisterByteUnprivileged { rt, .. }
        | Instruction::LoadRegisterByte_Literal { rt, .. }
        | Instruction::LoadRegisterExclusive { rt, .. }
        | Instruction::LoadRegisterHalfword_Literal { rt, .. }
        | Instruction::LoadRegisterHalfwordUnprivileged { rt, .. }
        | Instruction::LoadRegisterSignedByte_Literal { rt, .. }
        | Instruction::LoadRegisterSignedHalfword_Literal { rt, .. }
        | Instruction::LoadRegisterSignedByteUnprivileged { rt, .. }
        | Instruction::LoadRegisterSignedHalfwordUnprivileged { rt, .. }
        | Instruction::LoadRegisterUnprivileged { rt, .. }
        | Instruction::LoadRegisterExclusiveByte { rt, .. }
        | Instruction::LoadRegisterExclusiveHalfword { rt, .. }
        | Instruction::StoreRegisterByteUnprivileged { rt, .. }
        | Instruction::StoreRegisterExclusive { rt, .. }
        | Instruction::StoreRegisterExclusiveByte { rt, .. }
        | Instruction::StoreRegisterExclusiveHalfword { rt, .. }
        | Instruction::StoreRegisterHalfwordUnprivileged { rt, .. }
        | Instruction::StoreRegisterUnprivileged { rt, .. }
        | Instruction::LoadRegister_Immediate { rt, .. }
        | Instruction::LoadRegister_Register { rt, .. }
        | Instruction::LoadRegisterByte_Immediate { rt, .. }
        | Instruction::LoadRegisterByte_Register { rt, .. }
        | Instruction::LoadRegisterHalfword_Immediate { rt, .. }
        | Instruction::LoadRegisterHalfword_Register { rt, .. }
        | Instruction::LoadRegisterSignedByte_Immediate { rt, .. }
        | Instruction::LoadRegisterSignedByte_Register { rt, .. }
        | Instruction::LoadRegisterSignedHalfword_Immediate { rt, .. }
        | Instruction::LoadRegisterSignedHalfword_Register { rt, .. }
        | Instruction::StoreRegister_Immediate { rt, .. }
        | Instruction::StoreRegister_Register { rt, .. }
        | Instruction::StoreRegisterByte_Immediate { rt, .. }
        | Instruction::StoreRegisterByte_Register { rt, .. }
        | Instruction::StoreRegisterHalfword_Immediate { rt, .. }
        | Instruction::StoreRegisterHalfword_Register { rt, .. } => Some(rt),
        Instruction::TableBranch { .. } => Some(RegisterID::PC),
        _ => None,
    }
}

fn get_single_data_register(instr: &Instruction) -> (r: Option<RegisterID>)
    ensures
        r == single_data_register(*instr),
{
    match *instr {
        Instruction::LoadRegister_Literal { rt, .. }
        | Instruction::LoadRegisterByteUnprivileged { rt, .. }
        | Instruction::LoadRegisterByte_Literal { rt, .. }
        | Instruction::LoadRegisterExclusive { rt, .. }
        | Instruction::LoadRegisterHalfword_Literal { rt, .. }
        | Instruction::LoadRegisterHalfwordUnprivileged { rt, .. }
        | Instruction::LoadRegisterSignedByte_Literal { rt, .. }
        | Instruction::LoadRegisterSignedHalfword_Literal { rt, .. }
        | Instruction::LoadRegisterSignedByteUnprivileged { rt, .. }
        | Instruction::LoadRegisterSignedHalfwordUnprivileged { rt, .. }
        | Instruction::LoadRegisterUnprivileged { rt, .. }
        | Instruction::LoadRegisterExclusiveByte { rt, .. }
        | Instruction::LoadRegisterExclusiveHalfword { rt, .. }
        | Instruction::StoreRegisterByteUnprivileged { rt, .. }
        | Instruction::StoreRegisterExclusive { rt, .. }
        | Instruction::StoreRegisterExclusiveByte { rt, .. }
        | Instruction::StoreRegisterExclusiveHalfword { rt, .. }
        | Instruction::StoreRegisterHalfwordUnprivileged { rt, .. }
        | Instruction::StoreRegisterUnprivileged { rt, .. }
        | Instruction::LoadRegister_Immediate { rt, .. }
        | Instruction::LoadRegister_Register { rt, .. }
        | Instruction::LoadRegisterByte_Immediate { rt, .. }
        | Instruction::LoadRegisterByte_Register { rt, .. }
        | Instruction::LoadRegisterHalfword_Immediate { rt, .. }
        | Instruction::LoadRegisterHalfword_Register { rt, .. }
        | Instruction::LoadRegisterSignedByte_Immediate { rt, .. }
        | Instruction::LoadRegisterSignedByte_Register { rt, .. }
        | Instruction::LoadRegisterSignedHalfword_Immediate { rt, .. }
        | Instruction::LoadRegisterSignedHalfword_Register { rt, .. }
        | Instruction::StoreRegister_Immediate { rt, .. }
        | Instruction::StoreRegister_Register { rt, .. }
        | Instruction::StoreRegisterByte_Immediate { rt, .. }
        | Instruction::StoreRegisterByte_Register { rt, .. }
        | Instruction::StoreRegisterHalfword_Immediate { rt, .. }
        | Instruction::StoreRegisterHalfword_Register { rt, .. } => Some(rt),
        Instruction::TableBranch { .. } => Some(RegisterID::PC),
        _ => None,
    }
}

/// The data registers of multiple and dual transfers, and how many transfers are made.
pub open spec fn data_registers(instr: Instruction) -> (Option<RegPreIter>, nat, u16) {
    match instr {
        Instruction::LoadMultiple { registers, .. }
        | Instruction::LoadMultipleDecrementBefore { registers, .. }
        | Instruction::StoreMultiple { registers, .. }
        | Instruction::StoreMultipleDecrementBefore { registers, .. } => (Some(RegPreIter::BitMap(registers)), registers.size(), registers.0),
        Instruction::LoadRegisterDual_Literal { rt, rt2, .. }
        | Instruction::LoadRegisterDual_Immediate { rt, rt2, .. }
        | Instruction::StoreRegisterDual_Immediate { rt, rt2, .. } => (
            Some(RegPreIter::Pair(rt, rt2)),
            2,
            (1u16 << (rt.index_of() as u16)) | (1u16 << (rt2.index_of() as u16)),
        ),
        Instruction::LoadRegister_Literal { rt, .. }
        | Instruction::LoadRegisterByteUnprivileged { rt, .. }
        | Instruction::LoadRegisterByte_Literal { rt, .. }
        | Instruction::LoadRegisterExclusive { rt, .. }
        | Instruction::LoadRegisterHalfword_Literal { rt, .. }
        | Instruction::LoadRegisterHalfwordUnprivileged { rt, .. }
        | Instruction::LoadRegisterSignedByte_Literal { rt, .. }
        | Instruction::LoadRegisterSignedHalfword_Literal { rt, .. }
        | Instruction::LoadRegisterSignedByteUnprivileged { rt, .. }
        | Instruction::LoadRegisterSignedHalfwordUnprivileged { rt, .. }
        | Instruction::LoadRegisterUnprivileged { rt, .. }
        | Instruction::LoadRegisterExclusiveByte { rt, .. }
        | Instruction::LoadRegisterExclusiveHalfword { rt, .. }
        | Instruction::StoreRegisterByteUnprivileged { rt, .. }
        | Instruction::StoreRegisterExclusive { rt, .. }
        | Instruction::StoreRegisterExclusiveByte { rt, .. }
        | Instruction::StoreRegisterExclusiveHalfword { rt, .. }
        | Instruction::StoreRegisterHalfwordUnprivileged { rt, .. }
        | Instruction::StoreRegisterUnprivileged { rt, .. }
        | Instruction::LoadRegister_Immediate { rt, .. }
        | Instruction::LoadRegister_Register { rt, .. }
        | Instruction::LoadRegisterByte_Immediate { rt, .. }
        | Instruction::LoadRegisterByte_Register { rt, .. }
        | Instruction::LoadRegisterHalfword_Immediate { rt, .. }
        | Instruction::LoadRegisterHalfword_Register { rt, .. }
        | Instruction::LoadRegisterSignedByte_Immediate { rt, .. }
        | Instruction::LoadRegisterSignedByte_Register { rt, .. }
        | Instruction::LoadRegisterSignedHalfword_Immediate { rt, .. }
        | Instruction::LoadRegisterSignedHalfword_Register { rt, .. }
        | Instruction::StoreRegister_Immediate { rt, .. }
        | Instruction::StoreRegister_Register { rt, .. }
        | Instruction::StoreRegisterByte_Immediate { rt, .. }
        | Instruction::StoreRegisterByte_Register { rt, .. }
        | Instruction::StoreRegisterHalfword_Immediate { rt, .. }
        | Instruction::StoreRegisterHalfword_Register { rt, .. } => (None, 1, 1u16 << (rt.index_of() as u16)),
        _ => (None, 1, 0),
    }
}

fn get_data_registers(instr: &Instruction) -> (r: (Option<RegPreIter>, usize, RegisterBitmap))
    ensures
        r.0 == data_registers(*instr).0,
        r.1 == data_registers(*instr).1,
        r.2.0 == data_registers(*instr).2,
{
    match *instr {
        Instruction::LoadMultiple { registers, .. }
        | Instruction::LoadMultipleDecrementBefore { registers, .. }
        | Instruction::StoreMultiple { registers, .. }
        | Instruction::StoreMultipleDecrementBefore { registers, .. } => (Some(RegPreIter::BitMap(registers)), registers.count() as usize, registers),
        Instruction::LoadRegisterDual_Literal { rt, rt2, .. }
        | Instruction::LoadRegisterDual_Immediate { rt, rt2, .. }
        | Instruction::StoreRegisterDual_Immediate { rt, rt2, .. } => (
            Some(RegPreIter::Pair(rt, rt2)),
            2,
            RegisterBitmap::singleton(rt).with(rt2, true),
        ),
        Instruction::LoadRegister_Literal { rt, .. }
        | Instruction::LoadRegisterByteUnprivileged { rt, .. }
        | Instruction::LoadRegisterByte_Literal { rt, .. }
        | Instruction::LoadRegisterExclusive { rt, .. }
        | Instruction::LoadRegisterHalfword_Literal { rt, .. }
        | Instruction::LoadRegisterHalfwordUnprivileged { rt, .. }
        | Instruction::LoadRegisterSignedByte_Literal { rt, .. }
        | Instruction::LoadRegisterSignedHalfword_Literal { rt, .. }
        | Instruction::LoadRegisterSignedByteUnprivileged { rt, .. }
        | Instruction::LoadRegisterSignedHalfwordUnprivileged { rt, .. }
        | Instruction::LoadRegisterUnprivileged { rt, .. }
        | Instruction::LoadRegisterExclusiveByte { rt, .. }
        | Instruction::LoadRegisterExclusiveHalfword { rt, .. }
        | Instruction::StoreRegisterByteUnprivileged { rt, .. }
        | Instruction::StoreRegisterExclusive { rt, .. }
        | Instruction::StoreRegisterExclusiveByte { rt, .. }
        | Instruction::StoreRegisterExclusiveHalfword { rt, .. }
        | Instruction::StoreRegisterHalfwordUnprivileged { rt, .. }
        | Instruction::StoreRegisterUnprivileged { rt, .. }
        | Instruction::LoadRegister_Immediate { rt, .. }
        | Instruction::LoadRegister_Register { rt, .. }
        | Instruction::LoadRegisterByte_Immediate { rt, .. }
        | Instruction::LoadRegisterByte_Register { rt, .. }
        | Instruction::LoadRegisterHalfword_Immediate { rt, .. }
        | Instruction::LoadRegisterHalfword_Register { rt, .. }
        | Instruction::LoadRegisterSignedByte_Immediate { rt, .. }
        | Instruction::LoadRegisterSignedByte_Register { rt, .. }
        | Instruction::LoadRegisterSignedHalfword_Immediate { rt, .. }
        | Instruction::LoadRegisterSignedHalfword_Register { rt, .. }
        | Instruction::StoreRegister_Immediate { rt, .. }
        | Instruction::StoreRegister_Register { rt, .. }
        | Instruction::StoreRegisterByte_Immediate { rt, .. }
        | Instruction::StoreRegisterByte_Register { rt, .. }
        | Instruction::StoreRegisterHalfword_Immediate { rt, .. }
        | Instruction::StoreRegisterHalfword_Register { rt, .. } => (None, 1, RegisterBitmap::singleton(rt)),
        _ => (None, 1, RegisterBitmap::new()),
    }
}

/// The description of a memory instruction (one with a memory description).
pub fn get_memorier_description(instr: &Instruction) -> (r: MemorierDescription)
    requires
        !(memory_description(*instr) is NoMemoryAccess),
    ensures
        r.writeback == match memory_description(*instr) {
            MemoryInstructionDescription::LoadSingle { writeback, .. } => writeback,
            MemoryInstructionDescription::StoreSingle { writeback, .. } => writeback,
            MemoryInstructionDescription::LoadMultiple { writeback, .. } => writeback,
            MemoryInstructionDescription::StoreMultiple { writeback } => writeback,
            MemoryInstructionDescription::NoMemoryAccess => false,
        },
        r.is_store == (memory_description(*instr) is StoreSingle || memory_description(*instr) is StoreMultiple),
        r.size == transfer_size(*instr),
        r.is_unpriviledged == unprivileged(*instr),
        r.is_exclusive == exclusive(*instr),
        r.is_signed == signed_load(*instr),
        r.supports_unaligned == unaligned_supported(*instr),
        r.is_branch == instr.branch_like(),
        r.addr_from_reg == address_mode(*instr),
        r.addr_registers_bitmap.0 == address_registers(*instr),
        r.single_data_reg == single_data_register(*instr),
        r.data_reg_iter == data_registers(*instr).0,
        r.length == data_registers(*instr).1,
        r.data_registers_bitmap.0 == data_registers(*instr).2,
{
    let desc = instr.get_memory_description();
    let (writeback, is_store) = match desc {
        MemoryInstructionDescription::LoadSingle { writeback, .. } => (writeback, false),
        MemoryInstructionDescription::StoreSingle { writeback, .. } => (writeback, true),
        MemoryInstructionDescription::LoadMultiple { writeback, .. } => (writeback, false),
        MemoryInstructionDescription::StoreMultiple { writeback } => (writeback, true),
        MemoryInstructionDescription::NoMemoryAccess => (false, false),
    };
    let (is_unpriviledged, is_exclusive, is_signed, supports_unaligned) = flags_of(instr);
    let (data_reg_iter, length, data_registers_bitmap) = get_data_registers(instr);
    MemorierDescription {
        writeback,
        is_unpriviledged,
        is_exclusive,
        is_store,
        is_signed,
        size: get_transfer_size(instr),
        is_branch: instr.is_branch(),
        supports_unaligned,
        addr_from_reg: get_address_mode(instr),
        addr_registers_bitmap: get_address_registers(instr),
        single_data_reg: get_single_data_register(instr),
        length,
        data_registers_bitmap,
        data_reg_iter,
    }
}

} // verus!
