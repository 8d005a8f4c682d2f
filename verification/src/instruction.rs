//! Decoded Thumb instructions of the ARMv7-M architecture.
use vstd::prelude::*;

use crate::common::Word;
use crate::registers::{Condition, RegisterBitmap, RegisterID, Shift};

verus! {

/// A decoded instruction: the operation and its operands, as named in the instruction set.
#[allow(non_camel_case_types)]
#[derive(Clone, Copy, Debug, PartialEq, Eq)]
pub enum Instruction {
    AddWithCarry_Immediate {
        rd: RegisterID,
        rn: RegisterID,
        imm32: Word,
        setflags: bool,
    },
    AddWithCarry_Register {
        rd: RegisterID,
        rn: RegisterID,
        rm: RegisterID,
        shift: Shift,
        setflags: bool,
        setflags_depends_on_it: bool,
    },
    Add_Immediate {
        rd: RegisterID,
        rn: RegisterID,
        imm32: Word,
        setflags: bool,
        setflags_depends_on_it: bool,
    },
    Add_Register {
        rd: RegisterID,
        rn: RegisterID,
        rm: RegisterID,
        shift: Shift,
        setflags: bool,
        setflags_depends_on_it: bool,
    },
    Add_SPPlusImmediate {
        rd: RegisterID,
        imm32: Word,
        setflags: bool,
    },
    Add_SPPlusRegister {
        rd: RegisterID,
        rm: RegisterID,
        shift: Shift,
        setflags: bool,
    },
    AddressToRegister {
        rd: RegisterID,
        imm32: Word,
        add: bool,
    },
    And_Immediate {
        rd: RegisterID,
        rn: RegisterID,
        imm32: Word,
        setflags: bool,
        carry: bool,
    },
    And_Register {
        rd: RegisterID,
        rn: RegisterID,
        rm: RegisterID,
        shift: Shift,
        setflags: bool,
        setflags_depends_on_it: bool,
    },
    ArithmeticShiftRight_Immediate {
        rd: RegisterID,
        rm: RegisterID,
        shift: Shift,
        setflags: bool,
        setflags_depends_on_it: bool,
    },
    ArithmeticShiftRight_Register {
        rd: RegisterID,
        rn: RegisterID,
        rm: RegisterID,
        setflags: bool,
        setflags_depends_on_it: bool,
    },
    BitClear_Immediate {
        rd: RegisterID,
        rn: RegisterID,
        imm32: Word,
        setflags: bool,
        carry: bool,
    },
    BitClear_Register {
        rd: RegisterID,
        rn: RegisterID,
        rm: RegisterID,
        shift: Shift,
        setflags: bool,
        setflags_depends_on_it: bool,
    },
    BitFieldClear {
        rd: RegisterID,
        msbit: u8,
        lsbit: u8,
    },
    BitFieldInsert {
        rd: RegisterID,
        rn: RegisterID,
        msbit: u8,
        lsbit: u8,
    },
    BitwiseNot_Immediate {
        rd: RegisterID,
        imm32: Word,
        setflags: bool,
        carry: bool,
    },
    BitwiseNot_Register {
        rd: RegisterID,
        rm: RegisterID,
        shift: Shift,
        setflags: bool,
        setflags_depends_on_it: bool,
    },
    Branch {
        cond: Condition,
        imm32: Word,
    },
    BranchAndExchange {
        rm: RegisterID,
    },
    BranchWithLinkAndExchange_Register {
        rm: RegisterID,
    },
    BranchWithLink_Immediate {
        imm32: Word,
    },
    Breakpoint {
        imm32: Word,
    },
    ByteReversePackedHalfword {
        rd: RegisterID,
        rm: RegisterID,
    },
    ByteReverseSignedHalfword {
        rd: RegisterID,
        rm: RegisterID,
    },
    ByteReverseWord {
        rd: RegisterID,
        rm: RegisterID,
    },
    ChangeProcessorState {
        enable: bool,
        disable: bool,
        affect_pri: bool,
        affect_fault: bool,
    },
    ClearExclusive,
    CompareAndBranch {
        rn: RegisterID,
        imm32: Word,
        nonzero: bool,
    },
    CompareNegative_Immediate {
        rn: RegisterID,
        imm32: Word,
    },
    CompareNegative_Register {
        rn: RegisterID,
        rm: RegisterID,
        shift: Shift,
    },
    Compare_Immediate {
        rn: RegisterID,
        imm32: Word,
    },
    Compare_Register {
        rn: RegisterID,
        rm: RegisterID,
        shift: Shift,
    },
    CountLeadingZeros {
        rd: RegisterID,
        rm: RegisterID,
    },
    DataMemoryBarrier {
        option: u8,
    },
    DataSynchronizationBarrier {
        option: u8,
    },
    ExclusiveOr_Immediate {
        rd: RegisterID,
        rn: RegisterID,
        imm32: Word,
        setflags: bool,
        carry: bool,
    },
    ExclusiveOr_Register {
        rd: RegisterID,
        rn: RegisterID,
        rm: RegisterID,
        shift: Shift,
        setflags: bool,
        setflags_depends_on_it: bool,
    },
    IfThen {
        firstcond: Condition,
        mask: u8,
    },
    InstructionSynchronizationBarrier {
        option: u8,
    },
    LoadMultiple {
        rn: RegisterID,
        registers: RegisterBitmap,
        wback: bool,
        is_narrow: bool,
    },
    LoadMultipleDecrementBefore {
        rn: RegisterID,
        registers: RegisterBitmap,
        wback: bool,
    },
    LoadRegisterByteUnprivileged {
        rt: RegisterID,
        rn: RegisterID,
        imm32: Word,
    },
    LoadRegisterByte_Immediate {
        rt: RegisterID,
        rn: RegisterID,
        imm32: Word,
        index: bool,
        add: bool,
        wback: bool,
    },
    LoadRegisterByte_Literal {
        rt: RegisterID,
        imm32: Word,
        add: bool,
    },
    LoadRegisterByte_Register {
        rt: RegisterID,
        rn: RegisterID,
        rm: RegisterID,
        shift: Shift,
        index: bool,
        add: bool,
        wback: bool,
    },
    LoadRegisterDual_Immediate {
        rt: RegisterID,
        rt2: RegisterID,
        rn: RegisterID,
        imm32: Word,
        index: bool,
        add: bool,
        wback: bool,
    },
    LoadRegisterDual_Literal {
        rt: RegisterID,
        rt2: RegisterID,
        imm32: Word,
        add: bool,
    },
    LoadRegisterExclusive {
        rt: RegisterID,
        rn: RegisterID,
        imm32: Word,
    },
    LoadRegisterExclusiveByte {
        rt: RegisterID,
        rn: RegisterID,
    },
    LoadRegisterExclusiveHalfword {
        rt: RegisterID,
        rn: RegisterID,
    },
    LoadRegisterHalfwordUnprivileged {
        rt: RegisterID,
        rn: RegisterID,
        imm32: Word,
    },
    LoadRegisterHalfword_Immediate {
        rt: RegisterID,
        rn: RegisterID,
        imm32: Word,
        index: bool,
        add: bool,
        wback: bool,
    },
    LoadRegisterHalfword_Literal {
        rt: RegisterID,
        imm32: Word,
        add: bool,
    },
    LoadRegisterHalfword_Register {
        rt: RegisterID,
        rn: RegisterID,
        rm: RegisterID,
        shift: Shift,
        index: bool,
        add: bool,
        wback: bool,
    },
    LoadRegisterSignedByteUnprivileged {
        rt: RegisterID,
        rn: RegisterID,
        imm32: Word,
    },
    LoadRegisterSignedByte_Immediate {
        rt: RegisterID,
        rn: RegisterID,
        imm32: Word,
        index: bool,
        add: bool,
        wback: bool,
    },
    LoadRegisterSignedByte_Literal {
        rt: RegisterID,
        imm32: Word,
        add: bool,
    },
    LoadRegisterSignedByte_Register {
        rt: RegisterID,
        rn: RegisterID,
        rm: RegisterID,
        shift: Shift,
        index: bool,
        add: bool,
        wback: bool,
    },
    LoadRegisterSignedHalfwordUnprivileged {
        rt: RegisterID,
        rn: RegisterID,
        imm32: Word,
    },
    LoadRegisterSignedHalfword_Immediate {
        rt: RegisterID,
        rn: RegisterID,
        imm32: Word,
        index: bool,
        add: bool,
        wback: bool,
    },
    LoadRegisterSignedHalfword_Literal {
        rt: RegisterID,
        imm32: Word,
        add: bool,
    },
    LoadRegisterSignedHalfword_Register {
        rt: RegisterID,
        rn: RegisterID,
        rm: RegisterID,
        shift: Shift,
        index: bool,
        add: bool,
        wback: bool,
    },
    LoadRegisterUnprivileged {
        rt: RegisterID,
        rn: RegisterID,
        imm32: Word,
    },
    LoadRegister_Immediate {
        rt: RegisterID,
        rn: RegisterID,
        imm32: Word,
        index: bool,
        add: bool,
        wback: bool,
    },
    LoadRegister_Literal {
        rt: RegisterID,
        imm32: Word,
        add: bool,
    },
    LoadRegister_Register {
        rt: RegisterID,
        rn: RegisterID,
        rm: RegisterID,
        shift: Shift,
        index: bool,
        add: bool,
        wback: bool,
    },
    LogicalOrNot_Immediate {
        rd: RegisterID,
        rn: RegisterID,
        imm32: Word,
        setflags: bool,
        carry: bool,
    },
    LogicalOrNot_Register {
        rd: RegisterID,
        rn: RegisterID,
        rm: RegisterID,
        shift: Shift,
        setflags: bool,
    },
    LogicalOr_Immediate {
        rd: RegisterID,
        rn: RegisterID,
        imm32: Word,
        setflags: bool,
        carry: bool,
    },
    LogicalOr_Register {
        rd: RegisterID,
        rn: RegisterID,
        rm: RegisterID,
        shift: Shift,
        setflags: bool,
        setflags_depends_on_it: bool,
    },
    LogicalShiftLeft_Immediate {
        rd: RegisterID,
        rm: RegisterID,
        shift: Shift,
        setflags: bool,
        setflags_depends_on_it: bool,
    },
    LogicalShiftLeft_Register {
        rd: RegisterID,
        rn: RegisterID,
        rm: RegisterID,
        setflags: bool,
        setflags_depends_on_it: bool,
    },
    LogicalShiftRight_Immediate {
        rd: RegisterID,
        rm: RegisterID,
        shift: Shift,
        setflags: bool,
        setflags_depends_on_it: bool,
    },
    LogicalShiftRight_Register {
        rd: RegisterID,
        rn: RegisterID,
        rm: RegisterID,
        setflags: bool,
        setflags_depends_on_it: bool,
    },
    MoveToRegisterFromSpecialRegister {
        rd: RegisterID,
        sysm: u8,
    },
    MoveToSpecialRegisterFromARMRegister {
        rn: RegisterID,
        sysm: u8,
        mask: u8,
    },
    MoveTop {
        rd: RegisterID,
        imm16: u16,
    },
    Move_Immediate {
        rd: RegisterID,
        imm32: Word,
        setflags: bool,
        setflags_depends_on_it: bool,
        carry: bool,
    },
    Move_Register {
        rd: RegisterID,
        rm: RegisterID,
        setflags: bool,
    },
    Multiply {
        rd: RegisterID,
        rn: RegisterID,
        rm: RegisterID,
        setflags: bool,
        setflags_depends_on_it: bool,
    },
    MultiplyAccumulate {
        rd: RegisterID,
        rn: RegisterID,
        rm: RegisterID,
        ra: RegisterID,
        setflags: bool,
    },
    MultiplyAndSubtract {
        rd: RegisterID,
        rn: RegisterID,
        rm: RegisterID,
        ra: RegisterID,
    },
    NoOperation,
    PermanentlyUndefined {
        imm32: Word,
    },
    ReverseBits {
        rd: RegisterID,
        rm: RegisterID,
    },
    ReverseSubtract_Immediate {
        rd: RegisterID,
        rn: RegisterID,
        imm32: Word,
        setflags: bool,
        setflags_depends_on_it: bool,
    },
    ReverseSubtract_Register {
        rd: RegisterID,
        rn: RegisterID,
        rm: RegisterID,
        shift: Shift,
        setflags: bool,
    },
    RotateRightWithExtend {
        rd: RegisterID,
        rm: RegisterID,
        setflags: bool,
    },
    RotateRight_Immediate {
        rd: RegisterID,
        rm: RegisterID,
        shift: Shift,
        setflags: bool,
    },
    RotateRight_Register {
        rd: RegisterID,
        rn: RegisterID,
        rm: RegisterID,
        setflags: bool,
        setflags_depends_on_it: bool,
    },
    SendEvent,
    SignedBitFieldExtract {
        rd: RegisterID,
        rn: RegisterID,
        lsbit: u8,
        widthminus1: u8,
    },
    SignedDivide {
        rd: RegisterID,
        rn: RegisterID,
        rm: RegisterID,
    },
    SignedExtendByte {
        rd: RegisterID,
        rm: RegisterID,
        rotation: Shift,
    },
    SignedExtendHalfword {
        rd: RegisterID,
        rm: RegisterID,
        rotation: Shift,
    },
    SignedMultiplyAccumulateLong {
        rd_lo: RegisterID,
        rd_hi: RegisterID,
        rn: RegisterID,
        rm: RegisterID,
    },
    SignedMultiplyLong {
        rd_lo: RegisterID,
        rd_hi: RegisterID,
        rn: RegisterID,
        rm: RegisterID,
    },
    SignedSaturate {
        rd: RegisterID,
        rn: RegisterID,
        saturate_to: u8,
        shift: Shift,
    },
    StoreMultiple {
        rn: RegisterID,
        registers: RegisterBitmap,
        wback: bool,
    },
    StoreMultipleDecrementBefore {
        rn: RegisterID,
        registers: RegisterBitmap,
        wback: bool,
    },
    StoreRegisterByteUnprivileged {
        rt: RegisterID,
        rn: RegisterID,
        imm32: Word,
    },
    StoreRegisterByte_Immediate {
        rt: RegisterID,
        rn: RegisterID,
        imm32: Word,
        index: bool,
        add: bool,
        wback: bool,
    },
    StoreRegisterByte_Register {
        rt: RegisterID,
        rn: RegisterID,
        rm: RegisterID,
        shift: Shift,
        index: bool,
        add: bool,
        wback: bool,
    },
    StoreRegisterDual_Immediate {
        rt: RegisterID,
        rt2: RegisterID,
        rn: RegisterID,
        imm32: Word,
        index: bool,
        add: bool,
        wback: bool,
    },
    StoreRegisterExclusive {
        rd: RegisterID,
        rt: RegisterID,
        rn: RegisterID,
        imm32: Word,
    },
    StoreRegisterExclusiveByte {
        rd: RegisterID,
        rt: RegisterID,
        rn: RegisterID,
    },
    StoreRegisterExclusiveHalfword {
        rd: RegisterID,
        rt: RegisterID,
        rn: RegisterID,
    },
    StoreRegisterHalfwordUnprivileged {
        rt: RegisterID,
        rn: RegisterID,
        imm32: Word,
    },
    StoreRegisterHalfword_Immediate {
        rt: RegisterID,
        rn: RegisterID,
        imm32: Word,
        index: bool,
        add: bool,
        wback: bool,
    },
    StoreRegisterHalfword_Register {
        rt: RegisterID,
        rn: RegisterID,
        rm: RegisterID,
        shift: Shift,
        index: bool,
        add: bool,
        wback: bool,
    },
    StoreRegisterUnprivileged {
        rt: RegisterID,
        rn: RegisterID,
        imm32: Word,
    },
    StoreRegister_Immediate {
        rt: RegisterID,
        rn: RegisterID,
        imm32: Word,
        index: bool,
        add: bool,
        wback: bool,
    },
    StoreRegister_Register {
        rt: RegisterID,
        rn: RegisterID,
        rm: RegisterID,
        shift: Shift,
        index: bool,
        add: bool,
        wback: bool,
    },
    SubtractWithCarry_Immediate {
        rd: RegisterID,
        rn: RegisterID,
        imm32: Word,
        setflags: bool,
    },
    SubtractWithCarry_Register {
        rd: RegisterID,
        rn: RegisterID,
        rm: RegisterID,
        shift: Shift,
        setflags: bool,
        setflags_depends_on_it: bool,
    },
    Subtract_Immediate {
        rd: RegisterID,
        rn: RegisterID,
        imm32: Word,
        setflags: bool,
        setflags_depends_on_it: bool,
    },
    Subtract_Register {
        rd: RegisterID,
        rn: RegisterID,
        rm: RegisterID,
        shift: Shift,
        setflags: bool,
        setflags_depends_on_it: bool,
    },
    Subtract_SPMinusImmediate {
        rd: RegisterID,
        imm32: Word,
        setflags: bool,
    },
    Subtract_SPMinusRegister {
        rd: RegisterID,
        rm: RegisterID,
        shift: Shift,
        setflags: bool,
    },
    SupervisorCall {
        imm32: Word,
    },
    TableBranch {
        rn: RegisterID,
        rm: RegisterID,
        is_tbh: bool,
    },
    TestEquivalence_Immediate {
        rn: RegisterID,
        imm32: Word,
        carry: bool,
    },
    TestEquivalence_Register {
        rn: RegisterID,
        rm: RegisterID,
        shift: Shift,
    },
    Test_Immediate {
        rn: RegisterID,
        imm32: Word,
        carry: bool,
    },
    Test_Register {
        rn: RegisterID,
        rm: RegisterID,
        shift: Shift,
    },
    Undefined,
    Unpredictable,
    UnsignedBitFieldExtract {
        rd: RegisterID,
        rn: RegisterID,
        lsbit: u8,
        widthminus1: u8,
    },
    UnsignedDivide {
        rd: RegisterID,
        rn: RegisterID,
        rm: RegisterID,
    },
    UnsignedExtendByte {
        rd: RegisterID,
        rm: RegisterID,
        rotation: Shift,
    },
    UnsignedExtendHalfword {
        rd: RegisterID,
        rm: RegisterID,
        rotation: Shift,
    },
    UnsignedMultiplyAccumulateLong {
        rd_lo: RegisterID,
        rd_hi: RegisterID,
        rn: RegisterID,
        rm: RegisterID,
    },
    UnsignedMultiplyLong {
        rd_lo: RegisterID,
        rd_hi: RegisterID,
        rn: RegisterID,
        rm: RegisterID,
    },
    UnsignedSaturate {
        rd: RegisterID,
        rn: RegisterID,
        saturate_to: u8,
        shift: Shift,
    },
    Unsupported {
        name: &'static str,
    },
    WaitForEvent,
    WaitForInterrupt,
}

} // verus!
