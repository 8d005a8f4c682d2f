//! Decoding of 32-bit Thumb instructions.
//!
//! An instruction is given as one word whose upper halfword `hw1` comes first in memory.
//! Fields are read arithmetically: `(h / 2^k) % 2^n` is the `n`-bit field at bit `k` of
//! the halfword `h`. Where an encoding has bits that must read `(0)` or `(1)` and do not,
//! the instruction is unpredictable. Each encoding group has a specification function,
//! `spec_<group>`, and an executable function that computes exactly it.
use vstd::prelude::*;

use crate::agu::lsl_offsets_only;
use crate::builtins::{dsp_extension, have_dsp_ext};
use crate::common::Word;
use crate::decode::starts_long;
use crate::instruction::Instruction;
use crate::registers::{Condition, RegisterBitmap, RegisterID, SRType, Shift, XPSR};
use crate::thumb16::reg;

verus! {

/// `v` read as a two's complement number whose sign bit is `top`, extended to a word.
pub open spec fn sign_extend_from(v: u32, top: u32) -> Word {
    if v >= top {
        (v + 0x1_0000_0000 - 2 * top) as Word
    } else {
        v
    }
}

fn sign_extend_word(v: u32, top: u32) -> (r: Word)
    requires
        0 < top <= 0x100_0000,
        v < 2 * top,
    ensures
        r == sign_extend_from(v, top),
{
    if v >= top {
        (v - top) + (0xffff_ffff - top + 1)
    } else {
        v
    }
}

/// Rotation of a word to the right by `n` bits, `0 < n < 32`.
pub open spec fn ror(x: u32, n: u32) -> u32 {
    (x >> n) | (x << ((32 - n) as u32))
}

fn rotate_right(x: u32, n: u32) -> (r: u32)
    requires
        0 < n < 32,
    ensures
        r == ror(x, n),
{
    (x >> n) | (x << (32 - n))
}

/// `ThumbExpandImm_C`: the modified immediate constant `imm12` of the data-processing
/// instructions and its carry, or `Unpredictable` for a zero byte in a replicated pattern.
pub open spec fn spec_thumb_expand_imm_c(imm12: u32, carry_in: bool) -> Result<(Word, bool), Instruction> {
    let byte = imm12 % 256;
    if (imm12 / 1024) % 4 == 0 {
        let pattern = (imm12 / 256) % 4;
        if pattern == 0 {
            Ok((byte, carry_in))
        } else if byte == 0 {
            Err(Instruction::Unpredictable)
        } else if pattern == 1 {
            Ok(((byte * 0x1_0001) as u32, carry_in))
        } else if pattern == 2 {
            Ok(((byte * 0x100_0100) as u32, carry_in))
        } else {
            Ok(((byte * 0x101_0101) as u32, carry_in))
        }
    } else {
        let value = ror((128 + imm12 % 128) as u32, (imm12 / 128) % 32);
        Ok((value, value >= 0x8000_0000))
    }
}

/// `ThumbExpandImm_C`: the modified immediate constant of the data-processing instructions.
pub fn thumb_expand_imm_c(imm12: u32, carry_in: bool) -> (r: Result<(Word, bool), Instruction>)
    requires
        imm12 < 0x1000,
    ensures
        r == spec_thumb_expand_imm_c(imm12, carry_in),
{
    let byte = imm12 % 256;
    if (imm12 / 1024) % 4 == 0 {
        let pattern = (imm12 / 256) % 4;
        if pattern == 0 {
            Ok((byte, carry_in))
        } else if byte == 0 {
            Err(Instruction::Unpredictable)
        } else if pattern == 1 {
            Ok((byte * 0x1_0001, carry_in))
        } else if pattern == 2 {
            Ok((byte * 0x100_0100, carry_in))
        } else {
            Ok((byte * 0x101_0101, carry_in))
        }
    } else {
        let value = rotate_right(128 + imm12 % 128, (imm12 / 128) % 32);
        Ok((value, value >= 0x8000_0000))
    }
}

/// `ThumbExpandImm`: the modified immediate constant, the carry taken from `xpsr`.
pub open spec fn spec_thumb_expand_imm(imm12: u32, xpsr: XPSR) -> Result<Word, Instruction> {
    match spec_thumb_expand_imm_c(imm12, xpsr.carry) {
        Ok((value, _)) => Ok(value),
        Err(e) => Err(e),
    }
}

/// `ThumbExpandImm`: the modified immediate constant, the carry taken from `xpsr`.
pub fn thumb_expand_imm(imm12: u32, xpsr: XPSR) -> (r: Result<Word, Instruction>)
    requires
        imm12 < 0x1000,
    ensures
        r == spec_thumb_expand_imm(imm12, xpsr),
{
    match thumb_expand_imm_c(imm12, xpsr.carry_flag()) {
        Ok((value, _)) => Ok(value),
        Err(e) => Err(e),
    }
}

/// Whether two fields that the encoding repeats agree.
pub open spec fn spec_consistent(lhs: u32, rhs: u32) -> bool {
    lhs == rhs
}

/// Whether two fields that the encoding repeats agree.
pub fn consistent(lhs: u32, rhs: u32) -> (r: bool)
    ensures
        r == spec_consistent(lhs, rhs),
{
    lhs == rhs
}


/// Load/store multiple, `11101 00 op 0 W L Rn`.
pub open spec fn spec_load_store_multiple(hw1: u32, hw2: u32, xpsr: XPSR) -> Instruction {
    let op = (hw1 / 128) % 4;
    let w = (hw1 / 32) % 2;
    let l = (hw1 / 16) % 2;
    let rn = hw1 % 16;
    let p = (hw2 / 32768) % 2;
    let m = (hw2 / 16384) % 2;
    let list = hw2 % 8192;
    let zero_bit = (hw2 / 8192) % 2 == 0;
    let stores = RegisterBitmap((m * 16384 + list) as u16);
    let loads = RegisterBitmap((p * 32768 + m * 16384 + list) as u16);
    let wback = w == 1;
    let it_not_last = xpsr.in_it() && !xpsr.last_in_it();
    let stack = w == 1 && rn == 13;
    if op == 1 && l == 0 {
        if p != 0 || !zero_bit {
            Instruction::Unpredictable
        } else if rn == 15 || stores.size() < 2 || (wback && stores.has(reg(rn))) {
            Instruction::Unpredictable
        } else {
            Instruction::StoreMultiple { rn: reg(rn), registers: stores, wback }
        }
    } else if op == 1 && !stack {
        if !zero_bit {
            Instruction::Unpredictable
        } else if rn == 15 || loads.size() < 2 || (p == 1 && m == 1) || (loads.has(reg(15))
            && it_not_last) || (wback && loads.has(reg(rn))) {
            Instruction::Unpredictable
        } else {
            Instruction::LoadMultiple { rn: reg(rn), registers: loads, wback, is_narrow: false }
        }
    } else if op == 1 {
        // POP: LDMIA SP!
        if !zero_bit {
            Instruction::Unpredictable
        } else if loads.size() < 2 || (p == 1 && m == 1) || (loads.has(reg(15)) && it_not_last) {
            Instruction::Unpredictable
        } else {
            Instruction::LoadMultiple { rn: RegisterID::SP, registers: loads, wback: true, is_narrow: false }
        }
    } else if op == 2 && l == 0 && !stack {
        if p != 0 || !zero_bit {
            Instruction::Unpredictable
        } else if rn == 15 || stores.size() < 2 || (wback && stores.has(reg(rn))) {
            Instruction::Unpredictable
        } else {
            Instruction::StoreMultipleDecrementBefore { rn: reg(rn), registers: stores, wback }
        }
    } else if op == 2 && l == 0 {
        // PUSH: STMDB SP!
        if p != 0 || !zero_bit {
            Instruction::Unpredictable
        } else if stores.size() < 2 {
            Instruction::Unpredictable
        } else {
            Instruction::StoreMultipleDecrementBefore { rn: RegisterID::SP, registers: stores, wback: true }
        }
    } else if op == 2 {
        if !zero_bit {
            Instruction::Unpredictable
        } else if rn == 15 || loads.size() < 2 || (p == 1 && m == 1) || (loads.has(reg(15))
            && it_not_last) || (wback && loads.has(reg(rn))) {
            Instruction::Unpredictable
        } else {
            Instruction::LoadMultipleDecrementBefore { rn: reg(rn), registers: loads, wback }
        }
    } else {
        Instruction::Undefined
    }
}

fn load_store_multiple(hw1: u32, hw2: u32, xpsr: XPSR) -> (r: Instruction)
    requires
        hw1 < 0x10000,
        hw2 < 0x10000,
    ensures
        r == spec_load_store_multiple(hw1, hw2, xpsr),
{
    let op = (hw1 / 128) % 4;
    let w = (hw1 / 32) % 2;
    let l = (hw1 / 16) % 2;
    let rn = hw1 % 16;
    let p = (hw2 / 32768) % 2;
    let m = (hw2 / 16384) % 2;
    let list = hw2 % 8192;
    let zero_bit = (hw2 / 8192) % 2 == 0;
    let stores = RegisterBitmap((m * 16384 + list) as u16);
    let loads = RegisterBitmap((p * 32768 + m * 16384 + list) as u16);
    let wback = w == 1;
    let it_not_last = xpsr.in_it_block() && !xpsr.last_in_it_block();
    let stack = w == 1 && rn == 13;
    if op == 1 && l == 0 {
        if p != 0 || !zero_bit {
            Instruction::Unpredictable
        } else if rn == 15 || stores.count() < 2 || (wback && stores.get(RegisterID::from_index(rn))) {
            Instruction::Unpredictable
        } else {
            Instruction::StoreMultiple { rn: RegisterID::from_index(rn), registers: stores, wback }
        }
    } else if op == 1 && !stack {
        if !zero_bit {
            Instruction::Unpredictable
        } else if rn == 15 || loads.count() < 2 || (p == 1 && m == 1) || (loads.get(RegisterID::from_index(15))
            && it_not_last) || (wback && loads.get(RegisterID::from_index(rn))) {
            Instruction::Unpredictable
        } else {
            Instruction::LoadMultiple { rn: RegisterID::from_index(rn), registers: loads, wback, is_narrow: false }
        }
    } else if op == 1 {
        // POP: LDMIA SP!
        if !zero_bit {
            Instruction::Unpredictable
        } else if loads.count() < 2 || (p == 1 && m == 1) || (loads.get(RegisterID::from_index(15)) && it_not_last) {
            Instruction::Unpredictable
        } else {
            Instruction::LoadMultiple { rn: RegisterID::SP, registers: loads, wback: true, is_narrow: false }
        }
    } else if op == 2 && l == 0 && !stack {
        if p != 0 || !zero_bit {
            Instruction::Unpredictable
        } else if rn == 15 || stores.count() < 2 || (wback && stores.get(RegisterID::from_index(rn))) {
            Instruction::Unpredictable
        } else {
            Instruction::StoreMultipleDecrementBefore { rn: RegisterID::from_index(rn), registers: stores, wback }
        }
    } else if op == 2 && l == 0 {
        // PUSH: STMDB SP!
        if p != 0 || !zero_bit {
            Instruction::Unpredictable
        } else if stores.count() < 2 {
            Instruction::Unpredictable
        } else {
            Instruction::StoreMultipleDecrementBefore { rn: RegisterID::SP, registers: stores, wback: true }
        }
    } else if op == 2 {
        if !zero_bit {
            Instruction::Unpredictable
        } else if rn == 15 || loads.count() < 2 || (p == 1 && m == 1) || (loads.get(RegisterID::from_index(15))
            && it_not_last) || (wback && loads.get(RegisterID::from_index(rn))) {
            Instruction::Unpredictable
        } else {
            Instruction::LoadMultipleDecrementBefore { rn: RegisterID::from_index(rn), registers: loads, wback }
        }
    } else {
        Instruction::Undefined
    }
}


/// Load/store dual, exclusive and table branch, `11101 00 op1 1 op2 Rn`.
pub open spec fn spec_dual_exclusive_table(hw1: u32, hw2: u32, xpsr: XPSR) -> Instruction {
    let op1 = (hw1 / 128) % 4;
    let op2 = (hw1 / 16) % 4;
    let op3 = (hw2 / 16) % 16;
    let p = (hw1 / 256) % 2;
    let u = (hw1 / 128) % 2;
    let w = (hw1 / 32) % 2;
    let rn = hw1 % 16;
    let rt = (hw2 / 4096) % 16;
    let rt2 = (hw2 / 256) % 16;
    let rd = hw2 % 16;
    let imm32 = ((hw2 % 256) * 4) as u32;
    let wback = w == 1;
    let ones_11_8 = (hw2 / 256) % 16 == 15;
    if op1 == 0 && op2 == 0 {
        // STREX: the status register is in bits 11:8.
        if rt2 == 13 || rt2 == 15 || rt == 13 || rt == 15 || rn == 15 || rt2 == rn || rt2 == rt {
            Instruction::Unpredictable
        } else {
            Instruction::StoreRegisterExclusive { rd: reg(rt2), rt: reg(rt), rn: reg(rn), imm32 }
        }
    } else if op1 == 0 && op2 == 1 {
        if !ones_11_8 {
            Instruction::Unpredictable
        } else if rt == 13 || rt == 15 || rn == 15 {
            Instruction::Unpredictable
        } else {
            Instruction::LoadRegisterExclusive { rt: reg(rt), rn: reg(rn), imm32 }
        }
    } else if (op1 < 2 && op2 == 2) || (op1 >= 2 && op2 % 2 == 0) {
        if (wback && (rn == rt || rn == rt2)) || rn == 15 || rt == 13 || rt == 15 || rt2 == 13 || rt2 == 15 {
            Instruction::Unpredictable
        } else {
            Instruction::StoreRegisterDual_Immediate {
                rt: reg(rt),
                rt2: reg(rt2),
                rn: reg(rn),
                imm32,
                index: p == 1,
                add: u == 1,
                wback,
            }
        }
    } else if (op1 < 2 && op2 == 3) || op1 >= 2 {
        if rn == 15 {
            if rt == 13 || rt == 15 || rt2 == 13 || rt2 == 15 || rt == rt2 || w == 1 {
                Instruction::Unpredictable
            } else {
                Instruction::LoadRegisterDual_Literal { rt: reg(rt), rt2: reg(rt2), imm32, add: u == 1 }
            }
        } else if (wback && (rn == rt || rn == rt2)) || rt == 13 || rt == 15 || rt2 == 13 || rt2 == 15 || rt == rt2 {
            Instruction::Unpredictable
        } else {
            Instruction::LoadRegisterDual_Immediate {
                rt: reg(rt),
                rt2: reg(rt2),
                rn: reg(rn),
                imm32,
                index: p == 1,
                add: u == 1,
                wback,
            }
        }
    } else if op1 == 1 && op2 == 0 && (op3 == 4 || op3 == 5) {
        if !ones_11_8 {
            Instruction::Unpredictable
        } else if rd == 13 || rd == 15 || rt == 13 || rt == 15 || rn == 15 || rd == rn || rd == rt {
            Instruction::Unpredictable
        } else if op3 == 4 {
            Instruction::StoreRegisterExclusiveByte { rd: reg(rd), rt: reg(rt), rn: reg(rn) }
        } else {
            Instruction::StoreRegisterExclusiveHalfword { rd: reg(rd), rt: reg(rt), rn: reg(rn) }
        }
    } else if op1 == 1 && op2 == 1 && op3 < 2 {
        if rt != 15 || rt2 != 0 {
            Instruction::Unpredictable
        } else if rn == 13 || rd == 13 || rd == 15 || (xpsr.in_it() && !xpsr.last_in_it()) {
            Instruction::Unpredictable
        } else {
            Instruction::TableBranch { rn: reg(rn), rm: reg(rd), is_tbh: op3 == 1 }
        }
    } else if op1 == 1 && op2 == 1 && (op3 == 4 || op3 == 5) {
        if !ones_11_8 || rd != 15 {
            Instruction::Unpredictable
        } else if rt == 13 || rt == 15 || rn == 15 {
            Instruction::Unpredictable
        } else if op3 == 4 {
            Instruction::LoadRegisterExclusiveByte { rt: reg(rt), rn: reg(rn) }
        } else {
            Instruction::LoadRegisterExclusiveHalfword { rt: reg(rt), rn: reg(rn) }
        }
    } else {
        Instruction::Undefined
    }
}

fn dual_exclusive_table(hw1: u32, hw2: u32, xpsr: XPSR) -> (r: Instruction)
    requires
        hw1 < 0x10000,
        hw2 < 0x10000,
    ensures
        r == spec_dual_exclusive_table(hw1, hw2, xpsr),
{
    let op1 = (hw1 / 128) % 4;
    let op2 = (hw1 / 16) % 4;
    let op3 = (hw2 / 16) % 16;
    let p = (hw1 / 256) % 2;
    let u = (hw1 / 128) % 2;
    let w = (hw1 / 32) % 2;
    let rn = hw1 % 16;
    let rt = (hw2 / 4096) % 16;
    let rt2 = (hw2 / 256) % 16;
    let rd = hw2 % 16;
    let imm32 = ((hw2 % 256) * 4) as u32;
    let wback = w == 1;
    let ones_11_8 = (hw2 / 256) % 16 == 15;
    if op1 == 0 && op2 == 0 {
        // STREX: the status register is in bits 11:8.
        if rt2 == 13 || rt2 == 15 || rt == 13 || rt == 15 || rn == 15 || rt2 == rn || rt2 == rt {
            Instruction::Unpredictable
        } else {
            Instruction::StoreRegisterExclusive { rd: RegisterID::from_index(rt2), rt: RegisterID::from_index(rt), rn: RegisterID::from_index(rn), imm32 }
        }
    } else if op1 == 0 && op2 == 1 {
        if !ones_11_8 {
            Instruction::Unpredictable
        } else if rt == 13 || rt == 15 || rn == 15 {
            Instruction::Unpredictable
        } else {
            Instruction::LoadRegisterExclusive { rt: RegisterID::from_index(rt), rn: RegisterID::from_index(rn), imm32 }
        }
    } else if (op1 < 2 && op2 == 2) || (op1 >= 2 && op2 % 2 == 0) {
        if (wback && (rn == rt || rn == rt2)) || rn == 15 || rt == 13 || rt == 15 || rt2 == 13 || rt2 == 15 {
            Instruction::Unpredictable
        } else {
            Instruction::StoreRegisterDual_Immediate {
                rt: RegisterID::from_index(rt),
                rt2: RegisterID::from_index(rt2),
                rn: RegisterID::from_index(rn),
                imm32,
                index: p == 1,
                add: u == 1,
                wback,
            }
        }
    } else if (op1 < 2 && op2 == 3) || op1 >= 2 {
        if rn == 15 {
            if rt == 13 || rt == 15 || rt2 == 13 || rt2 == 15 || rt == rt2 || w == 1 {
                Instruction::Unpredictable
            } else {
                Instruction::LoadRegisterDual_Literal { rt: RegisterID::from_index(rt), rt2: RegisterID::from_index(rt2), imm32, add: u == 1 }
            }
        } else if (wback && (rn == rt || rn == rt2)) || rt == 13 || rt == 15 || rt2 == 13 || rt2 == 15 || rt == rt2 {
            Instruction::Unpredictable
        } else {
            Instruction::LoadRegisterDual_Immediate {
                rt: RegisterID::from_index(rt),
                rt2: RegisterID::from_index(rt2),
                rn: RegisterID::from_index(rn),
                imm32,
                index: p == 1,
                add: u == 1,
                wback,
            }
        }
    } else if op1 == 1 && op2 == 0 && (op3 == 4 || op3 == 5) {
        if !ones_11_8 {
            Instruction::Unpredictable
        } else if rd == 13 || rd == 15 || rt == 13 || rt == 15 || rn == 15 || rd == rn || rd == rt {
            Instruction::Unpredictable
        } else if op3 == 4 {
            Instruction::StoreRegisterExclusiveByte { rd: RegisterID::from_index(rd), rt: RegisterID::from_index(rt), rn: RegisterID::from_index(rn) }
        } else {
            Instruction::StoreRegisterExclusiveHalfword { rd: RegisterID::from_index(rd), rt: RegisterID::from_index(rt), rn: RegisterID::from_index(rn) }
        }
    } else if op1 == 1 && op2 == 1 && op3 < 2 {
        if rt != 15 || rt2 != 0 {
            Instruction::Unpredictable
        } else if rn == 13 || rd == 13 || rd == 15 || (xpsr.in_it_block() && !xpsr.last_in_it_block()) {
            Instruction::Unpredictable
        } else {
            Instruction::TableBranch { rn: RegisterID::from_index(rn), rm: RegisterID::from_index(rd), is_tbh: op3 == 1 }
        }
    } else if op1 == 1 && op2 == 1 && (op3 == 4 || op3 == 5) {
        if !ones_11_8 || rd != 15 {
            Instruction::Unpredictable
        } else if rt == 13 || rt == 15 || rn == 15 {
            Instruction::Unpredictable
        } else if op3 == 4 {
            Instruction::LoadRegisterExclusiveByte { rt: RegisterID::from_index(rt), rn: RegisterID::from_index(rn) }
        } else {
            Instruction::LoadRegisterExclusiveHalfword { rt: RegisterID::from_index(rt), rn: RegisterID::from_index(rn) }
        }
    } else {
        Instruction::Undefined
    }
}


/// Data processing with a shifted register operand, `11101 01 op S Rn`.
pub open spec fn spec_data_processing_shifted_register(hw1: u32, hw2: u32, xpsr: XPSR) -> Instruction {
    let op = (hw1 / 32) % 16;
    let s = (hw1 / 16) % 2;
    let rn = hw1 % 16;
    let imm3 = (hw2 / 4096) % 8;
    let rd = (hw2 / 256) % 16;
    let imm2 = (hw2 / 64) % 4;
    let ty = (hw2 / 16) % 4;
    let rm = hw2 % 16;
    let imm5 = (imm3 * 4 + imm2) as u8;
    let shift = Shift::spec_decode_imm_shift(ty as u8, imm5);
    let setflags = s == 1;
    let bad_rm = rm == 13 || rm == 15;
    if op == 5 || op == 6 || op == 7 || op == 9 || op == 12 || op == 15 {
        Instruction::Undefined
    } else if (hw2 / 32768) % 2 != 0 {
        Instruction::Unpredictable
    } else if op == 0 {
        if rd == 15 && s == 0 {
            Instruction::Unpredictable
        } else if rd == 15 {
            if rn == 13 || rn == 15 || bad_rm {
                Instruction::Unpredictable
            } else {
                Instruction::Test_Register { rn: reg(rn), rm: reg(rm), shift }
            }
        } else if rd == 13 || rn == 13 || rn == 15 || bad_rm {
            Instruction::Unpredictable
        } else {
            Instruction::And_Register {
                rd: reg(rd),
                rn: reg(rn),
                rm: reg(rm),
                shift,
                setflags,
                setflags_depends_on_it: false,
            }
        }
    } else if op == 1 {
        if rd == 13 || rd == 15 || rn == 13 || rn == 15 || bad_rm {
            Instruction::Unpredictable
        } else {
            Instruction::BitClear_Register {
                rd: reg(rd),
                rn: reg(rn),
                rm: reg(rm),
                shift,
                setflags,
                setflags_depends_on_it: false,
            }
        }
    } else if op == 2 && rn == 15 {
        spec_move_and_immediate_shifts(hw1, hw2, xpsr)
    } else if op == 2 {
        if rd == 13 || rd == 15 || rn == 13 || bad_rm {
            Instruction::Unpredictable
        } else {
            Instruction::LogicalOr_Register {
                rd: reg(rd),
                rn: reg(rn),
                rm: reg(rm),
                shift,
                setflags,
                setflags_depends_on_it: false,
            }
        }
    } else if op == 3 && rn == 15 {
        if rd == 13 || rd == 15 || bad_rm {
            Instruction::Unpredictable
        } else {
            Instruction::BitwiseNot_Register { rd: reg(rd), rm: reg(rm), shift, setflags, setflags_depends_on_it: false }
        }
    } else if op == 3 {
        if rd == 13 || rd == 15 || rn == 13 || bad_rm {
            Instruction::Unpredictable
        } else {
            Instruction::LogicalOrNot_Register { rd: reg(rd), rn: reg(rn), rm: reg(rm), shift, setflags }
        }
    } else if op == 4 {
        if rd == 15 && s == 0 {
            Instruction::Unpredictable
        } else if rd == 15 {
            if rn == 13 || rn == 15 || bad_rm {
                Instruction::Unpredictable
            } else {
                Instruction::TestEquivalence_Register { rn: reg(rn), rm: reg(rm), shift }
            }
        } else if rd == 13 || rn == 13 || rn == 15 || bad_rm {
            Instruction::Unpredictable
        } else {
            Instruction::ExclusiveOr_Register {
                rd: reg(rd),
                rn: reg(rn),
                rm: reg(rm),
                shift,
                setflags,
                setflags_depends_on_it: false,
            }
        }
    } else if op == 8 {
        if rd == 15 && s == 0 {
            Instruction::Unpredictable
        } else if rd == 15 {
            if rn == 15 || bad_rm {
                Instruction::Unpredictable
            } else {
                Instruction::CompareNegative_Register { rn: reg(rn), rm: reg(rm), shift }
            }
        } else if rn == 13 {
            if (rd == 13 && (shift.srtype != SRType::LSL || shift.amount > 3)) || bad_rm {
                Instruction::Unpredictable
            } else {
                Instruction::Add_SPPlusRegister { rd: reg(rd), rm: reg(rm), shift, setflags }
            }
        } else if rd == 13 || rn == 15 || bad_rm {
            Instruction::Unpredictable
        } else {
            Instruction::Add_Register {
                rd: reg(rd),
                rn: reg(rn),
                rm: reg(rm),
                shift,
                setflags,
                setflags_depends_on_it: false,
            }
        }
    } else if op == 10 || op == 11 || op == 14 {
        if rd == 13 || rd == 15 || rn == 13 || rn == 15 || bad_rm {
            Instruction::Unpredictable
        } else if op == 10 {
            Instruction::AddWithCarry_Register {
                rd: reg(rd),
                rn: reg(rn),
                rm: reg(rm),
                shift,
                setflags,
                setflags_depends_on_it: false,
            }
        } else if op == 11 {
            Instruction::SubtractWithCarry_Register {
                rd: reg(rd),
                rn: reg(rn),
                rm: reg(rm),
                shift,
                setflags,
                setflags_depends_on_it: false,
            }
        } else {
            Instruction::ReverseSubtract_Register { rd: reg(rd), rn: reg(rn), rm: reg(rm), shift, setflags }
        }
    } else {
        // SUB, CMP
        if rd == 15 && s == 0 {
            Instruction::Unpredictable
        } else if rd == 15 {
            if rn == 15 || bad_rm {
                Instruction::Unpredictable
            } else {
                Instruction::Compare_Register { rn: reg(rn), rm: reg(rm), shift }
            }
        } else if rn == 13 {
            if (rd == 13 && (shift.srtype != SRType::LSL || shift.amount > 3)) || bad_rm {
                Instruction::Unpredictable
            } else {
                Instruction::Subtract_SPMinusRegister { rd: reg(rd), rm: reg(rm), shift, setflags }
            }
        } else if rd == 13 || rn == 15 || bad_rm {
            Instruction::Unpredictable
        } else {
            Instruction::Subtract_Register {
                rd: reg(rd),
                rn: reg(rn),
                rm: reg(rm),
                shift,
                setflags,
                setflags_depends_on_it: false,
            }
        }
    }
}

fn data_processing_shifted_register(hw1: u32, hw2: u32, xpsr: XPSR) -> (r: Instruction)
    requires
        hw1 < 0x10000,
        hw2 < 0x10000,
    ensures
        r == spec_data_processing_shifted_register(hw1, hw2, xpsr),
{
    let op = (hw1 / 32) % 16;
    let s = (hw1 / 16) % 2;
    let rn = hw1 % 16;
    let imm3 = (hw2 / 4096) % 8;
    let rd = (hw2 / 256) % 16;
    let imm2 = (hw2 / 64) % 4;
    let ty = (hw2 / 16) % 4;
    let rm = hw2 % 16;
    let imm5 = (imm3 * 4 + imm2) as u8;
    let shift = Shift::decode_imm_shift(ty as u8, imm5);
    let setflags = s == 1;
    let bad_rm = rm == 13 || rm == 15;
    if op == 5 || op == 6 || op == 7 || op == 9 || op == 12 || op == 15 {
        Instruction::Undefined
    } else if (hw2 / 32768) % 2 != 0 {
        Instruction::Unpredictable
    } else if op == 0 {
        if rd == 15 && s == 0 {
            Instruction::Unpredictable
        } else if rd == 15 {
            if rn == 13 || rn == 15 || bad_rm {
                Instruction::Unpredictable
            } else {
                Instruction::Test_Register { rn: RegisterID::from_index(rn), rm: RegisterID::from_index(rm), shift }
            }
        } else if rd == 13 || rn == 13 || rn == 15 || bad_rm {
            Instruction::Unpredictable
        } else {
            Instruction::And_Register {
                rd: RegisterID::from_index(rd),
                rn: RegisterID::from_index(rn),
                rm: RegisterID::from_index(rm),
                shift,
                setflags,
                setflags_depends_on_it: false,
            }
        }
    } else if op == 1 {
        if rd == 13 || rd == 15 || rn == 13 || rn == 15 || bad_rm {
            Instruction::Unpredictable
        } else {
            Instruction::BitClear_Register {
                rd: RegisterID::from_index(rd),
                rn: RegisterID::from_index(rn),
                rm: RegisterID::from_index(rm),
                shift,
                setflags,
                setflags_depends_on_it: false,
            }
        }
    } else if op == 2 && rn == 15 {
        move_and_immediate_shifts(hw1, hw2, xpsr)
    } else if op == 2 {
        if rd == 13 || rd == 15 || rn == 13 || bad_rm {
            Instruction::Unpredictable
        } else {
            Instruction::LogicalOr_Register {
                rd: RegisterID::from_index(rd),
                rn: RegisterID::from_index(rn),
                rm: RegisterID::from_index(rm),
                shift,
                setflags,
                setflags_depends_on_it: false,
            }
        }
    } else if op == 3 && rn == 15 {
        if rd == 13 || rd == 15 || bad_rm {
            Instruction::Unpredictable
        } else {
            Instruction::BitwiseNot_Register { rd: RegisterID::from_index(rd), rm: RegisterID::from_index(rm), shift, setflags, setflags_depends_on_it: false }
        }
    } else if op == 3 {
        if rd == 13 || rd == 15 || rn == 13 || bad_rm {
            Instruction::Unpredictable
        } else {
            Instruction::LogicalOrNot_Register { rd: RegisterID::from_index(rd), rn: RegisterID::from_index(rn), rm: RegisterID::from_index(rm), shift, setflags }
        }
    } else if op == 4 {
        if rd == 15 && s == 0 {
            Instruction::Unpredictable
        } else if rd == 15 {
            if rn == 13 || rn == 15 || bad_rm {
                Instruction::Unpredictable
            } else {
                Instruction::TestEquivalence_Register { rn: RegisterID::from_index(rn), rm: RegisterID::from_index(rm), shift }
            }
        } else if rd == 13 || rn == 13 || rn == 15 || bad_rm {
            Instruction::Unpredictable
        } else {
            Instruction::ExclusiveOr_Register {
                rd: RegisterID::from_index(rd),
                rn: RegisterID::from_index(rn),
                rm: RegisterID::from_index(rm),
                shift,
                setflags,
                setflags_depends_on_it: false,
            }
        }
    } else if op == 8 {
        if rd == 15 && s == 0 {
            Instruction::Unpredictable
        } else if rd == 15 {
            if rn == 15 || bad_rm {
                Instruction::Unpredictable
            } else {
                Instruction::CompareNegative_Register { rn: RegisterID::from_index(rn), rm: RegisterID::from_index(rm), shift }
            }
        } else if rn == 13 {
            if (rd == 13 && (shift.srtype != SRType::LSL || shift.amount > 3)) || bad_rm {
                Instruction::Unpredictable
            } else {
                Instruction::Add_SPPlusRegister { rd: RegisterID::from_index(rd), rm: RegisterID::from_index(rm), shift, setflags }
            }
        } else if rd == 13 || rn == 15 || bad_rm {
            Instruction::Unpredictable
        } else {
            Instruction::Add_Register {
                rd: RegisterID::from_index(rd),
                rn: RegisterID::from_index(rn),
                rm: RegisterID::from_index(rm),
                shift,
                setflags,
                setflags_depends_on_it: false,
            }
        }
    } else if op == 10 || op == 11 || op == 14 {
        if rd == 13 || rd == 15 || rn == 13 || rn == 15 || bad_rm {
            Instruction::Unpredictable
        } else if op == 10 {
            Instruction::AddWithCarry_Register {
                rd: RegisterID::from_index(rd),
                rn: RegisterID::from_index(rn),
                rm: RegisterID::from_index(rm),
                shift,
                setflags,
                setflags_depends_on_it: false,
            }
        } else if op == 11 {
            Instruction::SubtractWithCarry_Register {
                rd: RegisterID::from_index(rd),
                rn: RegisterID::from_index(rn),
                rm: RegisterID::from_index(rm),
                shift,
                setflags,
                setflags_depends_on_it: false,
            }
        } else {
            Instruction::ReverseSubtract_Register { rd: RegisterID::from_index(rd), rn: RegisterID::from_index(rn), rm: RegisterID::from_index(rm), shift, setflags }
        }
    } else {
        // SUB, CMP
        if rd == 15 && s == 0 {
            Instruction::Unpredictable
        } else if rd == 15 {
            if rn == 15 || bad_rm {
                Instruction::Unpredictable
            } else {
                Instruction::Compare_Register { rn: RegisterID::from_index(rn), rm: RegisterID::from_index(rm), shift }
            }
        } else if rn == 13 {
            if (rd == 13 && (shift.srtype != SRType::LSL || shift.amount > 3)) || bad_rm {
                Instruction::Unpredictable
            } else {
                Instruction::Subtract_SPMinusRegister { rd: RegisterID::from_index(rd), rm: RegisterID::from_index(rm), shift, setflags }
            }
        } else if rd == 13 || rn == 15 || bad_rm {
            Instruction::Unpredictable
        } else {
            Instruction::Subtract_Register {
                rd: RegisterID::from_index(rd),
                rn: RegisterID::from_index(rn),
                rm: RegisterID::from_index(rm),
                shift,
                setflags,
                setflags_depends_on_it: false,
            }
        }
    }
}


/// Move and shifts by an immediate, `11101 01 0010 S 1111`; bit 15 reads 0.
pub open spec fn spec_move_and_immediate_shifts(hw1: u32, hw2: u32, xpsr: XPSR) -> Instruction {
    let s = (hw1 / 16) % 2;
    let imm3 = (hw2 / 4096) % 8;
    let rd = (hw2 / 256) % 16;
    let imm2 = (hw2 / 64) % 4;
    let ty = (hw2 / 16) % 4;
    let rm = hw2 % 16;
    let imm5 = (imm3 * 4 + imm2) as u8;
    let setflags = s == 1;
    let bad = rd == 13 || rd == 15 || rm == 13 || rm == 15;
    if ty == 0 && imm5 == 0 {
        if (setflags && bad) || (!setflags && (rd == 15 || rm == 15 || (rd == 13 && rm == 13))) {
            Instruction::Unpredictable
        } else {
            Instruction::Move_Register { rd: reg(rd), rm: reg(rm), setflags }
        }
    } else if bad {
        Instruction::Unpredictable
    } else if ty == 0 {
        Instruction::LogicalShiftLeft_Immediate {
            rd: reg(rd),
            rm: reg(rm),
            shift: Shift::spec_decode_imm_shift(0, imm5),
            setflags,
            setflags_depends_on_it: false,
        }
    } else if ty == 1 {
        Instruction::LogicalShiftRight_Immediate {
            rd: reg(rd),
            rm: reg(rm),
            shift: Shift::spec_decode_imm_shift(1, imm5),
            setflags,
            setflags_depends_on_it: false,
        }
    } else if ty == 2 {
        Instruction::ArithmeticShiftRight_Immediate {
            rd: reg(rd),
            rm: reg(rm),
            shift: Shift::spec_decode_imm_shift(2, imm5),
            setflags,
            setflags_depends_on_it: false,
        }
    } else if imm5 == 0 {
        Instruction::RotateRightWithExtend { rd: reg(rd), rm: reg(rm), setflags }
    } else {
        Instruction::RotateRight_Immediate { rd: reg(rd), rm: reg(rm), shift: Shift::spec_decode_imm_shift(3, imm5), setflags }
    }
}

fn move_and_immediate_shifts(hw1: u32, hw2: u32, xpsr: XPSR) -> (r: Instruction)
    requires
        hw1 < 0x10000,
        hw2 < 0x10000,
    ensures
        r == spec_move_and_immediate_shifts(hw1, hw2, xpsr),
{
    let s = (hw1 / 16) % 2;
    let imm3 = (hw2 / 4096) % 8;
    let rd = (hw2 / 256) % 16;
    let imm2 = (hw2 / 64) % 4;
    let ty = (hw2 / 16) % 4;
    let rm = hw2 % 16;
    let imm5 = (imm3 * 4 + imm2) as u8;
    let setflags = s == 1;
    let bad = rd == 13 || rd == 15 || rm == 13 || rm == 15;
    if ty == 0 && imm5 == 0 {
        if (setflags && bad) || (!setflags && (rd == 15 || rm == 15 || (rd == 13 && rm == 13))) {
            Instruction::Unpredictable
        } else {
            Instruction::Move_Register { rd: RegisterID::from_index(rd), rm: RegisterID::from_index(rm), setflags }
        }
    } else if bad {
        Instruction::Unpredictable
    } else if ty == 0 {
        Instruction::LogicalShiftLeft_Immediate {
            rd: RegisterID::from_index(rd),
            rm: RegisterID::from_index(rm),
            shift: Shift::decode_imm_shift(0, imm5),
            setflags,
            setflags_depends_on_it: false,
        }
    } else if ty == 1 {
        Instruction::LogicalShiftRight_Immediate {
            rd: RegisterID::from_index(rd),
            rm: RegisterID::from_index(rm),
            shift: Shift::decode_imm_shift(1, imm5),
            setflags,
            setflags_depends_on_it: false,
        }
    } else if ty == 2 {
        Instruction::ArithmeticShiftRight_Immediate {
            rd: RegisterID::from_index(rd),
            rm: RegisterID::from_index(rm),
            shift: Shift::decode_imm_shift(2, imm5),
            setflags,
            setflags_depends_on_it: false,
        }
    } else if imm5 == 0 {
        Instruction::RotateRightWithExtend { rd: RegisterID::from_index(rd), rm: RegisterID::from_index(rm), setflags }
    } else {
        Instruction::RotateRight_Immediate { rd: RegisterID::from_index(rd), rm: RegisterID::from_index(rm), shift: Shift::decode_imm_shift(3, imm5), setflags }
    }
}


/// Coprocessor instructions, `111x 11 op1`: the core has no coprocessor.
pub open spec fn spec_coprocessor(hw1: u32, hw2: u32, xpsr: XPSR) -> Instruction {
    let op1 = (hw1 / 16) % 64;
    if op1 == 0 || op1 == 1 || op1 >= 48 {
        Instruction::Undefined
    } else {
        Instruction::Unsupported { name: "Coprocessor instruction. Should cause Usage Fault with UFSR.NOCP bit set to 1." }
    }
}

fn coprocessor(hw1: u32, hw2: u32, xpsr: XPSR) -> (r: Instruction)
    requires
        hw1 < 0x10000,
        hw2 < 0x10000,
    ensures
        r == spec_coprocessor(hw1, hw2, xpsr),
{
    let op1 = (hw1 / 16) % 64;
    if op1 == 0 || op1 == 1 || op1 >= 48 {
        Instruction::Undefined
    } else {
        Instruction::Unsupported { name: "Coprocessor instruction. Should cause Usage Fault with UFSR.NOCP bit set to 1." }
    }
}


/// Data processing with a modified immediate, `11110 i 0 op S Rn 0`.
pub open spec fn spec_data_processing_modified_immediate(hw1: u32, hw2: u32, xpsr: XPSR) -> Instruction {
    let i = (hw1 / 1024) % 2;
    let op = (hw1 / 32) % 16;
    let s = (hw1 / 16) % 2;
    let rn = hw1 % 16;
    let imm3 = (hw2 / 4096) % 8;
    let rd = (hw2 / 256) % 16;
    let imm12 = (i * 2048 + imm3 * 256 + hw2 % 256) as u32;
    let setflags = s == 1;
    if op <= 4 {
        match spec_thumb_expand_imm_c(imm12, xpsr.carry) {
            Err(e) => e,
            Ok((imm32, carry)) => {
                if op == 0 && rd == 15 {
                    if rn == 13 || rn == 15 {
                        Instruction::Unpredictable
                    } else {
                        Instruction::Test_Immediate { rn: reg(rn), imm32, carry }
                    }
                } else if op == 0 {
                    if rd == 13 || rn == 13 || rn == 15 {
                        Instruction::Unpredictable
                    } else {
                        Instruction::And_Immediate { rd: reg(rd), rn: reg(rn), imm32, setflags, carry }
                    }
                } else if op == 1 {
                    if rd == 13 || rd == 15 || rn == 13 || rn == 15 {
                        Instruction::Unpredictable
                    } else {
                        Instruction::BitClear_Immediate { rd: reg(rd), rn: reg(rn), imm32, setflags, carry }
                    }
                } else if op == 2 && rn == 15 {
                    if rd == 13 || rd == 15 {
                        Instruction::Unpredictable
                    } else {
                        Instruction::Move_Immediate { rd: reg(rd), imm32, setflags, setflags_depends_on_it: false, carry }
                    }
                } else if op == 2 {
                    if rd == 13 || rd == 15 || rn == 13 {
                        Instruction::Unpredictable
                    } else {
                        Instruction::LogicalOr_Immediate { rd: reg(rd), rn: reg(rn), imm32, setflags, carry }
                    }
                } else if op == 3 && rn == 15 {
                    if rd == 13 || rd == 15 {
                        Instruction::Unpredictable
                    } else {
                        Instruction::BitwiseNot_Immediate { rd: reg(rd), imm32, setflags, carry }
                    }
                } else if op == 3 {
                    if rd == 13 || rd == 15 || rn == 13 {
                        Instruction::Unpredictable
                    } else {
                        Instruction::LogicalOrNot_Immediate { rd: reg(rd), rn: reg(rn), imm32, setflags, carry }
                    }
                } else if rd == 15 {
                    if rn == 13 || rn == 15 {
                        Instruction::Unpredictable
                    } else {
                        Instruction::TestEquivalence_Immediate { rn: reg(rn), imm32, carry }
                    }
                } else if rd == 13 || rn == 13 || rn == 15 {
                    Instruction::Unpredictable
                } else {
                    Instruction::ExclusiveOr_Immediate { rd: reg(rd), rn: reg(rn), imm32, setflags, carry }
                }
            },
        }
    } else if op == 8 || op == 10 || op == 11 || op == 13 || op == 14 {
        match spec_thumb_expand_imm(imm12, xpsr) {
            Err(e) => e,
            Ok(imm32) => {
                if (op == 8 || op == 13) && rd == 15 {
                    if rn == 15 {
                        Instruction::Unpredictable
                    } else if op == 8 {
                        Instruction::CompareNegative_Immediate { rn: reg(rn), imm32 }
                    } else {
                        Instruction::Compare_Immediate { rn: reg(rn), imm32 }
                    }
                } else if (op == 8 || op == 13) && rn == 13 {
                    if op == 8 {
                        Instruction::Add_SPPlusImmediate { rd: reg(rd), imm32, setflags }
                    } else {
                        Instruction::Subtract_SPMinusImmediate { rd: reg(rd), imm32, setflags }
                    }
                } else if op == 8 || op == 13 {
                    if rd == 13 || rn == 15 {
                        Instruction::Unpredictable
                    } else if op == 8 {
                        Instruction::Add_Immediate { rd: reg(rd), rn: reg(rn), imm32, setflags, setflags_depends_on_it: false }
                    } else {
                        Instruction::Subtract_Immediate { rd: reg(rd), rn: reg(rn), imm32, setflags, setflags_depends_on_it: false }
                    }
                } else if rd == 13 || rd == 15 || rn == 13 || rn == 15 {
                    Instruction::Unpredictable
                } else if op == 10 {
                    Instruction::AddWithCarry_Immediate { rd: reg(rd), rn: reg(rn), imm32, setflags }
                } else if op == 11 {
                    Instruction::SubtractWithCarry_Immediate { rd: reg(rd), rn: reg(rn), imm32, setflags }
                } else {
                    Instruction::ReverseSubtract_Immediate { rd: reg(rd), rn: reg(rn), imm32, setflags, setflags_depends_on_it: false }
                }
            },
        }
    } else {
        Instruction::Undefined
    }
}

fn data_processing_modified_immediate(hw1: u32, hw2: u32, xpsr: XPSR) -> (r: Instruction)
    requires
        hw1 < 0x10000,
        hw2 < 0x10000,
    ensures
        r == spec_data_processing_modified_immediate(hw1, hw2, xpsr),
{
    let i = (hw1 / 1024) % 2;
    let op = (hw1 / 32) % 16;
    let s = (hw1 / 16) % 2;
    let rn = hw1 % 16;
    let imm3 = (hw2 / 4096) % 8;
    let rd = (hw2 / 256) % 16;
    let imm12 = (i * 2048 + imm3 * 256 + hw2 % 256) as u32;
    let setflags = s == 1;
    if op <= 4 {
        match thumb_expand_imm_c(imm12, xpsr.carry_flag()) {
            Err(e) => e,
            Ok((imm32, carry)) => {
                if op == 0 && rd == 15 {
                    if rn == 13 || rn == 15 {
                        Instruction::Unpredictable
                    } else {
                        Instruction::Test_Immediate { rn: RegisterID::from_index(rn), imm32, carry }
                    }
                } else if op == 0 {
                    if rd == 13 || rn == 13 || rn == 15 {
                        Instruction::Unpredictable
                    } else {
                        Instruction::And_Immediate { rd: RegisterID::from_index(rd), rn: RegisterID::from_index(rn), imm32, setflags, carry }
                    }
                } else if op == 1 {
                    if rd == 13 || rd == 15 || rn == 13 || rn == 15 {
                        Instruction::Unpredictable
                    } else {
                        Instruction::BitClear_Immediate { rd: RegisterID::from_index(rd), rn: RegisterID::from_index(rn), imm32, setflags, carry }
                    }
                } else if op == 2 && rn == 15 {
                    if rd == 13 || rd == 15 {
                        Instruction::Unpredictable
                    } else {
                        Instruction::Move_Immediate { rd: RegisterID::from_index(rd), imm32, setflags, setflags_depends_on_it: false, carry }
                    }
                } else if op == 2 {
                    if rd == 13 || rd == 15 || rn == 13 {
                        Instruction::Unpredictable
                    } else {
                        Instruction::LogicalOr_Immediate { rd: RegisterID::from_index(rd), rn: RegisterID::from_index(rn), imm32, setflags, carry }
                    }
                } else if op == 3 && rn == 15 {
                    if rd == 13 || rd == 15 {
                        Instruction::Unpredictable
                    } else {
                        Instruction::BitwiseNot_Immediate { rd: RegisterID::from_index(rd), imm32, setflags, carry }
                    }
                } else if op == 3 {
                    if rd == 13 || rd == 15 || rn == 13 {
                        Instruction::Unpredictable
                    } else {
                        Instruction::LogicalOrNot_Immediate { rd: RegisterID::from_index(rd), rn: RegisterID::from_index(rn), imm32, setflags, carry }
                    }
                } else if rd == 15 {
                    if rn == 13 || rn == 15 {
                        Instruction::Unpredictable
                    } else {
                        Instruction::TestEquivalence_Immediate { rn: RegisterID::from_index(rn), imm32, carry }
                    }
                } else if rd == 13 || rn == 13 || rn == 15 {
                    Instruction::Unpredictable
                } else {
                    Instruction::ExclusiveOr_Immediate { rd: RegisterID::from_index(rd), rn: RegisterID::from_index(rn), imm32, setflags, carry }
                }
            },
        }
    } else if op == 8 || op == 10 || op == 11 || op == 13 || op == 14 {
        match thumb_expand_imm(imm12, xpsr) {
            Err(e) => e,
            Ok(imm32) => {
                if (op == 8 || op == 13) && rd == 15 {
                    if rn == 15 {
                        Instruction::Unpredictable
                    } else if op == 8 {
                        Instruction::CompareNegative_Immediate { rn: RegisterID::from_index(rn), imm32 }
                    } else {
                        Instruction::Compare_Immediate { rn: RegisterID::from_index(rn), imm32 }
                    }
                } else if (op == 8 || op == 13) && rn == 13 {
                    if op == 8 {
                        Instruction::Add_SPPlusImmediate { rd: RegisterID::from_index(rd), imm32, setflags }
                    } else {
                        Instruction::Subtract_SPMinusImmediate { rd: RegisterID::from_index(rd), imm32, setflags }
                    }
                } else if op == 8 || op == 13 {
                    if rd == 13 || rn == 15 {
                        Instruction::Unpredictable
                    } else if op == 8 {
                        Instruction::Add_Immediate { rd: RegisterID::from_index(rd), rn: RegisterID::from_index(rn), imm32, setflags, setflags_depends_on_it: false }
                    } else {
                        Instruction::Subtract_Immediate { rd: RegisterID::from_index(rd), rn: RegisterID::from_index(rn), imm32, setflags, setflags_depends_on_it: false }
                    }
                } else if rd == 13 || rd == 15 || rn == 13 || rn == 15 {
                    Instruction::Unpredictable
                } else if op == 10 {
                    Instruction::AddWithCarry_Immediate { rd: RegisterID::from_index(rd), rn: RegisterID::from_index(rn), imm32, setflags }
                } else if op == 11 {
                    Instruction::SubtractWithCarry_Immediate { rd: RegisterID::from_index(rd), rn: RegisterID::from_index(rn), imm32, setflags }
                } else {
                    Instruction::ReverseSubtract_Immediate { rd: RegisterID::from_index(rd), rn: RegisterID::from_index(rn), imm32, setflags, setflags_depends_on_it: false }
                }
            },
        }
    } else {
        Instruction::Undefined
    }
}


/// Data processing with a plain binary immediate, `11110 x 1 op Rn 0`.
pub open spec fn spec_data_processing_plain_immediate(hw1: u32, hw2: u32, xpsr: XPSR) -> Instruction {
    let i = (hw1 / 1024) % 2;
    let op = (hw1 / 16) % 32;
    let rn = hw1 % 16;
    let sh = (hw1 / 32) % 2;
    let imm3 = (hw2 / 4096) % 8;
    let rd = (hw2 / 256) % 16;
    let imm2 = (hw2 / 64) % 4;
    let low5 = hw2 % 32;
    let imm12 = (i * 2048 + imm3 * 256 + hw2 % 256) as u32;
    let imm16 = (rn * 4096 + i * 2048 + imm3 * 256 + hw2 % 256) as u32;
    let imm5 = (imm3 * 4 + imm2) as u8;
    let bitfield_bad = i != 0 || (hw2 / 32) % 2 != 0;
    let bad_rd = rd == 13 || rd == 15;
    let bad_rd_rn = bad_rd || rn == 13 || rn == 15;
    if op == 0 || op == 10 {
        if rn == 15 {
            if bad_rd {
                Instruction::Unpredictable
            } else {
                Instruction::AddressToRegister { rd: reg(rd), imm32: imm12, add: op == 0 }
            }
        } else if rn == 13 {
            if rd == 15 {
                Instruction::Unpredictable
            } else if op == 0 {
                Instruction::Add_SPPlusImmediate { rd: reg(rd), imm32: imm12, setflags: false }
            } else {
                Instruction::Subtract_SPMinusImmediate { rd: reg(rd), imm32: imm12, setflags: false }
            }
        } else if bad_rd {
            Instruction::Unpredictable
        } else if op == 0 {
            Instruction::Add_Immediate { rd: reg(rd), rn: reg(rn), imm32: imm12, setflags: false, setflags_depends_on_it: false }
        } else {
            Instruction::Subtract_Immediate { rd: reg(rd), rn: reg(rn), imm32: imm12, setflags: false, setflags_depends_on_it: false }
        }
    } else if op == 4 {
        if bad_rd {
            Instruction::Unpredictable
        } else {
            Instruction::Move_Immediate {
                rd: reg(rd),
                imm32: imm16,
                setflags: false,
                setflags_depends_on_it: false,
                carry: xpsr.carry,
            }
        }
    } else if op == 12 {
        if bad_rd {
            Instruction::Unpredictable
        } else {
            Instruction::MoveTop { rd: reg(rd), imm16: imm16 as u16 }
        }
    } else if op == 16 || op == 18 || op == 24 || op == 26 {
        // SSAT, USAT
        if bitfield_bad {
            Instruction::Unpredictable
        } else if sh == 1 && imm5 == 0 {
            if dsp_extension() {
                Instruction::Unsupported { name: "SSAT16, USAT16" }
            } else {
                Instruction::Undefined
            }
        } else if bad_rd_rn {
            Instruction::Unpredictable
        } else if op < 20 {
            Instruction::SignedSaturate {
                rd: reg(rd),
                rn: reg(rn),
                saturate_to: (low5 + 1) as u8,
                shift: Shift::spec_decode_imm_shift((sh * 2) as u8, imm5),
            }
        } else {
            Instruction::UnsignedSaturate {
                rd: reg(rd),
                rn: reg(rn),
                saturate_to: low5 as u8,
                shift: Shift::spec_decode_imm_shift((sh * 2) as u8, imm5),
            }
        }
    } else if op == 20 || op == 28 {
        if bitfield_bad || bad_rd_rn {
            Instruction::Unpredictable
        } else if op == 20 {
            Instruction::SignedBitFieldExtract { rd: reg(rd), rn: reg(rn), lsbit: imm5, widthminus1: low5 as u8 }
        } else {
            Instruction::UnsignedBitFieldExtract { rd: reg(rd), rn: reg(rn), lsbit: imm5, widthminus1: low5 as u8 }
        }
    } else if op == 22 {
        if bitfield_bad {
            Instruction::Unpredictable
        } else if rn == 15 {
            if bad_rd {
                Instruction::Unpredictable
            } else {
                Instruction::BitFieldClear { rd: reg(rd), msbit: low5 as u8, lsbit: imm5 }
            }
        } else if bad_rd || rn == 13 {
            Instruction::Unpredictable
        } else {
            Instruction::BitFieldInsert { rd: reg(rd), rn: reg(rn), msbit: low5 as u8, lsbit: imm5 }
        }
    } else {
        Instruction::Undefined
    }
}

fn data_processing_plain_immediate(hw1: u32, hw2: u32, xpsr: XPSR) -> (r: Instruction)
    requires
        hw1 < 0x10000,
        hw2 < 0x10000,
    ensures
        r == spec_data_processing_plain_immediate(hw1, hw2, xpsr),
{
    let i = (hw1 / 1024) % 2;
    let op = (hw1 / 16) % 32;
    let rn = hw1 % 16;
    let sh = (hw1 / 32) % 2;
    let imm3 = (hw2 / 4096) % 8;
    let rd = (hw2 / 256) % 16;
    let imm2 = (hw2 / 64) % 4;
    let low5 = hw2 % 32;
    let imm12 = (i * 2048 + imm3 * 256 + hw2 % 256) as u32;
    let imm16 = (rn * 4096 + i * 2048 + imm3 * 256 + hw2 % 256) as u32;
    let imm5 = (imm3 * 4 + imm2) as u8;
    let bitfield_bad = i != 0 || (hw2 / 32) % 2 != 0;
    let bad_rd = rd == 13 || rd == 15;
    let bad_rd_rn = bad_rd || rn == 13 || rn == 15;
    if op == 0 || op == 10 {
        if rn == 15 {
            if bad_rd {
                Instruction::Unpredictable
            } else {
                Instruction::AddressToRegister { rd: RegisterID::from_index(rd), imm32: imm12, add: op == 0 }
            }
        } else if rn == 13 {
            if rd == 15 {
                Instruction::Unpredictable
            } else if op == 0 {
                Instruction::Add_SPPlusImmediate { rd: RegisterID::from_index(rd), imm32: imm12, setflags: false }
            } else {
                Instruction::Subtract_SPMinusImmediate { rd: RegisterID::from_index(rd), imm32: imm12, setflags: false }
            }
        } else if bad_rd {
            Instruction::Unpredictable
        } else if op == 0 {
            Instruction::Add_Immediate { rd: RegisterID::from_index(rd), rn: RegisterID::from_index(rn), imm32: imm12, setflags: false, setflags_depends_on_it: false }
        } else {
            Instruction::Subtract_Immediate { rd: RegisterID::from_index(rd), rn: RegisterID::from_index(rn), imm32: imm12, setflags: false, setflags_depends_on_it: false }
        }
    } else if op == 4 {
        if bad_rd {
            Instruction::Unpredictable
        } else {
            Instruction::Move_Immediate {
                rd: RegisterID::from_index(rd),
                imm32: imm16,
                setflags: false,
                setflags_depends_on_it: false,
                carry: xpsr.carry_flag(),
            }
        }
    } else if op == 12 {
        if bad_rd {
            Instruction::Unpredictable
        } else {
            Instruction::MoveTop { rd: RegisterID::from_index(rd), imm16: imm16 as u16 }
        }
    } else if op == 16 || op == 18 || op == 24 || op == 26 {
        // SSAT, USAT
        if bitfield_bad {
            Instruction::Unpredictable
        } else if sh == 1 && imm5 == 0 {
            if have_dsp_ext() {
                Instruction::Unsupported { name: "SSAT16, USAT16" }
            } else {
                Instruction::Undefined
            }
        } else if bad_rd_rn {
            Instruction::Unpredictable
        } else if op < 20 {
            Instruction::SignedSaturate {
                rd: RegisterID::from_index(rd),
                rn: RegisterID::from_index(rn),
                saturate_to: (low5 + 1) as u8,
                shift: Shift::decode_imm_shift((sh * 2) as u8, imm5),
            }
        } else {
            Instruction::UnsignedSaturate {
                rd: RegisterID::from_index(rd),
                rn: RegisterID::from_index(rn),
                saturate_to: low5 as u8,
                shift: Shift::decode_imm_shift((sh * 2) as u8, imm5),
            }
        }
    } else if op == 20 || op == 28 {
        if bitfield_bad || bad_rd_rn {
            Instruction::Unpredictable
        } else if op == 20 {
            Instruction::SignedBitFieldExtract { rd: RegisterID::from_index(rd), rn: RegisterID::from_index(rn), lsbit: imm5, widthminus1: low5 as u8 }
        } else {
            Instruction::UnsignedBitFieldExtract { rd: RegisterID::from_index(rd), rn: RegisterID::from_index(rn), lsbit: imm5, widthminus1: low5 as u8 }
        }
    } else if op == 22 {
        if bitfield_bad {
            Instruction::Unpredictable
        } else if rn == 15 {
            if bad_rd {
                Instruction::Unpredictable
            } else {
                Instruction::BitFieldClear { rd: RegisterID::from_index(rd), msbit: low5 as u8, lsbit: imm5 }
            }
        } else if bad_rd || rn == 13 {
            Instruction::Unpredictable
        } else {
            Instruction::BitFieldInsert { rd: RegisterID::from_index(rd), rn: RegisterID::from_index(rn), msbit: low5 as u8, lsbit: imm5 }
        }
    } else {
        Instruction::Undefined
    }
}


/// Branches and miscellaneous control, `11110 op 1 op1`.
pub open spec fn spec_branches_and_miscellaneous_control(hw1: u32, hw2: u32, xpsr: XPSR) -> Instruction {
    let op = (hw1 / 16) % 128;
    let op1 = (hw2 / 4096) % 8;
    let s = (hw1 / 1024) % 2;
    let j1 = (hw2 / 8192) % 2;
    let j2 = (hw2 / 2048) % 2;
    let imm11 = hw2 % 2048;
    let low_form = op1 == 0 || op1 == 2;
    if low_form && (op / 8) % 8 != 7 {
        // B<c>.W: the condition is in bits 9:6.
        if xpsr.in_it() {
            Instruction::Unpredictable
        } else {
            Instruction::Branch {
                cond: Condition(((hw1 / 64) % 16) as u8),
                imm32: sign_extend_from(
                    (s * 0x10_0000 + j2 * 0x8_0000 + j1 * 0x4_0000 + (hw1 % 64) * 0x1000 + imm11 * 2) as u32,
                    0x10_0000,
                ),
            }
        }
    } else if low_form && op / 2 == 0x1c {
        spec_move_to_special_register(hw1, hw2, xpsr)
    } else if low_form && op == 0x3a {
        spec_hints(hw1, hw2, xpsr)
    } else if low_form && op == 0x3b {
        spec_miscellaneous_control(hw1, hw2, xpsr)
    } else if low_form && op / 2 == 0x1f {
        spec_move_from_special_register(hw1, hw2, xpsr)
    } else if op1 == 2 && op == 0x7f {
        Instruction::PermanentlyUndefined {
            imm32: sign_extend_from(((hw1 % 16) * 4096 + hw2 % 4096) as u32, 0x8000),
        }
    } else if op1 % 2 == 1 {
        // B.W and BL: I1 = NOT(J1 EOR S), I2 = NOT(J2 EOR S).
        let i1 = if j1 == s { 1u32 } else { 0u32 };
        let i2 = if j2 == s { 1u32 } else { 0u32 };
        let imm32 = sign_extend_from(
            (s * 0x100_0000 + i1 * 0x80_0000 + i2 * 0x40_0000 + (hw1 % 1024) * 0x1000 + imm11 * 2) as u32,
            0x100_0000,
        );
        if xpsr.in_it() && !xpsr.last_in_it() {
            Instruction::Unpredictable
        } else if op1 < 4 {
            Instruction::Branch { cond: Condition(14), imm32 }
        } else {
            Instruction::BranchWithLink_Immediate { imm32 }
        }
    } else {
        Instruction::Undefined
    }
}

fn branches_and_miscellaneous_control(hw1: u32, hw2: u32, xpsr: XPSR) -> (r: Instruction)
    requires
        hw1 < 0x10000,
        hw2 < 0x10000,
    ensures
        r == spec_branches_and_miscellaneous_control(hw1, hw2, xpsr),
{
    let op = (hw1 / 16) % 128;
    let op1 = (hw2 / 4096) % 8;
    let s = (hw1 / 1024) % 2;
    let j1 = (hw2 / 8192) % 2;
    let j2 = (hw2 / 2048) % 2;
    let imm11 = hw2 % 2048;
    let low_form = op1 == 0 || op1 == 2;
    if low_form && (op / 8) % 8 != 7 {
        // B<c>.W: the condition is in bits 9:6.
        if xpsr.in_it_block() {
            Instruction::Unpredictable
        } else {
            Instruction::Branch {
                cond: Condition(((hw1 / 64) % 16) as u8),
                imm32: sign_extend_word(
                    (s * 0x10_0000 + j2 * 0x8_0000 + j1 * 0x4_0000 + (hw1 % 64) * 0x1000 + imm11 * 2) as u32,
                    0x10_0000,
                ),
            }
        }
    } else if low_form && op / 2 == 0x1c {
        move_to_special_register(hw1, hw2, xpsr)
    } else if low_form && op == 0x3a {
        hints(hw1, hw2, xpsr)
    } else if low_form && op == 0x3b {
        miscellaneous_control(hw1, hw2, xpsr)
    } else if low_form && op / 2 == 0x1f {
        move_from_special_register(hw1, hw2, xpsr)
    } else if op1 == 2 && op == 0x7f {
        Instruction::PermanentlyUndefined {
            imm32: sign_extend_word(((hw1 % 16) * 4096 + hw2 % 4096) as u32, 0x8000),
        }
    } else if op1 % 2 == 1 {
        // B.W and BL: I1 = NOT(J1 EOR S), I2 = NOT(J2 EOR S).
        let i1 = if j1 == s { 1u32 } else { 0u32 };
        let i2 = if j2 == s { 1u32 } else { 0u32 };
        let imm32 = sign_extend_word(
            (s * 0x100_0000 + i1 * 0x80_0000 + i2 * 0x40_0000 + (hw1 % 1024) * 0x1000 + imm11 * 2) as u32,
            0x100_0000,
        );
        if xpsr.in_it_block() && !xpsr.last_in_it_block() {
            Instruction::Unpredictable
        } else if op1 < 4 {
            Instruction::Branch { cond: Condition(14), imm32 }
        } else {
            Instruction::BranchWithLink_Immediate { imm32 }
        }
    } else {
        Instruction::Undefined
    }
}


/// `MSR`, `11110 0 1110 0 (0) Rn 10 (0) 0 mask (0)(0) SYSm`.
pub open spec fn spec_move_to_special_register(hw1: u32, hw2: u32, xpsr: XPSR) -> Instruction {
    let rn = hw1 % 16;
    let mask = (hw2 / 1024) % 4;
    let sysm = hw2 % 256;
    if (hw1 / 16) % 2 != 0 || (hw2 / 8192) % 2 != 0 || (hw2 / 256) % 4 != 0 {
        Instruction::Unpredictable
    } else if mask == 0 || (mask != 2 && sysm > 3) || rn == 13 || rn == 15 || !(sysm <= 3 || (5 <= sysm
        && sysm <= 9) || (16 <= sysm && sysm <= 20)) {
        Instruction::Unpredictable
    } else {
        Instruction::MoveToSpecialRegisterFromARMRegister { rn: reg(rn), sysm: sysm as u8, mask: mask as u8 }
    }
}

fn move_to_special_register(hw1: u32, hw2: u32, xpsr: XPSR) -> (r: Instruction)
    requires
        hw1 < 0x10000,
        hw2 < 0x10000,
    ensures
        r == spec_move_to_special_register(hw1, hw2, xpsr),
{
    let rn = hw1 % 16;
    let mask = (hw2 / 1024) % 4;
    let sysm = hw2 % 256;
    if (hw1 / 16) % 2 != 0 || (hw2 / 8192) % 2 != 0 || (hw2 / 256) % 4 != 0 {
        Instruction::Unpredictable
    } else if mask == 0 || (mask != 2 && sysm > 3) || rn == 13 || rn == 15 || !(sysm <= 3 || (5 <= sysm
        && sysm <= 9) || (16 <= sysm && sysm <= 20)) {
        Instruction::Unpredictable
    } else {
        Instruction::MoveToSpecialRegisterFromARMRegister { rn: RegisterID::from_index(rn), sysm: sysm as u8, mask: mask as u8 }
    }
}


/// `MRS`, `11110 0 1111 1 (0) (1111) 10 (0) 0 Rd SYSm`.
pub open spec fn spec_move_from_special_register(hw1: u32, hw2: u32, xpsr: XPSR) -> Instruction {
    let rd = (hw2 / 256) % 16;
    let sysm = hw2 % 256;
    if (hw1 / 16) % 2 != 0 || hw1 % 16 != 15 || (hw2 / 8192) % 2 != 0 {
        Instruction::Unpredictable
    } else if rd == 13 || rd == 15 || !(sysm <= 3 || (5 <= sysm && sysm <= 9) || (16 <= sysm && sysm
        <= 20)) {
        Instruction::Unpredictable
    } else {
        Instruction::MoveToRegisterFromSpecialRegister { rd: reg(rd), sysm: sysm as u8 }
    }
}

fn move_from_special_register(hw1: u32, hw2: u32, xpsr: XPSR) -> (r: Instruction)
    requires
        hw1 < 0x10000,
        hw2 < 0x10000,
    ensures
        r == spec_move_from_special_register(hw1, hw2, xpsr),
{
    let rd = (hw2 / 256) % 16;
    let sysm = hw2 % 256;
    if (hw1 / 16) % 2 != 0 || hw1 % 16 != 15 || (hw2 / 8192) % 2 != 0 {
        Instruction::Unpredictable
    } else if rd == 13 || rd == 15 || !(sysm <= 3 || (5 <= sysm && sysm <= 9) || (16 <= sysm && sysm
        <= 20)) {
        Instruction::Unpredictable
    } else {
        Instruction::MoveToRegisterFromSpecialRegister { rd: RegisterID::from_index(rd), sysm: sysm as u8 }
    }
}


/// Hint instructions, `11110 0 111 01 0 (1111) 10 (0) 0 (0) op1 op2`.
pub open spec fn spec_hints(hw1: u32, hw2: u32, xpsr: XPSR) -> Instruction {
    let op1 = (hw2 / 256) % 8;
    let op2 = hw2 % 256;
    let bad = hw1 % 16 != 15 || (hw2 / 8192) % 2 != 0 || (hw2 / 2048) % 2 != 0;
    if op1 != 0 {
        Instruction::Undefined
    } else if op2 == 1 {
        Instruction::Unsupported { name: "YIELD" }
    } else if op2 <= 4 && bad {
        Instruction::Unpredictable
    } else if op2 == 0 {
        Instruction::NoOperation
    } else if op2 == 2 {
        Instruction::WaitForEvent
    } else if op2 == 3 {
        Instruction::WaitForInterrupt
    } else if op2 == 4 {
        Instruction::SendEvent
    } else if op2 == 0x14 {
        Instruction::Unsupported { name: "CSDB" }
    } else if op2 / 16 == 15 {
        Instruction::Unsupported { name: "DBG" }
    } else {
        Instruction::Unsupported { name: "Unallocated hint. Executes as NOP, but software must not use it." }
    }
}

fn hints(hw1: u32, hw2: u32, xpsr: XPSR) -> (r: Instruction)
    requires
        hw1 < 0x10000,
        hw2 < 0x10000,
    ensures
        r == spec_hints(hw1, hw2, xpsr),
{
    let op1 = (hw2 / 256) % 8;
    let op2 = hw2 % 256;
    let bad = hw1 % 16 != 15 || (hw2 / 8192) % 2 != 0 || (hw2 / 2048) % 2 != 0;
    if op1 != 0 {
        Instruction::Undefined
    } else if op2 == 1 {
        Instruction::Unsupported { name: "YIELD" }
    } else if op2 <= 4 && bad {
        Instruction::Unpredictable
    } else if op2 == 0 {
        Instruction::NoOperation
    } else if op2 == 2 {
        Instruction::WaitForEvent
    } else if op2 == 3 {
        Instruction::WaitForInterrupt
    } else if op2 == 4 {
        Instruction::SendEvent
    } else if op2 == 0x14 {
        Instruction::Unsupported { name: "CSDB" }
    } else if op2 / 16 == 15 {
        Instruction::Unsupported { name: "DBG" }
    } else {
        Instruction::Unsupported { name: "Unallocated hint. Executes as NOP, but software must not use it." }
    }
}


/// Miscellaneous control, `11110 0 111 01 1 (1111) 10 (0) 0 (1111) op option`.
pub open spec fn spec_miscellaneous_control(hw1: u32, hw2: u32, xpsr: XPSR) -> Instruction {
    let op = (hw2 / 16) % 16;
    let option = hw2 % 16;
    let bad = hw1 % 16 != 15 || (hw2 / 8192) % 2 != 0 || (hw2 / 256) % 16 != 15;
    if op == 4 && option == 0 {
        Instruction::Unsupported { name: "SSBB" }
    } else if op == 4 && option == 4 {
        Instruction::Unsupported { name: "PSSBB" }
    } else if op != 2 && op != 4 && op != 5 && op != 6 {
        Instruction::Undefined
    } else if bad || (op == 2 && option != 15) {
        Instruction::Unpredictable
    } else if op == 2 {
        Instruction::ClearExclusive
    } else if op == 4 {
        Instruction::DataSynchronizationBarrier { option: option as u8 }
    } else if op == 5 {
        Instruction::DataMemoryBarrier { option: option as u8 }
    } else if xpsr.in_it() {
        Instruction::Unpredictable
    } else {
        Instruction::InstructionSynchronizationBarrier { option: option as u8 }
    }
}

fn miscellaneous_control(hw1: u32, hw2: u32, xpsr: XPSR) -> (r: Instruction)
    requires
        hw1 < 0x10000,
        hw2 < 0x10000,
    ensures
        r == spec_miscellaneous_control(hw1, hw2, xpsr),
{
    let op = (hw2 / 16) % 16;
    let option = hw2 % 16;
    let bad = hw1 % 16 != 15 || (hw2 / 8192) % 2 != 0 || (hw2 / 256) % 16 != 15;
    if op == 4 && option == 0 {
        Instruction::Unsupported { name: "SSBB" }
    } else if op == 4 && option == 4 {
        Instruction::Unsupported { name: "PSSBB" }
    } else if op != 2 && op != 4 && op != 5 && op != 6 {
        Instruction::Undefined
    } else if bad || (op == 2 && option != 15) {
        Instruction::Unpredictable
    } else if op == 2 {
        Instruction::ClearExclusive
    } else if op == 4 {
        Instruction::DataSynchronizationBarrier { option: option as u8 }
    } else if op == 5 {
        Instruction::DataMemoryBarrier { option: option as u8 }
    } else if xpsr.in_it_block() {
        Instruction::Unpredictable
    } else {
        Instruction::InstructionSynchronizationBarrier { option: option as u8 }
    }
}


/// Store single data item, `11111 00 0 op1 0 Rn Rt op2`.
pub open spec fn spec_store_single(hw1: u32, hw2: u32, xpsr: XPSR) -> Instruction {
    let op1 = (hw1 / 32) % 8;
    let rn = hw1 % 16;
    let rt = (hw2 / 4096) % 16;
    let imm12 = hw2 % 4096;
    let imm8 = hw2 % 256;
    let immediate8 = (hw2 / 2048) % 2 == 1;
    let p = (hw2 / 1024) % 2;
    let u = (hw2 / 512) % 2;
    let w = (hw2 / 256) % 2;
    let index = p == 1;
    let add = u == 1;
    let wback = w == 1;
    let rm = hw2 % 16;
    let shift = Shift { srtype: SRType::LSL, amount: ((hw2 / 16) % 4) as u8 };
    let unprivileged = p == 1 && u == 1 && w == 0;
    let bad_rt = rt == 13 || rt == 15;
    let bad_rm = rm == 13 || rm == 15;
    if op1 == 3 || op1 == 7 || rn == 15 {
        Instruction::Undefined
    } else if op1 == 4 || op1 == 5 || op1 == 6 {
        // 12-bit immediate offset
        if rt == 15 || (op1 != 6 && rt == 13) {
            Instruction::Unpredictable
        } else if op1 == 4 {
            Instruction::StoreRegisterByte_Immediate { rt: reg(rt), rn: reg(rn), imm32: imm12, index: true, add: true, wback: false }
        } else if op1 == 5 {
            Instruction::StoreRegisterHalfword_Immediate { rt: reg(rt), rn: reg(rn), imm32: imm12, index: true, add: true, wback: false }
        } else {
            Instruction::StoreRegister_Immediate { rt: reg(rt), rn: reg(rn), imm32: imm12, index: true, add: true, wback: false }
        }
    } else if !immediate8 {
        // register offset
        if rt == 15 || bad_rm || (op1 != 2 && rt == 13) {
            Instruction::Unpredictable
        } else if op1 == 0 {
            Instruction::StoreRegisterByte_Register { rt: reg(rt), rn: reg(rn), rm: reg(rm), shift, index: true, add: true, wback: false }
        } else if op1 == 1 {
            Instruction::StoreRegisterHalfword_Register { rt: reg(rt), rn: reg(rn), rm: reg(rm), shift, index: true, add: true, wback: false }
        } else {
            Instruction::StoreRegister_Register { rt: reg(rt), rn: reg(rn), rm: reg(rm), shift, index: true, add: true, wback: false }
        }
    } else if unprivileged {
        if bad_rt {
            Instruction::Unpredictable
        } else if op1 == 0 {
            Instruction::StoreRegisterByteUnprivileged { rt: reg(rt), rn: reg(rn), imm32: imm8 }
        } else if op1 == 1 {
            Instruction::StoreRegisterHalfwordUnprivileged { rt: reg(rt), rn: reg(rn), imm32: imm8 }
        } else {
            Instruction::StoreRegisterUnprivileged { rt: reg(rt), rn: reg(rn), imm32: imm8 }
        }
    } else if op1 == 2 && rn == 13 && p == 1 && u == 0 && w == 1 && imm8 == 4 {
        // PUSH of one register: STR Rt, [SP, #-4]!
        if bad_rt {
            Instruction::Unpredictable
        } else {
            Instruction::StoreRegister_Immediate { rt: reg(rt), rn: RegisterID::SP, imm32: 4, index: true, add: false, wback: true }
        }
    } else if p == 0 && w == 0 {
        Instruction::Undefined
    } else if rt == 15 || (op1 != 2 && rt == 13) || (wback && rn == rt) {
        Instruction::Unpredictable
    } else if op1 == 0 {
        Instruction::StoreRegisterByte_Immediate { rt: reg(rt), rn: reg(rn), imm32: imm8, index, add, wback }
    } else if op1 == 1 {
        Instruction::StoreRegisterHalfword_Immediate { rt: reg(rt), rn: reg(rn), imm32: imm8, index, add, wback }
    } else {
        Instruction::StoreRegister_Immediate { rt: reg(rt), rn: reg(rn), imm32: imm8, index, add, wback }
    }
}

fn store_single(hw1: u32, hw2: u32, xpsr: XPSR) -> (r: Instruction)
    requires
        hw1 < 0x10000,
        hw2 < 0x10000,
    ensures
        r == spec_store_single(hw1, hw2, xpsr),
{
    let op1 = (hw1 / 32) % 8;
    let rn = hw1 % 16;
    let rt = (hw2 / 4096) % 16;
    let imm12 = hw2 % 4096;
    let imm8 = hw2 % 256;
    let immediate8 = (hw2 / 2048) % 2 == 1;
    let p = (hw2 / 1024) % 2;
    let u = (hw2 / 512) % 2;
    let w = (hw2 / 256) % 2;
    let index = p == 1;
    let add = u == 1;
    let wback = w == 1;
    let rm = hw2 % 16;
    let shift = Shift { srtype: SRType::LSL, amount: ((hw2 / 16) % 4) as u8 };
    let unprivileged = p == 1 && u == 1 && w == 0;
    let bad_rt = rt == 13 || rt == 15;
    let bad_rm = rm == 13 || rm == 15;
    if op1 == 3 || op1 == 7 || rn == 15 {
        Instruction::Undefined
    } else if op1 == 4 || op1 == 5 || op1 == 6 {
        // 12-bit immediate offset
        if rt == 15 || (op1 != 6 && rt == 13) {
            Instruction::Unpredictable
        } else if op1 == 4 {
            Instruction::StoreRegisterByte_Immediate { rt: RegisterID::from_index(rt), rn: RegisterID::from_index(rn), imm32: imm12, index: true, add: true, wback: false }
        } else if op1 == 5 {
            Instruction::StoreRegisterHalfword_Immediate { rt: RegisterID::from_index(rt), rn: RegisterID::from_index(rn), imm32: imm12, index: true, add: true, wback: false }
        } else {
            Instruction::StoreRegister_Immediate { rt: RegisterID::from_index(rt), rn: RegisterID::from_index(rn), imm32: imm12, index: true, add: true, wback: false }
        }
    } else if !immediate8 {
        // register offset
        if rt == 15 || bad_rm || (op1 != 2 && rt == 13) {
            Instruction::Unpredictable
        } else if op1 == 0 {
            Instruction::StoreRegisterByte_Register { rt: RegisterID::from_index(rt), rn: RegisterID::from_index(rn), rm: RegisterID::from_index(rm), shift, index: true, add: true, wback: false }
        } else if op1 == 1 {
            Instruction::StoreRegisterHalfword_Register { rt: RegisterID::from_index(rt), rn: RegisterID::from_index(rn), rm: RegisterID::from_index(rm), shift, index: true, add: true, wback: false }
        } else {
            Instruction::StoreRegister_Register { rt: RegisterID::from_index(rt), rn: RegisterID::from_index(rn), rm: RegisterID::from_index(rm), shift, index: true, add: true, wback: false }
        }
    } else if unprivileged {
        if bad_rt {
            Instruction::Unpredictable
        } else if op1 == 0 {
            Instruction::StoreRegisterByteUnprivileged { rt: RegisterID::from_index(rt), rn: RegisterID::from_index(rn), imm32: imm8 }
        } else if op1 == 1 {
            Instruction::StoreRegisterHalfwordUnprivileged { rt: RegisterID::from_index(rt), rn: RegisterID::from_index(rn), imm32: imm8 }
        } else {
            Instruction::StoreRegisterUnprivileged { rt: RegisterID::from_index(rt), rn: RegisterID::from_index(rn), imm32: imm8 }
        }
    } else if op1 == 2 && rn == 13 && p == 1 && u == 0 && w == 1 && imm8 == 4 {
        // PUSH of one register: STR Rt, [SP, #-4]!
        if bad_rt {
            Instruction::Unpredictable
        } else {
            Instruction::StoreRegister_Immediate { rt: RegisterID::from_index(rt), rn: RegisterID::SP, imm32: 4, index: true, add: false, wback: true }
        }
    } else if p == 0 && w == 0 {
        Instruction::Undefined
    } else if rt == 15 || (op1 != 2 && rt == 13) || (wback && rn == rt) {
        Instruction::Unpredictable
    } else if op1 == 0 {
        Instruction::StoreRegisterByte_Immediate { rt: RegisterID::from_index(rt), rn: RegisterID::from_index(rn), imm32: imm8, index, add, wback }
    } else if op1 == 1 {
        Instruction::StoreRegisterHalfword_Immediate { rt: RegisterID::from_index(rt), rn: RegisterID::from_index(rn), imm32: imm8, index, add, wback }
    } else {
        Instruction::StoreRegister_Immediate { rt: RegisterID::from_index(rt), rn: RegisterID::from_index(rn), imm32: imm8, index, add, wback }
    }
}


/// Load byte and memory hints, `11111 00 op1 00 1 Rn Rt op2`.
pub open spec fn spec_load_byte(hw1: u32, hw2: u32, xpsr: XPSR) -> Instruction {
    let op1 = (hw1 / 128) % 4;
    let rn = hw1 % 16;
    let rt = (hw2 / 4096) % 16;
    let op2 = (hw2 / 64) % 64;
    let imm12 = hw2 % 4096;
    let imm8 = hw2 % 256;
    let p = (hw2 / 1024) % 2;
    let u = (hw2 / 512) % 2;
    let w = (hw2 / 256) % 2;
    let index = p == 1;
    let add = u == 1;
    let wback = w == 1;
    let rm = hw2 % 16;
    let shift = Shift { srtype: SRType::LSL, amount: ((hw2 / 16) % 4) as u8 };
    let writeback_form = op2 / 32 == 1 && (op2 % 8) / 4 == 1;
    let offset_form = op2 / 4 == 12;
    let unprivileged = op2 / 4 == 14;
    let register_form = op2 == 0;
    if rt != 15 {
        if rn == 15 {
            if rt == 13 {
                Instruction::Unpredictable
            } else if op1 < 2 {
                Instruction::LoadRegisterByte_Literal { rt: reg(rt), imm32: imm12, add: op1 == 1 }
            } else {
                Instruction::LoadRegisterSignedByte_Literal { rt: reg(rt), imm32: imm12, add: op1 == 3 }
            }
        } else if op1 == 1 || op1 == 3 {
            if rt == 13 {
                Instruction::Unpredictable
            } else if op1 == 1 {
                Instruction::LoadRegisterByte_Immediate { rt: reg(rt), rn: reg(rn), imm32: imm12, index: true, add: true, wback: false }
            } else {
                Instruction::LoadRegisterSignedByte_Immediate { rt: reg(rt), rn: reg(rn), imm32: imm12, index: true, add: true, wback: false }
            }
        } else if writeback_form || offset_form {
            if rt == 13 || (wback && rn == rt) {
                Instruction::Unpredictable
            } else if op1 == 0 {
                Instruction::LoadRegisterByte_Immediate { rt: reg(rt), rn: reg(rn), imm32: imm8, index, add, wback }
            } else {
                Instruction::LoadRegisterSignedByte_Immediate { rt: reg(rt), rn: reg(rn), imm32: imm8, index, add, wback }
            }
        } else if unprivileged {
            if rt == 13 {
                Instruction::Unpredictable
            } else if op1 == 0 {
                Instruction::LoadRegisterByteUnprivileged { rt: reg(rt), rn: reg(rn), imm32: imm8 }
            } else {
                Instruction::LoadRegisterSignedByteUnprivileged { rt: reg(rt), rn: reg(rn), imm32: imm8 }
            }
        } else if register_form {
            if rt == 13 || rm == 13 || rm == 15 {
                Instruction::Unpredictable
            } else if op1 == 0 {
                Instruction::LoadRegisterByte_Register { rt: reg(rt), rn: reg(rn), rm: reg(rm), shift, index: true, add: true, wback: false }
            } else {
                Instruction::LoadRegisterSignedByte_Register { rt: reg(rt), rn: reg(rn), rm: reg(rm), shift, index: true, add: true, wback: false }
            }
        } else {
            Instruction::Undefined
        }
    } else if op1 < 2 && (rn == 15 || op1 == 1 || offset_form || register_form) {
        if rn == 15 {
            Instruction::Unsupported { name: "PLD (literal)" }
        } else if register_form && op1 == 0 {
            Instruction::Unsupported { name: "PLD (register)" }
        } else {
            Instruction::Unsupported { name: "PLD (immediate)" }
        }
    } else if op1 >= 2 && (rn == 15 || op1 == 3 || offset_form || register_form) {
        if register_form && rn != 15 && op1 == 2 {
            Instruction::Unsupported { name: "PLI (register)" }
        } else {
            Instruction::Unsupported { name: "PLI (immediate, literal)" }
        }
    } else if writeback_form || unprivileged {
        Instruction::Unpredictable
    } else {
        Instruction::Undefined
    }
}

fn load_byte(hw1: u32, hw2: u32, xpsr: XPSR) -> (r: Instruction)
    requires
        hw1 < 0x10000,
        hw2 < 0x10000,
    ensures
        r == spec_load_byte(hw1, hw2, xpsr),
{
    let op1 = (hw1 / 128) % 4;
    let rn = hw1 % 16;
    let rt = (hw2 / 4096) % 16;
    let op2 = (hw2 / 64) % 64;
    let imm12 = hw2 % 4096;
    let imm8 = hw2 % 256;
    let p = (hw2 / 1024) % 2;
    let u = (hw2 / 512) % 2;
    let w = (hw2 / 256) % 2;
    let index = p == 1;
    let add = u == 1;
    let wback = w == 1;
    let rm = hw2 % 16;
    let shift = Shift { srtype: SRType::LSL, amount: ((hw2 / 16) % 4) as u8 };
    let writeback_form = op2 / 32 == 1 && (op2 % 8) / 4 == 1;
    let offset_form = op2 / 4 == 12;
    let unprivileged = op2 / 4 == 14;
    let register_form = op2 == 0;
    if rt != 15 {
        if rn == 15 {
            if rt == 13 {
                Instruction::Unpredictable
            } else if op1 < 2 {
                Instruction::LoadRegisterByte_Literal { rt: RegisterID::from_index(rt), imm32: imm12, add: op1 == 1 }
            } else {
                Instruction::LoadRegisterSignedByte_Literal { rt: RegisterID::from_index(rt), imm32: imm12, add: op1 == 3 }
            }
        } else if op1 == 1 || op1 == 3 {
            if rt == 13 {
                Instruction::Unpredictable
            } else if op1 == 1 {
                Instruction::LoadRegisterByte_Immediate { rt: RegisterID::from_index(rt), rn: RegisterID::from_index(rn), imm32: imm12, index: true, add: true, wback: false }
            } else {
                Instruction::LoadRegisterSignedByte_Immediate { rt: RegisterID::from_index(rt), rn: RegisterID::from_index(rn), imm32: imm12, index: true, add: true, wback: false }
            }
        } else if writeback_form || offset_form {
            if rt == 13 || (wback && rn == rt) {
                Instruction::Unpredictable
            } else if op1 == 0 {
                Instruction::LoadRegisterByte_Immediate { rt: RegisterID::from_index(rt), rn: RegisterID::from_index(rn), imm32: imm8, index, add, wback }
            } else {
                Instruction::LoadRegisterSignedByte_Immediate { rt: RegisterID::from_index(rt), rn: RegisterID::from_index(rn), imm32: imm8, index, add, wback }
            }
        } else if unprivileged {
            if rt == 13 {
                Instruction::Unpredictable
            } else if op1 == 0 {
                Instruction::LoadRegisterByteUnprivileged { rt: RegisterID::from_index(rt), rn: RegisterID::from_index(rn), imm32: imm8 }
            } else {
                Instruction::LoadRegisterSignedByteUnprivileged { rt: RegisterID::from_index(rt), rn: RegisterID::from_index(rn), imm32: imm8 }
            }
        } else if register_form {
            if rt == 13 || rm == 13 || rm == 15 {
                Instruction::Unpredictable
            } else if op1 == 0 {
                Instruction::LoadRegisterByte_Register { rt: RegisterID::from_index(rt), rn: RegisterID::from_index(rn), rm: RegisterID::from_index(rm), shift, index: true, add: true, wback: false }
            } else {
                Instruction::LoadRegisterSignedByte_Register { rt: RegisterID::from_index(rt), rn: RegisterID::from_index(rn), rm: RegisterID::from_index(rm), shift, index: true, add: true, wback: false }
            }
        } else {
            Instruction::Undefined
        }
    } else if op1 < 2 && (rn == 15 || op1 == 1 || offset_form || register_form) {
        if rn == 15 {
            Instruction::Unsupported { name: "PLD (literal)" }
        } else if register_form && op1 == 0 {
            Instruction::Unsupported { name: "PLD (register)" }
        } else {
            Instruction::Unsupported { name: "PLD (immediate)" }
        }
    } else if op1 >= 2 && (rn == 15 || op1 == 3 || offset_form || register_form) {
        if register_form && rn != 15 && op1 == 2 {
            Instruction::Unsupported { name: "PLI (register)" }
        } else {
            Instruction::Unsupported { name: "PLI (immediate, literal)" }
        }
    } else if writeback_form || unprivileged {
        Instruction::Unpredictable
    } else {
        Instruction::Undefined
    }
}


/// Load halfword and memory hints, `11111 00 op1 01 1 Rn Rt op2`.
pub open spec fn spec_load_halfword(hw1: u32, hw2: u32, xpsr: XPSR) -> Instruction {
    let op1 = (hw1 / 128) % 4;
    let rn = hw1 % 16;
    let rt = (hw2 / 4096) % 16;
    let op2 = (hw2 / 64) % 64;
    let imm12 = hw2 % 4096;
    let imm8 = hw2 % 256;
    let p = (hw2 / 1024) % 2;
    let u = (hw2 / 512) % 2;
    let w = (hw2 / 256) % 2;
    let index = p == 1;
    let add = u == 1;
    let wback = w == 1;
    let rm = hw2 % 16;
    let shift = Shift { srtype: SRType::LSL, amount: ((hw2 / 16) % 4) as u8 };
    let writeback_form = op2 / 32 == 1 && (op2 % 8) / 4 == 1;
    let offset_form = op2 / 4 == 12;
    let unprivileged = op2 / 4 == 14;
    let register_form = op2 == 0;
    if rt != 15 {
        if rn == 15 {
            if rt == 13 {
                Instruction::Unpredictable
            } else if op1 < 2 {
                Instruction::LoadRegisterHalfword_Literal { rt: reg(rt), imm32: imm12, add: op1 == 1 }
            } else {
                Instruction::LoadRegisterSignedHalfword_Literal { rt: reg(rt), imm32: imm12, add: op1 == 3 }
            }
        } else if op1 == 1 || op1 == 3 {
            if rt == 13 {
                Instruction::Unpredictable
            } else if op1 == 1 {
                Instruction::LoadRegisterHalfword_Immediate { rt: reg(rt), rn: reg(rn), imm32: imm12, index: true, add: true, wback: false }
            } else {
                Instruction::LoadRegisterSignedHalfword_Immediate { rt: reg(rt), rn: reg(rn), imm32: imm12, index: true, add: true, wback: false }
            }
        } else if writeback_form || offset_form {
            if rt == 13 || (wback && rn == rt) {
                Instruction::Unpredictable
            } else if op1 == 0 {
                Instruction::LoadRegisterHalfword_Immediate { rt: reg(rt), rn: reg(rn), imm32: imm8, index, add, wback }
            } else {
                Instruction::LoadRegisterSignedHalfword_Immediate { rt: reg(rt), rn: reg(rn), imm32: imm8, index, add, wback }
            }
        } else if unprivileged {
            if rt == 13 {
                Instruction::Unpredictable
            } else if op1 == 0 {
                Instruction::LoadRegisterHalfwordUnprivileged { rt: reg(rt), rn: reg(rn), imm32: imm8 }
            } else {
                Instruction::LoadRegisterSignedHalfwordUnprivileged { rt: reg(rt), rn: reg(rn), imm32: imm8 }
            }
        } else if register_form {
            if rt == 13 || rm == 13 || rm == 15 {
                Instruction::Unpredictable
            } else if op1 == 0 {
                Instruction::LoadRegisterHalfword_Register { rt: reg(rt), rn: reg(rn), rm: reg(rm), shift, index: true, add: true, wback: false }
            } else {
                Instruction::LoadRegisterSignedHalfword_Register { rt: reg(rt), rn: reg(rn), rm: reg(rm), shift, index: true, add: true, wback: false }
            }
        } else {
            Instruction::Undefined
        }
    } else if rn == 15 && op1 < 2 {
        Instruction::Unpredictable
    } else if rn == 15 || op1 == 1 || op1 == 3 || register_form || offset_form {
        Instruction::Unsupported { name: "Unallocated memory hint. Treat as NOP. Software must not use these encodings." }
    } else if writeback_form || unprivileged {
        Instruction::Unpredictable
    } else {
        Instruction::Undefined
    }
}

fn load_halfword(hw1: u32, hw2: u32, xpsr: XPSR) -> (r: Instruction)
    requires
        hw1 < 0x10000,
        hw2 < 0x10000,
    ensures
        r == spec_load_halfword(hw1, hw2, xpsr),
{
    let op1 = (hw1 / 128) % 4;
    let rn = hw1 % 16;
    let rt = (hw2 / 4096) % 16;
    let op2 = (hw2 / 64) % 64;
    let imm12 = hw2 % 4096;
    let imm8 = hw2 % 256;
    let p = (hw2 / 1024) % 2;
    let u = (hw2 / 512) % 2;
    let w = (hw2 / 256) % 2;
    let index = p == 1;
    let add = u == 1;
    let wback = w == 1;
    let rm = hw2 % 16;
    let shift = Shift { srtype: SRType::LSL, amount: ((hw2 / 16) % 4) as u8 };
    let writeback_form = op2 / 32 == 1 && (op2 % 8) / 4 == 1;
    let offset_form = op2 / 4 == 12;
    let unprivileged = op2 / 4 == 14;
    let register_form = op2 == 0;
    if rt != 15 {
        if rn == 15 {
            if rt == 13 {
                Instruction::Unpredictable
            } else if op1 < 2 {
                Instruction::LoadRegisterHalfword_Literal { rt: RegisterID::from_index(rt), imm32: imm12, add: op1 == 1 }
            } else {
                Instruction::LoadRegisterSignedHalfword_Literal { rt: RegisterID::from_index(rt), imm32: imm12, add: op1 == 3 }
            }
        } else if op1 == 1 || op1 == 3 {
            if rt == 13 {
                Instruction::Unpredictable
            } else if op1 == 1 {
                Instruction::LoadRegisterHalfword_Immediate { rt: RegisterID::from_index(rt), rn: RegisterID::from_index(rn), imm32: imm12, index: true, add: true, wback: false }
            } else {
                Instruction::LoadRegisterSignedHalfword_Immediate { rt: RegisterID::from_index(rt), rn: RegisterID::from_index(rn), imm32: imm12, index: true, add: true, wback: false }
            }
        } else if writeback_form || offset_form {
            if rt == 13 || (wback && rn == rt) {
                Instruction::Unpredictable
            } else if op1 == 0 {
                Instruction::LoadRegisterHalfword_Immediate { rt: RegisterID::from_index(rt), rn: RegisterID::from_index(rn), imm32: imm8, index, add, wback }
            } else {
                Instruction::LoadRegisterSignedHalfword_Immediate { rt: RegisterID::from_index(rt), rn: RegisterID::from_index(rn), imm32: imm8, index, add, wback }
            }
        } else if unprivileged {
            if rt == 13 {
                Instruction::Unpredictable
            } else if op1 == 0 {
                Instruction::LoadRegisterHalfwordUnprivileged { rt: RegisterID::from_index(rt), rn: RegisterID::from_index(rn), imm32: imm8 }
            } else {
                Instruction::LoadRegisterSignedHalfwordUnprivileged { rt: RegisterID::from_index(rt), rn: RegisterID::from_index(rn), imm32: imm8 }
            }
        } else if register_form {
            if rt == 13 || rm == 13 || rm == 15 {
                Instruction::Unpredictable
            } else if op1 == 0 {
                Instruction::LoadRegisterHalfword_Register { rt: RegisterID::from_index(rt), rn: RegisterID::from_index(rn), rm: RegisterID::from_index(rm), shift, index: true, add: true, wback: false }
            } else {
                Instruction::LoadRegisterSignedHalfword_Register { rt: RegisterID::from_index(rt), rn: RegisterID::from_index(rn), rm: RegisterID::from_index(rm), shift, index: true, add: true, wback: false }
            }
        } else {
            Instruction::Undefined
        }
    } else if rn == 15 && op1 < 2 {
        Instruction::Unpredictable
    } else if rn == 15 || op1 == 1 || op1 == 3 || register_form || offset_form {
        Instruction::Unsupported { name: "Unallocated memory hint. Treat as NOP. Software must not use these encodings." }
    } else if writeback_form || unprivileged {
        Instruction::Unpredictable
    } else {
        Instruction::Undefined
    }
}


/// Load word, `11111 00 op1 10 1 Rn Rt op2`.
pub open spec fn spec_load_word(hw1: u32, hw2: u32, xpsr: XPSR) -> Instruction {
    let op1 = (hw1 / 128) % 4;
    let rn = hw1 % 16;
    let rt = (hw2 / 4096) % 16;
    let op2 = (hw2 / 64) % 64;
    let imm12 = hw2 % 4096;
    let imm8 = hw2 % 256;
    let p = (hw2 / 1024) % 2;
    let u = (hw2 / 512) % 2;
    let w = (hw2 / 256) % 2;
    let index = p == 1;
    let add = u == 1;
    let wback = w == 1;
    let rm = hw2 % 16;
    let shift = Shift { srtype: SRType::LSL, amount: ((hw2 / 16) % 4) as u8 };
    let writeback_form = op2 / 32 == 1 && (op2 % 8) / 4 == 1;
    let offset_form = op2 / 4 == 12;
    let unprivileged = op2 / 4 == 14;
    let register_form = op2 == 0;
    let it_not_last = xpsr.in_it() && !xpsr.last_in_it();
    if op1 >= 2 {
        Instruction::Undefined
    } else if rn == 15 {
        if rt == 15 && it_not_last {
            Instruction::Unpredictable
        } else {
            Instruction::LoadRegister_Literal { rt: reg(rt), imm32: imm12, add: op1 == 1 }
        }
    } else if op1 == 1 {
        if rt == 15 && it_not_last {
            Instruction::Unpredictable
        } else {
            Instruction::LoadRegister_Immediate { rt: reg(rt), rn: reg(rn), imm32: imm12, index: true, add: true, wback: false }
        }
    } else if writeback_form || offset_form {
        if rn == 13 && p == 0 && u == 1 && w == 1 && imm8 == 4 {
            // POP of one register: LDR Rt, [SP], #4
            if rt == 13 || (rt == 15 && it_not_last) {
                Instruction::Unpredictable
            } else {
                Instruction::LoadRegister_Immediate { rt: reg(rt), rn: RegisterID::SP, imm32: 4, index: false, add: true, wback: true }
            }
        } else if (wback && rn == rt) || (rt == 15 && it_not_last) {
            Instruction::Unpredictable
        } else {
            Instruction::LoadRegister_Immediate { rt: reg(rt), rn: reg(rn), imm32: imm8, index, add, wback }
        }
    } else if unprivileged {
        if rt == 13 || rt == 15 {
            Instruction::Unpredictable
        } else {
            Instruction::LoadRegisterUnprivileged { rt: reg(rt), rn: reg(rn), imm32: imm8 }
        }
    } else if register_form {
        if rm == 13 || rm == 15 || (rt == 15 && it_not_last) {
            Instruction::Unpredictable
        } else {
            Instruction::LoadRegister_Register { rt: reg(rt), rn: reg(rn), rm: reg(rm), shift, index: true, add: true, wback: false }
        }
    } else {
        Instruction::Undefined
    }
}

fn load_word(hw1: u32, hw2: u32, xpsr: XPSR) -> (r: Instruction)
    requires
        hw1 < 0x10000,
        hw2 < 0x10000,
    ensures
        r == spec_load_word(hw1, hw2, xpsr),
{
    let op1 = (hw1 / 128) % 4;
    let rn = hw1 % 16;
    let rt = (hw2 / 4096) % 16;
    let op2 = (hw2 / 64) % 64;
    let imm12 = hw2 % 4096;
    let imm8 = hw2 % 256;
    let p = (hw2 / 1024) % 2;
    let u = (hw2 / 512) % 2;
    let w = (hw2 / 256) % 2;
    let index = p == 1;
    let add = u == 1;
    let wback = w == 1;
    let rm = hw2 % 16;
    let shift = Shift { srtype: SRType::LSL, amount: ((hw2 / 16) % 4) as u8 };
    let writeback_form = op2 / 32 == 1 && (op2 % 8) / 4 == 1;
    let offset_form = op2 / 4 == 12;
    let unprivileged = op2 / 4 == 14;
    let register_form = op2 == 0;
    let it_not_last = xpsr.in_it_block() && !xpsr.last_in_it_block();
    if op1 >= 2 {
        Instruction::Undefined
    } else if rn == 15 {
        if rt == 15 && it_not_last {
            Instruction::Unpredictable
        } else {
            Instruction::LoadRegister_Literal { rt: RegisterID::from_index(rt), imm32: imm12, add: op1 == 1 }
        }
    } else if op1 == 1 {
        if rt == 15 && it_not_last {
            Instruction::Unpredictable
        } else {
            Instruction::LoadRegister_Immediate { rt: RegisterID::from_index(rt), rn: RegisterID::from_index(rn), imm32: imm12, index: true, add: true, wback: false }
        }
    } else if writeback_form || offset_form {
        if rn == 13 && p == 0 && u == 1 && w == 1 && imm8 == 4 {
            // POP of one register: LDR Rt, [SP], #4
            if rt == 13 || (rt == 15 && it_not_last) {
                Instruction::Unpredictable
            } else {
                Instruction::LoadRegister_Immediate { rt: RegisterID::from_index(rt), rn: RegisterID::SP, imm32: 4, index: false, add: true, wback: true }
            }
        } else if (wback && rn == rt) || (rt == 15 && it_not_last) {
            Instruction::Unpredictable
        } else {
            Instruction::LoadRegister_Immediate { rt: RegisterID::from_index(rt), rn: RegisterID::from_index(rn), imm32: imm8, index, add, wback }
        }
    } else if unprivileged {
        if rt == 13 || rt == 15 {
            Instruction::Unpredictable
        } else {
            Instruction::LoadRegisterUnprivileged { rt: RegisterID::from_index(rt), rn: RegisterID::from_index(rn), imm32: imm8 }
        }
    } else if register_form {
        if rm == 13 || rm == 15 || (rt == 15 && it_not_last) {
            Instruction::Unpredictable
        } else {
            Instruction::LoadRegister_Register { rt: RegisterID::from_index(rt), rn: RegisterID::from_index(rn), rm: RegisterID::from_index(rm), shift, index: true, add: true, wback: false }
        }
    } else {
        Instruction::Undefined
    }
}


/// Data processing on registers, `11111 010 op1 Rn 1111 Rd op2 Rm`.
pub open spec fn spec_data_processing_register(hw1: u32, hw2: u32, xpsr: XPSR) -> Instruction {
    let op1 = (hw1 / 16) % 16;
    let rn = hw1 % 16;
    let rd = (hw2 / 256) % 16;
    let op2 = (hw2 / 16) % 16;
    let rm = hw2 % 16;
    let setflags = op1 % 2 == 1;
    let rotation = Shift { srtype: SRType::ROR, amount: (((hw2 / 16) % 4) * 8) as u8 };
    let bad_rd_rm = rd == 13 || rd == 15 || rm == 13 || rm == 15;
    if hw2 / 4096 != 15 {
        Instruction::Undefined
    } else if op1 < 8 && op2 == 0 {
        if bad_rd_rm || rn == 13 || rn == 15 {
            Instruction::Unpredictable
        } else if op1 / 2 == 0 {
            Instruction::LogicalShiftLeft_Register { rd: reg(rd), rn: reg(rn), rm: reg(rm), setflags, setflags_depends_on_it: false }
        } else if op1 / 2 == 1 {
            Instruction::LogicalShiftRight_Register { rd: reg(rd), rn: reg(rn), rm: reg(rm), setflags, setflags_depends_on_it: false }
        } else if op1 / 2 == 2 {
            Instruction::ArithmeticShiftRight_Register { rd: reg(rd), rn: reg(rn), rm: reg(rm), setflags, setflags_depends_on_it: false }
        } else {
            Instruction::RotateRight_Register { rd: reg(rd), rn: reg(rn), rm: reg(rm), setflags, setflags_depends_on_it: false }
        }
    } else if op2 >= 8 && rn == 15 && (op1 == 0 || op1 == 1 || op1 == 4 || op1 == 5) {
        // SXTH, UXTH, SXTB, UXTB
        if (hw2 / 64) % 2 != 0 || bad_rd_rm {
            Instruction::Unpredictable
        } else if op1 == 0 {
            Instruction::SignedExtendHalfword { rd: reg(rd), rm: reg(rm), rotation }
        } else if op1 == 1 {
            Instruction::UnsignedExtendHalfword { rd: reg(rd), rm: reg(rm), rotation }
        } else if op1 == 4 {
            Instruction::SignedExtendByte { rd: reg(rd), rm: reg(rm), rotation }
        } else {
            Instruction::UnsignedExtendByte { rd: reg(rd), rm: reg(rm), rotation }
        }
    } else if op1 / 4 == 2 && op2 / 4 == 2 && (op1 % 4 == 1 || (op1 % 4 == 3 && op2 % 4 == 0)) {
        // REV, REV16, RBIT, REVSH, CLZ: Rm is encoded twice.
        if !spec_consistent(rn, rm) || rd == 13 || rd == 15 || rn == 13 || rn == 15 {
            Instruction::Unpredictable
        } else if op1 % 4 == 3 {
            Instruction::CountLeadingZeros { rd: reg(rd), rm: reg(rn) }
        } else if op2 % 4 == 0 {
            Instruction::ByteReverseWord { rd: reg(rd), rm: reg(rn) }
        } else if op2 % 4 == 1 {
            Instruction::ByteReversePackedHalfword { rd: reg(rd), rm: reg(rn) }
        } else if op2 % 4 == 2 {
            Instruction::ReverseBits { rd: reg(rd), rm: reg(rn) }
        } else {
            Instruction::ByteReverseSignedHalfword { rd: reg(rd), rm: reg(rn) }
        }
    } else {
        Instruction::Undefined
    }
}

fn data_processing_register(hw1: u32, hw2: u32, xpsr: XPSR) -> (r: Instruction)
    requires
        hw1 < 0x10000,
        hw2 < 0x10000,
    ensures
        r == spec_data_processing_register(hw1, hw2, xpsr),
{
    let op1 = (hw1 / 16) % 16;
    let rn = hw1 % 16;
    let rd = (hw2 / 256) % 16;
    let op2 = (hw2 / 16) % 16;
    let rm = hw2 % 16;
    let setflags = op1 % 2 == 1;
    let rotation = Shift { srtype: SRType::ROR, amount: (((hw2 / 16) % 4) * 8) as u8 };
    let bad_rd_rm = rd == 13 || rd == 15 || rm == 13 || rm == 15;
    if hw2 / 4096 != 15 {
        Instruction::Undefined
    } else if op1 < 8 && op2 == 0 {
        if bad_rd_rm || rn == 13 || rn == 15 {
            Instruction::Unpredictable
        } else if op1 / 2 == 0 {
            Instruction::LogicalShiftLeft_Register { rd: RegisterID::from_index(rd), rn: RegisterID::from_index(rn), rm: RegisterID::from_index(rm), setflags, setflags_depends_on_it: false }
        } else if op1 / 2 == 1 {
            Instruction::LogicalShiftRight_Register { rd: RegisterID::from_index(rd), rn: RegisterID::from_index(rn), rm: RegisterID::from_index(rm), setflags, setflags_depends_on_it: false }
        } else if op1 / 2 == 2 {
            Instruction::ArithmeticShiftRight_Register { rd: RegisterID::from_index(rd), rn: RegisterID::from_index(rn), rm: RegisterID::from_index(rm), setflags, setflags_depends_on_it: false }
        } else {
            Instruction::RotateRight_Register { rd: RegisterID::from_index(rd), rn: RegisterID::from_index(rn), rm: RegisterID::from_index(rm), setflags, setflags_depends_on_it: false }
        }
    } else if op2 >= 8 && rn == 15 && (op1 == 0 || op1 == 1 || op1 == 4 || op1 == 5) {
        // SXTH, UXTH, SXTB, UXTB
        if (hw2 / 64) % 2 != 0 || bad_rd_rm {
            Instruction::Unpredictable
        } else if op1 == 0 {
            Instruction::SignedExtendHalfword { rd: RegisterID::from_index(rd), rm: RegisterID::from_index(rm), rotation }
        } else if op1 == 1 {
            Instruction::UnsignedExtendHalfword { rd: RegisterID::from_index(rd), rm: RegisterID::from_index(rm), rotation }
        } else if op1 == 4 {
            Instruction::SignedExtendByte { rd: RegisterID::from_index(rd), rm: RegisterID::from_index(rm), rotation }
        } else {
            Instruction::UnsignedExtendByte { rd: RegisterID::from_index(rd), rm: RegisterID::from_index(rm), rotation }
        }
    } else if op1 / 4 == 2 && op2 / 4 == 2 && (op1 % 4 == 1 || (op1 % 4 == 3 && op2 % 4 == 0)) {
        // REV, REV16, RBIT, REVSH, CLZ: Rm is encoded twice.
        if !consistent(rn, rm) || rd == 13 || rd == 15 || rn == 13 || rn == 15 {
            Instruction::Unpredictable
        } else if op1 % 4 == 3 {
            Instruction::CountLeadingZeros { rd: RegisterID::from_index(rd), rm: RegisterID::from_index(rn) }
        } else if op2 % 4 == 0 {
            Instruction::ByteReverseWord { rd: RegisterID::from_index(rd), rm: RegisterID::from_index(rn) }
        } else if op2 % 4 == 1 {
            Instruction::ByteReversePackedHalfword { rd: RegisterID::from_index(rd), rm: RegisterID::from_index(rn) }
        } else if op2 % 4 == 2 {
            Instruction::ReverseBits { rd: RegisterID::from_index(rd), rm: RegisterID::from_index(rn) }
        } else {
            Instruction::ByteReverseSignedHalfword { rd: RegisterID::from_index(rd), rm: RegisterID::from_index(rn) }
        }
    } else {
        Instruction::Undefined
    }
}


/// Multiply and multiply-accumulate, `11111 0110 op1 Rn Ra Rd 00 op2 Rm`.
pub open spec fn spec_multiply_accumulate(hw1: u32, hw2: u32, xpsr: XPSR) -> Instruction {
    let op1 = (hw1 / 16) % 8;
    let rn = hw1 % 16;
    let ra = (hw2 / 4096) % 16;
    let rd = (hw2 / 256) % 16;
    let op2 = (hw2 / 16) % 4;
    let rm = hw2 % 16;
    let bad = rd == 13 || rd == 15 || rn == 13 || rn == 15 || rm == 13 || rm == 15;
    if (hw2 / 64) % 4 != 0 || op1 != 0 || op2 > 1 {
        Instruction::Undefined
    } else if op2 == 0 && ra == 15 {
        if bad {
            Instruction::Unpredictable
        } else {
            Instruction::Multiply { rd: reg(rd), rn: reg(rn), rm: reg(rm), setflags: false, setflags_depends_on_it: false }
        }
    } else if bad || ra == 13 || ra == 15 {
        Instruction::Unpredictable
    } else if op2 == 0 {
        Instruction::MultiplyAccumulate { rd: reg(rd), rn: reg(rn), rm: reg(rm), ra: reg(ra), setflags: false }
    } else {
        Instruction::MultiplyAndSubtract { rd: reg(rd), rn: reg(rn), rm: reg(rm), ra: reg(ra) }
    }
}

fn multiply_accumulate(hw1: u32, hw2: u32, xpsr: XPSR) -> (r: Instruction)
    requires
        hw1 < 0x10000,
        hw2 < 0x10000,
    ensures
        r == spec_multiply_accumulate(hw1, hw2, xpsr),
{
    let op1 = (hw1 / 16) % 8;
    let rn = hw1 % 16;
    let ra = (hw2 / 4096) % 16;
    let rd = (hw2 / 256) % 16;
    let op2 = (hw2 / 16) % 4;
    let rm = hw2 % 16;
    let bad = rd == 13 || rd == 15 || rn == 13 || rn == 15 || rm == 13 || rm == 15;
    if (hw2 / 64) % 4 != 0 || op1 != 0 || op2 > 1 {
        Instruction::Undefined
    } else if op2 == 0 && ra == 15 {
        if bad {
            Instruction::Unpredictable
        } else {
            Instruction::Multiply { rd: RegisterID::from_index(rd), rn: RegisterID::from_index(rn), rm: RegisterID::from_index(rm), setflags: false, setflags_depends_on_it: false }
        }
    } else if bad || ra == 13 || ra == 15 {
        Instruction::Unpredictable
    } else if op2 == 0 {
        Instruction::MultiplyAccumulate { rd: RegisterID::from_index(rd), rn: RegisterID::from_index(rn), rm: RegisterID::from_index(rm), ra: RegisterID::from_index(ra), setflags: false }
    } else {
        Instruction::MultiplyAndSubtract { rd: RegisterID::from_index(rd), rn: RegisterID::from_index(rn), rm: RegisterID::from_index(rm), ra: RegisterID::from_index(ra) }
    }
}


/// Long multiply, long multiply-accumulate and divide, `11111 0111 op1 Rn ... op2 Rm`.
pub open spec fn spec_long_multiply_divide(hw1: u32, hw2: u32, xpsr: XPSR) -> Instruction {
    let op1 = (hw1 / 16) % 8;
    let rn = hw1 % 16;
    let rd_lo = (hw2 / 4096) % 16;
    let rd_hi = (hw2 / 256) % 16;
    let op2 = (hw2 / 16) % 16;
    let rm = hw2 % 16;
    let bad = rd_hi == 13 || rd_hi == 15 || rn == 13 || rn == 15 || rm == 13 || rm == 15;
    if op2 == 0 && op1 % 2 == 0 {
        if bad || rd_lo == 13 || rd_lo == 15 || rd_lo == rd_hi {
            Instruction::Unpredictable
        } else if op1 == 0 {
            Instruction::SignedMultiplyLong { rd_lo: reg(rd_lo), rd_hi: reg(rd_hi), rn: reg(rn), rm: reg(rm) }
        } else if op1 == 2 {
            Instruction::UnsignedMultiplyLong { rd_lo: reg(rd_lo), rd_hi: reg(rd_hi), rn: reg(rn), rm: reg(rm) }
        } else if op1 == 4 {
            Instruction::SignedMultiplyAccumulateLong { rd_lo: reg(rd_lo), rd_hi: reg(rd_hi), rn: reg(rn), rm: reg(rm) }
        } else {
            Instruction::UnsignedMultiplyAccumulateLong { rd_lo: reg(rd_lo), rd_hi: reg(rd_hi), rn: reg(rn), rm: reg(rm) }
        }
    } else if op2 == 15 && (op1 == 1 || op1 == 3) {
        // SDIV, UDIV: bits 15:12 read 1111, the destination is in bits 11:8.
        if rd_lo != 15 || bad {
            Instruction::Unpredictable
        } else if op1 == 1 {
            Instruction::SignedDivide { rd: reg(rd_hi), rn: reg(rn), rm: reg(rm) }
        } else {
            Instruction::UnsignedDivide { rd: reg(rd_hi), rn: reg(rn), rm: reg(rm) }
        }
    } else {
        Instruction::Undefined
    }
}

fn long_multiply_divide(hw1: u32, hw2: u32, xpsr: XPSR) -> (r: Instruction)
    requires
        hw1 < 0x10000,
        hw2 < 0x10000,
    ensures
        r == spec_long_multiply_divide(hw1, hw2, xpsr),
{
    let op1 = (hw1 / 16) % 8;
    let rn = hw1 % 16;
    let rd_lo = (hw2 / 4096) % 16;
    let rd_hi = (hw2 / 256) % 16;
    let op2 = (hw2 / 16) % 16;
    let rm = hw2 % 16;
    let bad = rd_hi == 13 || rd_hi == 15 || rn == 13 || rn == 15 || rm == 13 || rm == 15;
    if op2 == 0 && op1 % 2 == 0 {
        if bad || rd_lo == 13 || rd_lo == 15 || rd_lo == rd_hi {
            Instruction::Unpredictable
        } else if op1 == 0 {
            Instruction::SignedMultiplyLong { rd_lo: RegisterID::from_index(rd_lo), rd_hi: RegisterID::from_index(rd_hi), rn: RegisterID::from_index(rn), rm: RegisterID::from_index(rm) }
        } else if op1 == 2 {
            Instruction::UnsignedMultiplyLong { rd_lo: RegisterID::from_index(rd_lo), rd_hi: RegisterID::from_index(rd_hi), rn: RegisterID::from_index(rn), rm: RegisterID::from_index(rm) }
        } else if op1 == 4 {
            Instruction::SignedMultiplyAccumulateLong { rd_lo: RegisterID::from_index(rd_lo), rd_hi: RegisterID::from_index(rd_hi), rn: RegisterID::from_index(rn), rm: RegisterID::from_index(rm) }
        } else {
            Instruction::UnsignedMultiplyAccumulateLong { rd_lo: RegisterID::from_index(rd_lo), rd_hi: RegisterID::from_index(rd_hi), rn: RegisterID::from_index(rn), rm: RegisterID::from_index(rm) }
        }
    } else if op2 == 15 && (op1 == 1 || op1 == 3) {
        // SDIV, UDIV: bits 15:12 read 1111, the destination is in bits 11:8.
        if rd_lo != 15 || bad {
            Instruction::Unpredictable
        } else if op1 == 1 {
            Instruction::SignedDivide { rd: RegisterID::from_index(rd_hi), rn: RegisterID::from_index(rn), rm: RegisterID::from_index(rm) }
        } else {
            Instruction::UnsignedDivide { rd: RegisterID::from_index(rd_hi), rn: RegisterID::from_index(rn), rm: RegisterID::from_index(rm) }
        }
    } else {
        Instruction::Undefined
    }
}

/// The 32-bit Thumb instruction `instr` (first halfword in bits 31:16), in the IT state and
/// with the carry flag of `xpsr`.
pub open spec fn spec_decode_long(instr: u32, xpsr: XPSR) -> Instruction {
    let hw1 = instr / 0x1_0000;
    let hw2 = instr % 0x1_0000;
    let op1 = (hw1 / 2048) % 4;
    let op2 = (hw1 / 16) % 128;
    if op1 == 1 {
        if op2 / 64 == 1 {
            spec_coprocessor(hw1, hw2, xpsr)
        } else if op2 / 32 == 1 {
            spec_data_processing_shifted_register(hw1, hw2, xpsr)
        } else if (op2 / 4) % 2 == 0 {
            spec_load_store_multiple(hw1, hw2, xpsr)
        } else {
            spec_dual_exclusive_table(hw1, hw2, xpsr)
        }
    } else if op1 == 2 {
        if hw2 / 32768 == 1 {
            spec_branches_and_miscellaneous_control(hw1, hw2, xpsr)
        } else if (op2 / 32) % 2 == 0 {
            spec_data_processing_modified_immediate(hw1, hw2, xpsr)
        } else {
            spec_data_processing_plain_immediate(hw1, hw2, xpsr)
        }
    } else if op2 / 64 == 1 {
        spec_coprocessor(hw1, hw2, xpsr)
    } else if op2 / 16 == 0 && op2 % 2 == 0 {
        spec_store_single(hw1, hw2, xpsr)
    } else if op2 / 32 == 0 && op2 % 8 == 1 {
        spec_load_byte(hw1, hw2, xpsr)
    } else if op2 / 32 == 0 && op2 % 8 == 3 {
        spec_load_halfword(hw1, hw2, xpsr)
    } else if op2 / 32 == 0 && op2 % 8 == 5 {
        spec_load_word(hw1, hw2, xpsr)
    } else if op2 / 32 == 0 && op2 % 8 == 7 {
        Instruction::Undefined
    } else if op2 / 16 == 2 {
        spec_data_processing_register(hw1, hw2, xpsr)
    } else if op2 / 8 == 6 {
        spec_multiply_accumulate(hw1, hw2, xpsr)
    } else if op2 / 8 == 7 {
        spec_long_multiply_divide(hw1, hw2, xpsr)
    } else {
        Instruction::Unsupported { name: "Not covered by the docs." }
    }
}

/// Decodes a 32-bit Thumb instruction whose first halfword is in bits 31:16 of `instr`;
/// that halfword must start a 32-bit instruction.
pub fn decode_long_instruction(instr: u32, xpsr: XPSR) -> (r: Instruction)
    requires
        starts_long((instr / 0x1_0000) as u16),
    ensures
        r == spec_decode_long(instr, xpsr),
{
    let hw1 = instr / 0x1_0000;
    let hw2 = instr % 0x1_0000;
    let op1 = (hw1 / 2048) % 4;
    let op2 = (hw1 / 16) % 128;
    if op1 == 1 {
        if op2 / 64 == 1 {
            coprocessor(hw1, hw2, xpsr)
        } else if op2 / 32 == 1 {
            data_processing_shifted_register(hw1, hw2, xpsr)
        } else if (op2 / 4) % 2 == 0 {
            load_store_multiple(hw1, hw2, xpsr)
        } else {
            dual_exclusive_table(hw1, hw2, xpsr)
        }
    } else if op1 == 2 {
        if hw2 / 32768 == 1 {
            branches_and_miscellaneous_control(hw1, hw2, xpsr)
        } else if (op2 / 32) % 2 == 0 {
            data_processing_modified_immediate(hw1, hw2, xpsr)
        } else {
            data_processing_plain_immediate(hw1, hw2, xpsr)
        }
    } else if op2 / 64 == 1 {
        coprocessor(hw1, hw2, xpsr)
    } else if op2 / 16 == 0 && op2 % 2 == 0 {
        store_single(hw1, hw2, xpsr)
    } else if op2 / 32 == 0 && op2 % 8 == 1 {
        load_byte(hw1, hw2, xpsr)
    } else if op2 / 32 == 0 && op2 % 8 == 3 {
        load_halfword(hw1, hw2, xpsr)
    } else if op2 / 32 == 0 && op2 % 8 == 5 {
        load_word(hw1, hw2, xpsr)
    } else if op2 / 32 == 0 && op2 % 8 == 7 {
        Instruction::Undefined
    } else if op2 / 16 == 2 {
        data_processing_register(hw1, hw2, xpsr)
    } else if op2 / 8 == 6 {
        multiply_accumulate(hw1, hw2, xpsr)
    } else if op2 / 8 == 7 {
        long_multiply_divide(hw1, hw2, xpsr)
    } else {
        Instruction::Unsupported { name: "Not covered by the docs." }
    }
}



proof fn lemma_coprocessor_lsl(hw1: u32, hw2: u32, xpsr: XPSR)
    ensures
        lsl_offsets_only(spec_coprocessor(hw1, hw2, xpsr)),
{
}

proof fn lemma_data_processing_shifted_register_lsl(hw1: u32, hw2: u32, xpsr: XPSR)
    ensures
        lsl_offsets_only(spec_data_processing_shifted_register(hw1, hw2, xpsr)),
{
}

proof fn lemma_load_store_multiple_lsl(hw1: u32, hw2: u32, xpsr: XPSR)
    ensures
        lsl_offsets_only(spec_load_store_multiple(hw1, hw2, xpsr)),
{
}

proof fn lemma_dual_exclusive_table_lsl(hw1: u32, hw2: u32, xpsr: XPSR)
    ensures
        lsl_offsets_only(spec_dual_exclusive_table(hw1, hw2, xpsr)),
{
}

proof fn lemma_branches_and_miscellaneous_control_lsl(hw1: u32, hw2: u32, xpsr: XPSR)
    ensures
        lsl_offsets_only(spec_branches_and_miscellaneous_control(hw1, hw2, xpsr)),
{
}

proof fn lemma_data_processing_modified_immediate_lsl(hw1: u32, hw2: u32, xpsr: XPSR)
    ensures
        lsl_offsets_only(spec_data_processing_modified_immediate(hw1, hw2, xpsr)),
{
}

proof fn lemma_data_processing_plain_immediate_lsl(hw1: u32, hw2: u32, xpsr: XPSR)
    ensures
        lsl_offsets_only(spec_data_processing_plain_immediate(hw1, hw2, xpsr)),
{
}

proof fn lemma_store_single_lsl(hw1: u32, hw2: u32, xpsr: XPSR)
    ensures
        lsl_offsets_only(spec_store_single(hw1, hw2, xpsr)),
{
}

proof fn lemma_load_byte_lsl(hw1: u32, hw2: u32, xpsr: XPSR)
    ensures
        lsl_offsets_only(spec_load_byte(hw1, hw2, xpsr)),
{
}

proof fn lemma_load_halfword_lsl(hw1: u32, hw2: u32, xpsr: XPSR)
    ensures
        lsl_offsets_only(spec_load_halfword(hw1, hw2, xpsr)),
{
}

proof fn lemma_load_word_lsl(hw1: u32, hw2: u32, xpsr: XPSR)
    ensures
        lsl_offsets_only(spec_load_word(hw1, hw2, xpsr)),
{
}

proof fn lemma_data_processing_register_lsl(hw1: u32, hw2: u32, xpsr: XPSR)
    ensures
        lsl_offsets_only(spec_data_processing_register(hw1, hw2, xpsr)),
{
}

proof fn lemma_multiply_accumulate_lsl(hw1: u32, hw2: u32, xpsr: XPSR)
    ensures
        lsl_offsets_only(spec_multiply_accumulate(hw1, hw2, xpsr)),
{
}

proof fn lemma_long_multiply_divide_lsl(hw1: u32, hw2: u32, xpsr: XPSR)
    ensures
        lsl_offsets_only(spec_long_multiply_divide(hw1, hw2, xpsr)),
{
}

/// Register-offset transfers decode with a left shift.
pub proof fn lemma_decode_long_lsl(instr: u32, xpsr: XPSR)
    ensures
        lsl_offsets_only(spec_decode_long(instr, xpsr)),
{
    let hw1 = instr / 0x1_0000;
    let hw2 = instr % 0x1_0000;
    lemma_coprocessor_lsl(hw1, hw2, xpsr);
    lemma_data_processing_shifted_register_lsl(hw1, hw2, xpsr);
    lemma_load_store_multiple_lsl(hw1, hw2, xpsr);
    lemma_dual_exclusive_table_lsl(hw1, hw2, xpsr);
    lemma_branches_and_miscellaneous_control_lsl(hw1, hw2, xpsr);
    lemma_data_processing_modified_immediate_lsl(hw1, hw2, xpsr);
    lemma_data_processing_plain_immediate_lsl(hw1, hw2, xpsr);
    lemma_store_single_lsl(hw1, hw2, xpsr);
    lemma_load_byte_lsl(hw1, hw2, xpsr);
    lemma_load_halfword_lsl(hw1, hw2, xpsr);
    lemma_load_word_lsl(hw1, hw2, xpsr);
    lemma_data_processing_register_lsl(hw1, hw2, xpsr);
    lemma_multiply_accumulate_lsl(hw1, hw2, xpsr);
    lemma_long_multiply_divide_lsl(hw1, hw2, xpsr);
}

/// The 32-bit encoding `11110 i 1 op Rn | 0 imm3 Rd imm8` of a data-processing instruction
/// with a plain binary immediate.
pub open spec fn plain_immediate_encoding(i: u32, op: u32, rn: u32, imm3: u32, rd: u32, imm8: u32) -> u32 {
    ((0xf200 + i * 1024 + op * 16 + rn) * 0x1_0000 + imm3 * 4096 + rd * 256 + imm8) as u32
}

proof fn lemma_plain_immediate_fields(i: u32, op: u32, rn: u32, imm3: u32, rd: u32, imm8: u32)
    by (bit_vector)
    requires
        i < 2,
        op < 32,
        rn < 16,
        imm3 < 8,
        rd < 16,
        imm8 < 256,
    ensures
        ({
            let instr = ((0xf200 + i * 1024 + op * 16 + rn) * 0x1_0000 + imm3 * 4096 + rd * 256
                + imm8) as u32;
            let hw1 = instr / 0x1_0000;
            let hw2 = instr % 0x1_0000;
            &&& (hw1 / 2048) % 4 == 2
            &&& hw2 / 32768 == 0
            &&& (((hw1 / 16) % 128) / 32) % 2 == 1
            &&& (hw1 / 1024) % 2 == i
            &&& (hw1 / 16) % 32 == op
            &&& hw1 % 16 == rn
            &&& (hw2 / 4096) % 8 == imm3
            &&& (hw2 / 256) % 16 == rd
            &&& hw2 % 256 == imm8
        }),
{
}

/// `ADDW` and `SUBW` (`op` 00000 and 01010 of the plain-immediate group): the 12-bit
/// immediate `i:imm3:imm8` is added to or subtracted from `Rn`, without setting flags;
/// with `Rn` = SP they are the SP forms, and with `Rn` = PC they form a PC-relative address
/// (`ADR`).
pub proof fn lemma_addw_subw_decode(
    i: u32,
    subtract: bool,
    rn: u32,
    imm3: u32,
    rd: u32,
    imm8: u32,
    xpsr: XPSR,
)
    requires
        i < 2,
        rn < 16,
        imm3 < 8,
        rd < 16,
        rd != 13,
        rd != 15,
        imm8 < 256,
    ensures
        ({
            let op: u32 = if subtract { 10 } else { 0 };
            let imm32 = (i * 2048 + imm3 * 256 + imm8) as u32;
            let d = RegisterID::numbered(rd);
            let n = RegisterID::numbered(rn);
            spec_decode_long(plain_immediate_encoding(i, op, rn, imm3, rd, imm8), xpsr) == if rn
                == 15 {
                Instruction::AddressToRegister { rd: d, imm32, add: !subtract }
            } else if rn == 13 && !subtract {
                Instruction::Add_SPPlusImmediate { rd: d, imm32, setflags: false }
            } else if rn == 13 {
                Instruction::Subtract_SPMinusImmediate { rd: d, imm32, setflags: false }
            } else if !subtract {
                Instruction::Add_Immediate {
                    rd: d,
                    rn: n,
                    imm32,
                    setflags: false,
                    setflags_depends_on_it: false,
                }
            } else {
                Instruction::Subtract_Immediate {
                    rd: d,
                    rn: n,
                    imm32,
                    setflags: false,
                    setflags_depends_on_it: false,
                }
            }
        }),
{
    let op: u32 = if subtract { 10 } else { 0 };
    lemma_plain_immediate_fields(i, op, rn, imm3, rd, imm8);
}

proof fn lemma_word_halves(hw1: u32, hw2: u32)
    by (bit_vector)
    requires
        hw1 < 0x1_0000,
        hw2 < 0x1_0000,
    ensures
        ((hw1 * 0x1_0000 + hw2) as u32) / 0x1_0000 == hw1,
        ((hw1 * 0x1_0000 + hw2) as u32) % 0x1_0000 == hw2,
{
}

proof fn lemma_modified_immediate_fields(i: u32, op: u32, s: u32, rn: u32, imm3: u32, rd: u32, imm8: u32)
    by (bit_vector)
    requires
        i < 2,
        op < 16,
        s < 2,
        rn < 16,
        imm3 < 8,
        rd < 16,
        imm8 < 256,
    ensures
        ({
            let hw1 = 0xf000 + i * 1024 + op * 32 + s * 16 + rn;
            let hw2 = imm3 * 4096 + rd * 256 + imm8;
            &&& hw1 < 0x1_0000
            &&& hw2 < 0x8000
            &&& (hw1 / 2048) % 4 == 2
            &&& (((hw1 / 16) % 128) / 32) % 2 == 0
            &&& (hw1 / 1024) % 2 == i
            &&& (hw1 / 32) % 16 == op
            &&& (hw1 / 16) % 2 == s
            &&& hw1 % 16 == rn
            &&& hw2 / 32768 == 0
            &&& (hw2 / 4096) % 8 == imm3
            &&& (hw2 / 256) % 16 == rd
            &&& hw2 % 256 == imm8
        }),
{
}

/// The 32-bit encoding `11110 i 0 op S Rn | 0 imm3 Rd imm8` of a data-processing
/// instruction with a modified immediate.
pub open spec fn modified_immediate_encoding(i: u32, op: u32, s: u32, rn: u32, imm3: u32, rd: u32, imm8: u32) -> u32 {
    ((0xf000 + i * 1024 + op * 32 + s * 16 + rn) * 0x1_0000 + imm3 * 4096 + rd * 256 + imm8) as u32
}

/// With a modified immediate below 256 (`i:imm3` zero), the data-processing instructions
/// of op `AND` (0), `BIC` (1), `ORR` (2), `ORN` (3), `EOR` (4), `ADD` (8), `ADC` (10),
/// `SBC` (11), `SUB` (13) and `RSB` (14) decode with `Rd`, `Rn`, the immediate `imm8`, the
/// flags set when `S` is, and (logical ones) the carry flag as the shifter carry.
pub proof fn lemma_modified_immediate_decode(op: u32, s: u32, rn: u32, rd: u32, imm8: u32, xpsr: XPSR)
    requires
        op < 16,
        s < 2,
        rn < 16,
        rn != 13,
        rn != 15,
        rd < 16,
        rd != 13,
        rd != 15,
        imm8 < 256,
    ensures
        ({
            let d = RegisterID::numbered(rd);
            let n = RegisterID::numbered(rn);
            let setflags = s == 1;
            let carry = xpsr.carry;
            let decoded = spec_decode_long(modified_immediate_encoding(0, op, s, rn, 0, rd, imm8), xpsr);
            &&& op == 0 ==> decoded == (Instruction::And_Immediate { rd: d, rn: n, imm32: imm8, setflags, carry })
            &&& op == 1 ==> decoded == (Instruction::BitClear_Immediate { rd: d, rn: n, imm32: imm8, setflags, carry })
            &&& op == 2 ==> decoded == (Instruction::LogicalOr_Immediate { rd: d, rn: n, imm32: imm8, setflags, carry })
            &&& op == 3 ==> decoded == (Instruction::LogicalOrNot_Immediate { rd: d, rn: n, imm32: imm8, setflags, carry })
            &&& op == 4 ==> decoded == (Instruction::ExclusiveOr_Immediate { rd: d, rn: n, imm32: imm8, setflags, carry })
            &&& op == 8 ==> decoded == (Instruction::Add_Immediate { rd: d, rn: n, imm32: imm8, setflags, setflags_depends_on_it: false })
            &&& op == 10 ==> decoded == (Instruction::AddWithCarry_Immediate { rd: d, rn: n, imm32: imm8, setflags })
            &&& op == 11 ==> decoded == (Instruction::SubtractWithCarry_Immediate { rd: d, rn: n, imm32: imm8, setflags })
            &&& op == 13 ==> decoded == (Instruction::Subtract_Immediate { rd: d, rn: n, imm32: imm8, setflags, setflags_depends_on_it: false })
            &&& op == 14 ==> decoded == (Instruction::ReverseSubtract_Immediate { rd: d, rn: n, imm32: imm8, setflags, setflags_depends_on_it: false })
        }),
{
    lemma_modified_immediate_fields(0, op, s, rn, 0, rd, imm8);
    let hw1 = 0xf000 + op * 32 + s * 16 + rn;
    let hw2 = rd * 256 + imm8;
    lemma_word_halves(hw1 as u32, hw2 as u32);
    let instr = modified_immediate_encoding(0, op, s, rn, 0, rd, imm8);
    assert(instr == ((hw1 * 0x1_0000 + hw2) as u32));
    assert(spec_decode_long(instr, xpsr) == spec_data_processing_modified_immediate(hw1 as u32, hw2 as u32, xpsr));
    assert(spec_thumb_expand_imm_c(imm8, xpsr.carry) == Ok::<(Word, bool), Instruction>((imm8, xpsr.carry)));
}

/// `MOVW Rd, #imm16` and `MOVT Rd, #imm16` (ops 00100 and 01100 of the plain-immediate
/// group) take the 16-bit immediate `imm4:i:imm3:imm8`, with `imm4` in the `Rn` field:
/// `MOVW` writes it zero-extended without setting flags, `MOVT` into the top halfword.
pub proof fn lemma_movw_movt_decode(i: u32, imm4: u32, imm3: u32, rd: u32, imm8: u32, xpsr: XPSR)
    requires
        i < 2,
        imm4 < 16,
        imm3 < 8,
        rd < 16,
        rd != 13,
        rd != 15,
        imm8 < 256,
    ensures
        ({
            let imm16 = imm4 * 4096 + i * 2048 + imm3 * 256 + imm8;
            &&& spec_decode_long(plain_immediate_encoding(i, 4, imm4, imm3, rd, imm8), xpsr) == (Instruction::Move_Immediate {
                rd: RegisterID::numbered(rd),
                imm32: imm16 as u32,
                setflags: false,
                setflags_depends_on_it: false,
                carry: xpsr.carry,
            })
            &&& spec_decode_long(plain_immediate_encoding(i, 12, imm4, imm3, rd, imm8), xpsr) == (Instruction::MoveTop {
                rd: RegisterID::numbered(rd),
                imm16: imm16 as u16,
            })
        }),
{
    lemma_plain_immediate_fields(i, 4, imm4, imm3, rd, imm8);
    lemma_plain_immediate_fields(i, 12, imm4, imm3, rd, imm8);
}

proof fn lemma_load_word_fields(u: u32, rn: u32, rt: u32, imm2: u32, rm: u32, imm12: u32)
    by (bit_vector)
    requires
        u < 2,
        rn < 16,
        rt < 16,
        imm2 < 4,
        rm < 16,
        imm12 < 4096,
    ensures
        ({
            let hw1 = 0xf850 + u * 128 + rn;
            let hw2r = rt * 4096 + imm2 * 16 + rm;
            let hw2i = rt * 4096 + imm12;
            &&& hw1 < 0x1_0000
            &&& hw2r < 0x1_0000
            &&& hw2i < 0x1_0000
            &&& (hw1 / 2048) % 4 == 3
            &&& (hw1 / 16) % 128 == 5 + 8 * u
            &&& (hw1 / 128) % 4 == u
            &&& hw1 % 16 == rn
            &&& (hw2r / 4096) % 16 == rt
            &&& (hw2r / 64) % 64 == 0
            &&& (hw2r / 16) % 4 == imm2
            &&& hw2r % 16 == rm
            &&& (hw2i / 4096) % 16 == rt
            &&& hw2i % 4096 == imm12
        }),
{
}

/// `LDR Rt, [Rn, Rm, LSL #imm2]` (`11111 00 0 0 10 1 Rn | Rt 000000 imm2 Rm`), `LDR Rt,
/// [Rn, #imm12]` (`11111 00 0 1 10 1 Rn | Rt imm12`) and `LDR Rt, [PC, #±imm12]` (`Rn` = PC,
/// `U` giving the sign): offset addressing with the register shifted left by `imm2`, or
/// with the 12-bit immediate.
pub proof fn lemma_load_word_decode(rn: u32, rt: u32, imm2: u32, rm: u32, imm12: u32, xpsr: XPSR)
    requires
        rn < 16,
        rt < 15,
        imm2 < 4,
        rm < 16,
        rm != 13,
        rm != 15,
        imm12 < 4096,
    ensures
        ({
            let t = RegisterID::numbered(rt);
            let n = RegisterID::numbered(rn);
            let register_form = ((0xf850 + rn) * 0x1_0000 + rt * 4096 + imm2 * 16 + rm) as u32;
            let immediate_form = ((0xf8d0 + rn) * 0x1_0000 + rt * 4096 + imm12) as u32;
            let literal_down = ((0xf85f) * 0x1_0000 + rt * 4096 + imm12) as u32;
            &&& rn != 15 ==> spec_decode_long(register_form, xpsr) == (Instruction::LoadRegister_Register {
                rt: t,
                rn: n,
                rm: RegisterID::numbered(rm),
                shift: Shift { srtype: SRType::LSL, amount: imm2 as u8 },
                index: true,
                add: true,
                wback: false,
            })
            &&& rn != 15 ==> spec_decode_long(immediate_form, xpsr) == (Instruction::LoadRegister_Immediate {
                rt: t,
                rn: n,
                imm32: imm12,
                index: true,
                add: true,
                wback: false,
            })
            &&& rn == 15 ==> spec_decode_long(immediate_form, xpsr) == (Instruction::LoadRegister_Literal {
                rt: t,
                imm32: imm12,
                add: true,
            })
            &&& spec_decode_long(literal_down, xpsr) == (Instruction::LoadRegister_Literal {
                rt: t,
                imm32: imm12,
                add: false,
            })
        }),
{
    lemma_load_word_fields(0, rn, rt, imm2, rm, imm12);
    lemma_load_word_fields(1, rn, rt, imm2, rm, imm12);
    lemma_load_word_fields(0, 15, rt, imm2, rm, imm12);
    let hw2r = rt * 4096 + imm2 * 16 + rm;
    let hw2i = rt * 4096 + imm12;
    lemma_word_halves((0xf850 + rn) as u32, hw2r as u32);
    lemma_word_halves((0xf8d0 + rn) as u32, hw2i as u32);
    lemma_word_halves(0xf85f, hw2i as u32);
    assert(spec_decode_long(((0xf850 + rn) * 0x1_0000 + hw2r) as u32, xpsr)
        == spec_load_word((0xf850 + rn) as u32, hw2r as u32, xpsr));
    assert(spec_decode_long(((0xf8d0 + rn) * 0x1_0000 + hw2i) as u32, xpsr)
        == spec_load_word((0xf8d0 + rn) as u32, hw2i as u32, xpsr));
    assert(spec_decode_long((0xf85f * 0x1_0000 + hw2i) as u32, xpsr)
        == spec_load_word(0xf85f, hw2i as u32, xpsr));
}

proof fn lemma_long_branch_fields(s: u32, imm10: u32, link: u32, j1: u32, j2: u32, imm11: u32)
    by (bit_vector)
    requires
        s < 2,
        imm10 < 1024,
        link < 2,
        j1 < 2,
        j2 < 2,
        imm11 < 2048,
    ensures
        ({
            let hw1 = 0xf000 + s * 1024 + imm10;
            let hw2 = 0x9000 + link * 0x4000 + j1 * 0x2000 + j2 * 0x800 + imm11;
            &&& hw1 < 0x1_0000
            &&& hw2 < 0x1_0000
            &&& (hw1 / 2048) % 4 == 2
            &&& hw2 / 32768 == 1
            &&& (hw2 / 4096) % 8 == link * 4 + j1 * 2 + 1
            &&& (hw1 / 1024) % 2 == s
            &&& (hw2 / 8192) % 2 == j1
            &&& (hw2 / 2048) % 2 == j2
            &&& hw2 % 2048 == imm11
            &&& hw1 % 1024 == imm10
        }),
{
}

/// `B.W label` (`11110 S imm10 | 10 J1 1 J2 imm11`) and `BL label` (`11110 S imm10 | 11 J1 1
/// J2 imm11`), outside an IT block or last in it: the offset is
/// `-S*2^24 + I1*2^23 + I2*2^22 + imm10*2^12 + imm11*2` with `I1 = NOT(J1 XOR S)` and
/// `I2 = NOT(J2 XOR S)`, given as a word (modulo 2^32).
pub proof fn lemma_long_branch_decode(s: u32, imm10: u32, j1: u32, j2: u32, imm11: u32, xpsr: XPSR)
    requires
        s < 2,
        imm10 < 1024,
        j1 < 2,
        j2 < 2,
        imm11 < 2048,
        !(xpsr.in_it() && !xpsr.last_in_it()),
    ensures
        ({
            let i1: int = if j1 == s { 1 } else { 0 };
            let i2: int = if j2 == s { 1 } else { 0 };
            let offset: int = -(s as int) * 0x100_0000 + i1 * 0x80_0000 + i2 * 0x40_0000 + imm10 * 0x1000 + imm11 * 2;
            let imm32 = (offset % 0x1_0000_0000) as u32;
            let hw1 = 0xf000 + s * 1024 + imm10;
            &&& spec_decode_long((hw1 * 0x1_0000 + 0x9000 + j1 * 0x2000 + j2 * 0x800 + imm11) as u32, xpsr)
                == (Instruction::Branch { cond: Condition(14), imm32 })
            &&& spec_decode_long((hw1 * 0x1_0000 + 0xd000 + j1 * 0x2000 + j2 * 0x800 + imm11) as u32, xpsr)
                == (Instruction::BranchWithLink_Immediate { imm32 })
        }),
{
    let hw1 = 0xf000 + s * 1024 + imm10;
    lemma_long_branch_fields(s, imm10, 0, j1, j2, imm11);
    lemma_long_branch_fields(s, imm10, 1, j1, j2, imm11);
    let b2 = 0x9000 + j1 * 0x2000 + j2 * 0x800 + imm11;
    let l2 = 0xd000 + j1 * 0x2000 + j2 * 0x800 + imm11;
    lemma_word_halves(hw1 as u32, b2 as u32);
    lemma_word_halves(hw1 as u32, l2 as u32);
    assert(spec_decode_long((hw1 * 0x1_0000 + b2) as u32, xpsr)
        == spec_branches_and_miscellaneous_control(hw1 as u32, b2 as u32, xpsr));
    assert(spec_decode_long((hw1 * 0x1_0000 + l2) as u32, xpsr)
        == spec_branches_and_miscellaneous_control(hw1 as u32, l2 as u32, xpsr));
    let i1: int = if j1 == s { 1 } else { 0 };
    let i2: int = if j2 == s { 1 } else { 0 };
    let v: int = s * 0x100_0000 + i1 * 0x80_0000 + i2 * 0x40_0000 + imm10 * 0x1000 + imm11 * 2;
    let m: int = 0x1_0000_0000;
    if s == 1 {
        vstd::arithmetic::div_mod::lemma_mod_add_multiples_vanish(v - 0x200_0000, m);
        vstd::arithmetic::div_mod::lemma_small_mod((v - 0x200_0000 + m) as nat, m as nat);
    } else {
        vstd::arithmetic::div_mod::lemma_small_mod(v as nat, m as nat);
    }
}

} // verus!
