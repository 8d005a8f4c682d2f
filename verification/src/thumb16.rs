//! Decoding of 16-bit Thumb instructions.
//!
//! Fields are read arithmetically: `(x / 2^k) % 2^n` is the `n`-bit field at bit `k`.
//! Encoding bits that must read `(0)` and do not make the instruction unpredictable.
use vstd::prelude::*;

use crate::agu::lsl_offsets_only;
use crate::common::Word;
use crate::decode::starts_long;
use crate::instruction::Instruction;
use crate::registers::{Condition, RegisterBitmap, RegisterID, SRType, Shift, XPSR};

verus! {

/// The register numbered `i`.
pub open spec fn reg(i: u32) -> RegisterID {
    RegisterID::numbered(i)
}

/// `SignExtend` of a value of `width` bits to 32 bits.
pub open spec fn sign_extend(v: int, width: nat) -> Word {
    let top = vstd::arithmetic::power2::pow2((width - 1) as nat);
    if v >= top {
        (v + 0x1_0000_0000 - 2 * top) as Word
    } else {
        v as Word
    }
}

/// The register shift of the 16-bit forms: none.
pub open spec fn no_shift() -> Shift {
    Shift { srtype: SRType::LSL, amount: 0 }
}

/// Shift (immediate), add, subtract, move and compare (`00xx xx...`).
pub open spec fn spec_shift_add_subtract_move_compare(x: u32, xpsr: XPSR) -> Instruction {
    let op = (x / 512) % 32;
    let imm5 = (x / 64) % 32;
    let lo3 = x % 8;
    let mid3 = (x / 8) % 8;
    let hi3 = (x / 64) % 8;
    let rdn8 = (x / 256) % 8;
    let imm8 = x % 256;
    let setflags = !xpsr.in_it();
    if op < 4 {
        if imm5 == 0 {
            if xpsr.in_it() {
                Instruction::Unpredictable
            } else {
                Instruction::Move_Register { rd: reg(lo3), rm: reg(mid3), setflags: true }
            }
        } else {
            Instruction::LogicalShiftLeft_Immediate {
                rd: reg(lo3),
                rm: reg(mid3),
                shift: Shift::spec_decode_imm_shift(0, imm5 as u8),
                setflags,
                setflags_depends_on_it: true,
            }
        }
    } else if op < 8 {
        Instruction::LogicalShiftRight_Immediate {
            rd: reg(lo3),
            rm: reg(mid3),
            shift: Shift::spec_decode_imm_shift(1, imm5 as u8),
            setflags,
            setflags_depends_on_it: true,
        }
    } else if op < 12 {
        Instruction::ArithmeticShiftRight_Immediate {
            rd: reg(lo3),
            rm: reg(mid3),
            shift: Shift::spec_decode_imm_shift(2, imm5 as u8),
            setflags,
            setflags_depends_on_it: true,
        }
    } else if op == 12 {
        Instruction::Add_Register {
            rd: reg(lo3),
            rn: reg(mid3),
            rm: reg(hi3),
            shift: no_shift(),
            setflags,
            setflags_depends_on_it: true,
        }
    } else if op == 13 {
        Instruction::Subtract_Register {
            rd: reg(lo3),
            rn: reg(mid3),
            rm: reg(hi3),
            shift: no_shift(),
            setflags,
            setflags_depends_on_it: true,
        }
    } else if op == 14 {
        Instruction::Add_Immediate {
            rd: reg(lo3),
            rn: reg(mid3),
            imm32: hi3,
            setflags,
            setflags_depends_on_it: true,
        }
    } else if op == 15 {
        Instruction::Subtract_Immediate {
            rd: reg(lo3),
            rn: reg(mid3),
            imm32: hi3,
            setflags,
            setflags_depends_on_it: true,
        }
    } else if op < 20 {
        Instruction::Move_Immediate {
            rd: reg(rdn8),
            imm32: imm8,
            setflags,
            setflags_depends_on_it: true,
            carry: xpsr.carry,
        }
    } else if op < 24 {
        Instruction::Compare_Immediate { rn: reg(rdn8), imm32: imm8 }
    } else if op < 28 {
        Instruction::Add_Immediate {
            rd: reg(rdn8),
            rn: reg(rdn8),
            imm32: imm8,
            setflags,
            setflags_depends_on_it: true,
        }
    } else {
        Instruction::Subtract_Immediate {
            rd: reg(rdn8),
            rn: reg(rdn8),
            imm32: imm8,
            setflags,
            setflags_depends_on_it: true,
        }
    }
}

fn shift_add_subtract_move_compare(x: u32, xpsr: XPSR) -> (r: Instruction)
    requires
        x < 0x4000,
    ensures
        r == spec_shift_add_subtract_move_compare(x, xpsr),
{
    let op = (x / 512) % 32;
    let imm5 = (x / 64) % 32;
    let lo3 = RegisterID::from_index(x % 8);
    let mid3 = RegisterID::from_index((x / 8) % 8);
    let hi3 = (x / 64) % 8;
    let rdn8 = RegisterID::from_index((x / 256) % 8);
    let imm8 = x % 256;
    let setflags = !xpsr.in_it_block();
    if op < 4 {
        if imm5 == 0 {
            if xpsr.in_it_block() {
                Instruction::Unpredictable
            } else {
                Instruction::Move_Register { rd: lo3, rm: mid3, setflags: true }
            }
        } else {
            Instruction::LogicalShiftLeft_Immediate {
                rd: lo3,
                rm: mid3,
                shift: Shift::decode_imm_shift(0, imm5 as u8),
                setflags,
                setflags_depends_on_it: true,
            }
        }
    } else if op < 8 {
        Instruction::LogicalShiftRight_Immediate {
            rd: lo3,
            rm: mid3,
            shift: Shift::decode_imm_shift(1, imm5 as u8),
            setflags,
            setflags_depends_on_it: true,
        }
    } else if op < 12 {
        Instruction::ArithmeticShiftRight_Immediate {
            rd: lo3,
            rm: mid3,
            shift: Shift::decode_imm_shift(2, imm5 as u8),
            setflags,
            setflags_depends_on_it: true,
        }
    } else if op == 12 {
        Instruction::Add_Register {
            rd: lo3,
            rn: mid3,
            rm: RegisterID::from_index(hi3),
            shift: Shift::LSL(0),
            setflags,
            setflags_depends_on_it: true,
        }
    } else if op == 13 {
        Instruction::Subtract_Register {
            rd: lo3,
            rn: mid3,
            rm: RegisterID::from_index(hi3),
            shift: Shift::LSL(0),
            setflags,
            setflags_depends_on_it: true,
        }
    } else if op == 14 {
        Instruction::Add_Immediate { rd: lo3, rn: mid3, imm32: hi3, setflags, setflags_depends_on_it: true }
    } else if op == 15 {
        Instruction::Subtract_Immediate {
            rd: lo3,
            rn: mid3,
            imm32: hi3,
            setflags,
            setflags_depends_on_it: true,
        }
    } else if op < 20 {
        Instruction::Move_Immediate {
            rd: rdn8,
            imm32: imm8,
            setflags,
            setflags_depends_on_it: true,
            carry: xpsr.carry_flag(),
        }
    } else if op < 24 {
        Instruction::Compare_Immediate { rn: rdn8, imm32: imm8 }
    } else if op < 28 {
        Instruction::Add_Immediate {
            rd: rdn8,
            rn: rdn8,
            imm32: imm8,
            setflags,
            setflags_depends_on_it: true,
        }
    } else {
        Instruction::Subtract_Immediate {
            rd: rdn8,
            rn: rdn8,
            imm32: imm8,
            setflags,
            setflags_depends_on_it: true,
        }
    }
}

/// Data processing on low registers (`010000 op Rm Rdn`).
pub open spec fn spec_data_processing(x: u32, xpsr: XPSR) -> Instruction {
    let op = (x / 64) % 16;
    let rdn = reg(x % 8);
    let rm = reg((x / 8) % 8);
    let setflags = !xpsr.in_it();
    if op == 0 {
        Instruction::And_Register { rd: rdn, rn: rdn, rm, shift: no_shift(), setflags, setflags_depends_on_it: true }
    } else if op == 1 {
        Instruction::ExclusiveOr_Register { rd: rdn, rn: rdn, rm, shift: no_shift(), setflags, setflags_depends_on_it: true }
    } else if op == 2 {
        Instruction::LogicalShiftLeft_Register { rd: rdn, rn: rdn, rm, setflags, setflags_depends_on_it: true }
    } else if op == 3 {
        Instruction::LogicalShiftRight_Register { rd: rdn, rn: rdn, rm, setflags, setflags_depends_on_it: true }
    } else if op == 4 {
        Instruction::ArithmeticShiftRight_Register { rd: rdn, rn: rdn, rm, setflags, setflags_depends_on_it: true }
    } else if op == 5 {
        Instruction::AddWithCarry_Register { rd: rdn, rn: rdn, rm, shift: no_shift(), setflags, setflags_depends_on_it: true }
    } else if op == 6 {
        Instruction::SubtractWithCarry_Register { rd: rdn, rn: rdn, rm, shift: no_shift(), setflags, setflags_depends_on_it: true }
    } else if op == 7 {
        Instruction::RotateRight_Register { rd: rdn, rn: rdn, rm, setflags, setflags_depends_on_it: true }
    } else if op == 8 {
        Instruction::Test_Register { rn: rdn, rm, shift: no_shift() }
    } else if op == 9 {
        Instruction::ReverseSubtract_Immediate { rd: rdn, rn: rm, imm32: 0, setflags, setflags_depends_on_it: true }
    } else if op == 10 {
        Instruction::Compare_Register { rn: rdn, rm, shift: no_shift() }
    } else if op == 11 {
        Instruction::CompareNegative_Register { rn: rdn, rm, shift: no_shift() }
    } else if op == 12 {
        Instruction::LogicalOr_Register { rd: rdn, rn: rdn, rm, shift: no_shift(), setflags, setflags_depends_on_it: true }
    } else if op == 13 {
        Instruction::Multiply { rd: rdn, rn: rm, rm: rdn, setflags, setflags_depends_on_it: true }
    } else if op == 14 {
        Instruction::BitClear_Register { rd: rdn, rn: rdn, rm, shift: no_shift(), setflags, setflags_depends_on_it: true }
    } else {
        Instruction::BitwiseNot_Register { rd: rdn, rm, shift: no_shift(), setflags, setflags_depends_on_it: true }
    }
}

fn data_processing(x: u32, xpsr: XPSR) -> (r: Instruction)
    ensures
        r == spec_data_processing(x, xpsr),
{
    let op = (x / 64) % 16;
    let rdn = RegisterID::from_index(x % 8);
    let rm = RegisterID::from_index((x / 8) % 8);
    let setflags = !xpsr.in_it_block();
    let shift = Shift::LSL(0);
    match op {
        0 => Instruction::And_Register { rd: rdn, rn: rdn, rm, shift, setflags, setflags_depends_on_it: true },
        1 => Instruction::ExclusiveOr_Register { rd: rdn, rn: rdn, rm, shift, setflags, setflags_depends_on_it: true },
        2 => Instruction::LogicalShiftLeft_Register { rd: rdn, rn: rdn, rm, setflags, setflags_depends_on_it: true },
        3 => Instruction::LogicalShiftRight_Register { rd: rdn, rn: rdn, rm, setflags, setflags_depends_on_it: true },
        4 => Instruction::ArithmeticShiftRight_Register { rd: rdn, rn: rdn, rm, setflags, setflags_depends_on_it: true },
        5 => Instruction::AddWithCarry_Register { rd: rdn, rn: rdn, rm, shift, setflags, setflags_depends_on_it: true },
        6 => Instruction::SubtractWithCarry_Register { rd: rdn, rn: rdn, rm, shift, setflags, setflags_depends_on_it: true },
        7 => Instruction::RotateRight_Register { rd: rdn, rn: rdn, rm, setflags, setflags_depends_on_it: true },
        8 => Instruction::Test_Register { rn: rdn, rm, shift },
        9 => Instruction::ReverseSubtract_Immediate { rd: rdn, rn: rm, imm32: 0, setflags, setflags_depends_on_it: true },
        10 => Instruction::Compare_Register { rn: rdn, rm, shift },
        11 => Instruction::CompareNegative_Register { rn: rdn, rm, shift },
        12 => Instruction::LogicalOr_Register { rd: rdn, rn: rdn, rm, shift, setflags, setflags_depends_on_it: true },
        13 => Instruction::Multiply { rd: rdn, rn: rm, rm: rdn, setflags, setflags_depends_on_it: true },
        14 => Instruction::BitClear_Register { rd: rdn, rn: rdn, rm, shift, setflags, setflags_depends_on_it: true },
        _ => Instruction::BitwiseNot_Register { rd: rdn, rm, shift, setflags, setflags_depends_on_it: true },
    }
}

/// Whether an instruction that may branch sits inside an IT block but not last in it.
pub open spec fn inside_it_not_last(xpsr: XPSR) -> bool {
    xpsr.in_it() && !xpsr.last_in_it()
}

/// Special data instructions and branch and exchange (`010001 op ...`).
pub open spec fn spec_special_data_branch(x: u32, xpsr: XPSR) -> Instruction {
    let op = (x / 64) % 16;
    let high = (x / 128) % 2;
    let rm = (x / 8) % 16;
    let low = x % 8;
    let full = (high * 8 + low) as u32;
    if op < 4 {
        if full == 13 || rm == 13 {
            if rm == 13 {
                if full == 15 && inside_it_not_last(xpsr) {
                    Instruction::Unpredictable
                } else {
                    Instruction::Add_SPPlusRegister { rd: reg(full), rm: reg(full), shift: no_shift(), setflags: false }
                }
            } else {
                Instruction::Add_SPPlusRegister { rd: reg(13), rm: reg(rm), shift: no_shift(), setflags: false }
            }
        } else if (full == 15 && inside_it_not_last(xpsr)) || (full == 15 && rm == 15) {
            Instruction::Unpredictable
        } else {
            Instruction::Add_Register {
                rd: reg(full),
                rn: reg(full),
                rm: reg(rm),
                shift: no_shift(),
                setflags: false,
                setflags_depends_on_it: false,
            }
        }
    } else if op == 4 {
        Instruction::Unpredictable
    } else if op < 8 {
        if (full < 8 && rm < 8) || full == 15 || rm == 15 {
            Instruction::Unpredictable
        } else {
            Instruction::Compare_Register { rn: reg(full), rm: reg(rm), shift: no_shift() }
        }
    } else if op < 12 {
        if full == 15 && inside_it_not_last(xpsr) {
            Instruction::Unpredictable
        } else {
            Instruction::Move_Register { rd: reg(full), rm: reg(rm), setflags: false }
        }
    } else if low != 0 {
        Instruction::Unpredictable
    } else if op < 14 {
        if inside_it_not_last(xpsr) {
            Instruction::Unpredictable
        } else {
            Instruction::BranchAndExchange { rm: reg(rm) }
        }
    } else if rm == 15 || inside_it_not_last(xpsr) {
        Instruction::Unpredictable
    } else {
        Instruction::BranchWithLinkAndExchange_Register { rm: reg(rm) }
    }
}

fn special_data_branch(x: u32, xpsr: XPSR) -> (r: Instruction)
    ensures
        r == spec_special_data_branch(x, xpsr),
{
    let op = (x / 64) % 16;
    let high = (x / 128) % 2;
    let rm = (x / 8) % 16;
    let low = x % 8;
    let full = high * 8 + low;
    let not_last = xpsr.in_it_block() && !xpsr.last_in_it_block();
    if op < 4 {
        if full == 13 || rm == 13 {
            if rm == 13 {
                if full == 15 && not_last {
                    Instruction::Unpredictable
                } else {
                    Instruction::Add_SPPlusRegister {
                        rd: RegisterID::from_index(full),
                        rm: RegisterID::from_index(full),
                        shift: Shift::LSL(0),
                        setflags: false,
                    }
                }
            } else {
                Instruction::Add_SPPlusRegister {
                    rd: RegisterID::from_index(13),
                    rm: RegisterID::from_index(rm),
                    shift: Shift::LSL(0),
                    setflags: false,
                }
            }
        } else if (full == 15 && not_last) || (full == 15 && rm == 15) {
            Instruction::Unpredictable
        } else {
            Instruction::Add_Register {
                rd: RegisterID::from_index(full),
                rn: RegisterID::from_index(full),
                rm: RegisterID::from_index(rm),
                shift: Shift::LSL(0),
                setflags: false,
                setflags_depends_on_it: false,
            }
        }
    } else if op == 4 {
        Instruction::Unpredictable
    } else if op < 8 {
        if (full < 8 && rm < 8) || full == 15 || rm == 15 {
            Instruction::Unpredictable
        } else {
            Instruction::Compare_Register {
                rn: RegisterID::from_index(full),
                rm: RegisterID::from_index(rm),
                shift: Shift::LSL(0),
            }
        }
    } else if op < 12 {
        if full == 15 && not_last {
            Instruction::Unpredictable
        } else {
            Instruction::Move_Register {
                rd: RegisterID::from_index(full),
                rm: RegisterID::from_index(rm),
                setflags: false,
            }
        }
    } else if low != 0 {
        // The (0)(0)(0) bits of BX and BLX.
        Instruction::Unpredictable
    } else if op < 14 {
        if not_last {
            Instruction::Unpredictable
        } else {
            Instruction::BranchAndExchange { rm: RegisterID::from_index(rm) }
        }
    } else if rm == 15 || not_last {
        Instruction::Unpredictable
    } else {
        Instruction::BranchWithLinkAndExchange_Register { rm: RegisterID::from_index(rm) }
    }
}

/// Load/store of a single data item (`0101 ...` to `1001 ...`).
pub open spec fn spec_load_store_single(x: u32) -> Instruction {
    let op_a = (x / 4096) % 16;
    let op_b = (x / 512) % 8;
    let rt = reg(x % 8);
    let rn = reg((x / 8) % 8);
    let rm = reg((x / 64) % 8);
    let imm5 = (x / 64) % 32;
    let rt8 = reg((x / 256) % 8);
    let imm8 = x % 256;
    let load = op_b >= 4;
    if op_a == 5 {
        if op_b == 0 {
            Instruction::StoreRegister_Register { rt, rn, rm, shift: no_shift(), index: true, add: true, wback: false }
        } else if op_b == 1 {
            Instruction::StoreRegisterHalfword_Register { rt, rn, rm, shift: no_shift(), index: true, add: true, wback: false }
        } else if op_b == 2 {
            Instruction::StoreRegisterByte_Register { rt, rn, rm, shift: no_shift(), index: true, add: true, wback: false }
        } else if op_b == 3 {
            Instruction::LoadRegisterSignedByte_Register { rt, rn, rm, shift: no_shift(), index: true, add: true, wback: false }
        } else if op_b == 4 {
            Instruction::LoadRegister_Register { rt, rn, rm, shift: no_shift(), index: true, add: true, wback: false }
        } else if op_b == 5 {
            Instruction::LoadRegisterHalfword_Register { rt, rn, rm, shift: no_shift(), index: true, add: true, wback: false }
        } else if op_b == 6 {
            Instruction::LoadRegisterByte_Register { rt, rn, rm, shift: no_shift(), index: true, add: true, wback: false }
        } else {
            Instruction::LoadRegisterSignedHalfword_Register { rt, rn, rm, shift: no_shift(), index: true, add: true, wback: false }
        }
    } else if op_a == 6 {
        if load {
            Instruction::LoadRegister_Immediate { rt, rn, imm32: (imm5 * 4) as u32, index: true, add: true, wback: false }
        } else {
            Instruction::StoreRegister_Immediate { rt, rn, imm32: (imm5 * 4) as u32, index: true, add: true, wback: false }
        }
    } else if op_a == 7 {
        if load {
            Instruction::LoadRegisterByte_Immediate { rt, rn, imm32: imm5, index: true, add: true, wback: false }
        } else {
            Instruction::StoreRegisterByte_Immediate { rt, rn, imm32: imm5, index: true, add: true, wback: false }
        }
    } else if op_a == 8 {
        if load {
            Instruction::LoadRegisterHalfword_Immediate { rt, rn, imm32: (imm5 * 2) as u32, index: true, add: true, wback: false }
        } else {
            Instruction::StoreRegisterHalfword_Immediate { rt, rn, imm32: (imm5 * 2) as u32, index: true, add: true, wback: false }
        }
    } else if load {
        Instruction::LoadRegister_Immediate { rt: rt8, rn: RegisterID::SP, imm32: (imm8 * 4) as u32, index: true, add: true, wback: false }
    } else {
        Instruction::StoreRegister_Immediate { rt: rt8, rn: RegisterID::SP, imm32: (imm8 * 4) as u32, index: true, add: true, wback: false }
    }
}

fn load_store_single(x: u32) -> (r: Instruction)
    requires
        x < 0x10000,
    ensures
        r == spec_load_store_single(x),
{
    let op_a = (x / 4096) % 16;
    let op_b = (x / 512) % 8;
    let rt = RegisterID::from_index(x % 8);
    let rn = RegisterID::from_index((x / 8) % 8);
    let rm = RegisterID::from_index((x / 64) % 8);
    let imm5 = (x / 64) % 32;
    let rt8 = RegisterID::from_index((x / 256) % 8);
    let imm8 = x % 256;
    let load = op_b >= 4;
    let shift = Shift::LSL(0);
    if op_a == 5 {
        match op_b {
            0 => Instruction::StoreRegister_Register { rt, rn, rm, shift, index: true, add: true, wback: false },
            1 => Instruction::StoreRegisterHalfword_Register { rt, rn, rm, shift, index: true, add: true, wback: false },
            2 => Instruction::StoreRegisterByte_Register { rt, rn, rm, shift, index: true, add: true, wback: false },
            3 => Instruction::LoadRegisterSignedByte_Register { rt, rn, rm, shift, index: true, add: true, wback: false },
            4 => Instruction::LoadRegister_Register { rt, rn, rm, shift, index: true, add: true, wback: false },
            5 => Instruction::LoadRegisterHalfword_Register { rt, rn, rm, shift, index: true, add: true, wback: false },
            6 => Instruction::LoadRegisterByte_Register { rt, rn, rm, shift, index: true, add: true, wback: false },
            _ => Instruction::LoadRegisterSignedHalfword_Register { rt, rn, rm, shift, index: true, add: true, wback: false },
        }
    } else if op_a == 6 {
        if load {
            Instruction::LoadRegister_Immediate { rt, rn, imm32: (imm5 * 4) as u32, index: true, add: true, wback: false }
        } else {
            Instruction::StoreRegister_Immediate { rt, rn, imm32: (imm5 * 4) as u32, index: true, add: true, wback: false }
        }
    } else if op_a == 7 {
        if load {
            Instruction::LoadRegisterByte_Immediate { rt, rn, imm32: imm5, index: true, add: true, wback: false }
        } else {
            Instruction::StoreRegisterByte_Immediate { rt, rn, imm32: imm5, index: true, add: true, wback: false }
        }
    } else if op_a == 8 {
        if load {
            Instruction::LoadRegisterHalfword_Immediate { rt, rn, imm32: (imm5 * 2) as u32, index: true, add: true, wback: false }
        } else {
            Instruction::StoreRegisterHalfword_Immediate { rt, rn, imm32: (imm5 * 2) as u32, index: true, add: true, wback: false }
        }
    } else if load {
        Instruction::LoadRegister_Immediate { rt: rt8, rn: RegisterID::SP, imm32: (imm8 * 4) as u32, index: true, add: true, wback: false }
    } else {
        Instruction::StoreRegister_Immediate { rt: rt8, rn: RegisterID::SP, imm32: (imm8 * 4) as u32, index: true, add: true, wback: false }
    }
}


/// The value of an IT mask has exactly one bit set.
pub open spec fn single_bit(mask: u32) -> bool {
    mask == 1 || mask == 2 || mask == 4 || mask == 8
}

/// If-Then and hint instructions (`1011 1111 opA opB`).
pub open spec fn spec_it_and_hints(x: u32, xpsr: XPSR) -> Instruction {
    let op_a = (x / 16) % 16;
    let op_b = x % 16;
    if op_b != 0 {
        if op_a == 15 || (op_a == 14 && !single_bit(op_b)) || xpsr.in_it() {
            Instruction::Unpredictable
        } else {
            Instruction::IfThen { firstcond: Condition(op_a as u8), mask: op_b as u8 }
        }
    } else if op_a == 0 {
        Instruction::NoOperation
    } else if op_a == 1 {
        Instruction::Unsupported { name: "YIELD" }
    } else if op_a == 2 {
        Instruction::WaitForEvent
    } else if op_a == 3 {
        Instruction::WaitForInterrupt
    } else if op_a == 4 {
        Instruction::SendEvent
    } else {
        Instruction::Unsupported { name: "Unallocated hint. Executes as NOP, but software must not use it." }
    }
}

fn it_and_hints(x: u32, xpsr: XPSR) -> (r: Instruction)
    ensures
        r == spec_it_and_hints(x, xpsr),
{
    let op_a = (x / 16) % 16;
    let op_b = x % 16;
    if op_b != 0 {
        let single = op_b == 1 || op_b == 2 || op_b == 4 || op_b == 8;
        if op_a == 15 || (op_a == 14 && !single) || xpsr.in_it_block() {
            Instruction::Unpredictable
        } else {
            Instruction::IfThen { firstcond: Condition(op_a as u8), mask: op_b as u8 }
        }
    } else {
        match op_a {
            0 => Instruction::NoOperation,
            1 => Instruction::Unsupported { name: "YIELD" },
            2 => Instruction::WaitForEvent,
            3 => Instruction::WaitForInterrupt,
            4 => Instruction::SendEvent,
            _ => Instruction::Unsupported {
                name: "Unallocated hint. Executes as NOP, but software must not use it.",
            },
        }
    }
}

/// The rotation of the 16-bit extend instructions: none.
pub open spec fn no_rotation() -> Shift {
    Shift { srtype: SRType::ROR, amount: 0 }
}

/// Miscellaneous 16-bit instructions (`1011 xxxx ...`).
pub open spec fn spec_miscellaneous(x: u32, xpsr: XPSR) -> Instruction {
    let opcode = (x / 32) % 128;
    let imm7 = x % 128;
    let imm8 = x % 256;
    let lo3 = reg(x % 8);
    let mid3 = reg((x / 8) % 8);
    if opcode == 0x33 {
        // CPS: the bits below `im` must be zero.
        let im = (x / 16) % 2;
        let i = (x / 2) % 2;
        let f = x % 2;
        if (x / 4) % 4 != 0 {
            Instruction::Unpredictable
        } else if (i == 0 && f == 0) || xpsr.in_it() {
            Instruction::Unpredictable
        } else {
            Instruction::ChangeProcessorState {
                enable: im == 0,
                disable: im == 1,
                affect_pri: i == 1,
                affect_fault: f == 1,
            }
        }
    } else if opcode < 4 {
        Instruction::Add_SPPlusImmediate { rd: RegisterID::SP, imm32: (imm7 * 4) as u32, setflags: false }
    } else if opcode < 8 {
        Instruction::Subtract_SPMinusImmediate { rd: RegisterID::SP, imm32: (imm7 * 4) as u32, setflags: false }
    } else if (opcode / 32) % 2 == 0 && (opcode / 8) % 2 == 1 {
        // CBZ, CBNZ: opcode is `o0i1xxx`
        if xpsr.in_it() {
            Instruction::Unpredictable
        } else {
            Instruction::CompareAndBranch {
                rn: lo3,
                imm32: (((x / 512) % 2) * 64 + ((x / 8) % 32) * 2) as u32,
                nonzero: (x / 2048) % 2 == 1,
            }
        }
    } else if opcode / 2 == 8 {
        Instruction::SignedExtendHalfword { rd: lo3, rm: mid3, rotation: no_rotation() }
    } else if opcode / 2 == 9 {
        Instruction::SignedExtendByte { rd: lo3, rm: mid3, rotation: no_rotation() }
    } else if opcode / 2 == 10 {
        Instruction::UnsignedExtendHalfword { rd: lo3, rm: mid3, rotation: no_rotation() }
    } else if opcode / 2 == 11 {
        Instruction::UnsignedExtendByte { rd: lo3, rm: mid3, rotation: no_rotation() }
    } else if opcode / 16 == 2 {
        // PUSH: the list, and LR for the M bit.
        let registers = (((x / 256) % 2) * 0x4000 + imm8) as u32;
        if registers == 0 {
            Instruction::Unpredictable
        } else {
            Instruction::StoreMultipleDecrementBefore {
                rn: RegisterID::SP,
                registers: RegisterBitmap(registers as u16),
                wback: true,
            }
        }
    } else if opcode / 2 == 40 {
        Instruction::ByteReverseWord { rd: lo3, rm: mid3 }
    } else if opcode / 2 == 41 {
        Instruction::ByteReversePackedHalfword { rd: lo3, rm: mid3 }
    } else if opcode / 2 == 43 {
        Instruction::ByteReverseSignedHalfword { rd: lo3, rm: mid3 }
    } else if opcode / 16 == 6 {
        // POP: the list, and PC for the P bit.
        let pc = (x / 256) % 2;
        let registers = (pc * 0x8000 + imm8) as u32;
        if registers == 0 || (pc == 1 && xpsr.in_it() && !xpsr.last_in_it()) {
            Instruction::Unpredictable
        } else {
            Instruction::LoadMultiple {
                rn: RegisterID::SP,
                registers: RegisterBitmap(registers as u16),
                wback: true,
                is_narrow: true,
            }
        }
    } else if opcode / 8 == 14 {
        Instruction::Breakpoint { imm32: imm8 }
    } else if opcode / 8 == 15 {
        spec_it_and_hints(x, xpsr)
    } else {
        Instruction::Undefined
    }
}

fn miscellaneous(x: u32, xpsr: XPSR) -> (r: Instruction)
    requires
        x < 0x10000,
    ensures
        r == spec_miscellaneous(x, xpsr),
{
    let opcode = (x / 32) % 128;
    let imm7 = x % 128;
    let imm8 = x % 256;
    let lo3 = RegisterID::from_index(x % 8);
    let mid3 = RegisterID::from_index((x / 8) % 8);
    let no_rotation = Shift { srtype: SRType::ROR, amount: 0 };
    if opcode == 0x33 {
        let im = (x / 16) % 2;
        let i = (x / 2) % 2;
        let f = x % 2;
        if (x / 4) % 4 != 0 {
            Instruction::Unpredictable
        } else if (i == 0 && f == 0) || xpsr.in_it_block() {
            Instruction::Unpredictable
        } else {
            Instruction::ChangeProcessorState {
                enable: im == 0,
                disable: im == 1,
                affect_pri: i == 1,
                affect_fault: f == 1,
            }
        }
    } else if opcode < 4 {
        Instruction::Add_SPPlusImmediate { rd: RegisterID::SP, imm32: (imm7 * 4) as u32, setflags: false }
    } else if opcode < 8 {
        Instruction::Subtract_SPMinusImmediate { rd: RegisterID::SP, imm32: (imm7 * 4) as u32, setflags: false }
    } else if (opcode / 32) % 2 == 0 && (opcode / 8) % 2 == 1 {
        if xpsr.in_it_block() {
            Instruction::Unpredictable
        } else {
            Instruction::CompareAndBranch {
                rn: lo3,
                imm32: (((x / 512) % 2) * 64 + ((x / 8) % 32) * 2) as u32,
                nonzero: (x / 2048) % 2 == 1,
            }
        }
    } else if opcode / 2 == 8 {
        Instruction::SignedExtendHalfword { rd: lo3, rm: mid3, rotation: no_rotation }
    } else if opcode / 2 == 9 {
        Instruction::SignedExtendByte { rd: lo3, rm: mid3, rotation: no_rotation }
    } else if opcode / 2 == 10 {
        Instruction::UnsignedExtendHalfword { rd: lo3, rm: mid3, rotation: no_rotation }
    } else if opcode / 2 == 11 {
        Instruction::UnsignedExtendByte { rd: lo3, rm: mid3, rotation: no_rotation }
    } else if opcode / 16 == 2 {
        let registers = (((x / 256) % 2) * 0x4000 + imm8) as u32;
        if registers == 0 {
            Instruction::Unpredictable
        } else {
            Instruction::StoreMultipleDecrementBefore {
                rn: RegisterID::SP,
                registers: RegisterBitmap(registers as u16),
                wback: true,
            }
        }
    } else if opcode / 2 == 40 {
        Instruction::ByteReverseWord { rd: lo3, rm: mid3 }
    } else if opcode / 2 == 41 {
        Instruction::ByteReversePackedHalfword { rd: lo3, rm: mid3 }
    } else if opcode / 2 == 43 {
        Instruction::ByteReverseSignedHalfword { rd: lo3, rm: mid3 }
    } else if opcode / 16 == 6 {
        let pc = (x / 256) % 2;
        let registers = (pc * 0x8000 + imm8) as u32;
        if registers == 0 || (pc == 1 && xpsr.in_it_block() && !xpsr.last_in_it_block()) {
            Instruction::Unpredictable
        } else {
            Instruction::LoadMultiple {
                rn: RegisterID::SP,
                registers: RegisterBitmap(registers as u16),
                wback: true,
                is_narrow: true,
            }
        }
    } else if opcode / 8 == 14 {
        Instruction::Breakpoint { imm32: imm8 }
    } else if opcode / 8 == 15 {
        it_and_hints(x, xpsr)
    } else {
        Instruction::Undefined
    }
}

/// Load/store multiple on a low base register (`1100 L Rn list`).
pub open spec fn spec_load_store_multiple(x: u32) -> Instruction {
    let rn = (x / 256) % 8;
    let registers = RegisterBitmap((x % 256) as u16);
    if x % 256 == 0 {
        Instruction::Unpredictable
    } else if (x / 2048) % 2 == 0 {
        Instruction::StoreMultiple { rn: reg(rn), registers, wback: true }
    } else {
        // The base is written back unless it is in the list.
        Instruction::LoadMultiple { rn: reg(rn), registers, wback: !registers.has(reg(rn)), is_narrow: true }
    }
}

fn load_store_multiple(x: u32) -> (r: Instruction)
    ensures
        r == spec_load_store_multiple(x),
{
    let rn = RegisterID::from_index((x / 256) % 8);
    let registers = RegisterBitmap((x % 256) as u16);
    if x % 256 == 0 {
        Instruction::Unpredictable
    } else if (x / 2048) % 2 == 0 {
        Instruction::StoreMultiple { rn, registers, wback: true }
    } else {
        Instruction::LoadMultiple { rn, registers, wback: !registers.get(rn), is_narrow: true }
    }
}

/// Conditional branch, permanently undefined and supervisor call (`1101 opcode imm8`).
pub open spec fn spec_conditional_branch_and_calls(x: u32, xpsr: XPSR) -> Instruction {
    let cond = (x / 256) % 16;
    let imm8 = x % 256;
    if cond == 14 {
        Instruction::PermanentlyUndefined { imm32: imm8 }
    } else if cond == 15 {
        Instruction::SupervisorCall { imm32: imm8 }
    } else if xpsr.in_it() {
        Instruction::Unpredictable
    } else {
        Instruction::Branch { cond: Condition(cond as u8), imm32: sign_extend(imm8 * 2, 9) }
    }
}

fn conditional_branch_and_calls(x: u32, xpsr: XPSR) -> (r: Instruction)
    ensures
        r == spec_conditional_branch_and_calls(x, xpsr),
{
    let cond = (x / 256) % 16;
    let imm8 = x % 256;
    if cond == 14 {
        Instruction::PermanentlyUndefined { imm32: imm8 }
    } else if cond == 15 {
        Instruction::SupervisorCall { imm32: imm8 }
    } else if xpsr.in_it_block() {
        Instruction::Unpredictable
    } else {
        let imm9 = imm8 * 2;
        let imm32 = if imm9 >= 0x100 { imm9 + 0xffff_fe00 } else { imm9 };
        proof {
            vstd::arithmetic::power2::lemma2_to64();
        }
        Instruction::Branch { cond: Condition(cond as u8), imm32 }
    }
}

/// Unconditional branch (`11100 imm11`).
pub open spec fn spec_unconditional_branch(x: u32, xpsr: XPSR) -> Instruction {
    if inside_it_not_last(xpsr) {
        Instruction::Unpredictable
    } else {
        Instruction::Branch { cond: Condition(14), imm32: sign_extend((x % 2048) * 2, 12) }
    }
}

fn unconditional_branch(x: u32, xpsr: XPSR) -> (r: Instruction)
    ensures
        r == spec_unconditional_branch(x, xpsr),
{
    let imm12 = (x % 2048) * 2;
    let imm32 = if imm12 >= 0x800 { imm12 + 0xffff_f000 } else { imm12 };
    proof {
        vstd::arithmetic::power2::lemma2_to64();
    }
    if xpsr.in_it_block() && !xpsr.last_in_it_block() {
        Instruction::Unpredictable
    } else {
        Instruction::Branch { cond: Condition(14), imm32 }
    }
}

/// The 16-bit Thumb instruction `instr`, in the IT state of `xpsr`.
pub open spec fn spec_decode_short(instr: u16, xpsr: XPSR) -> Instruction {
    let x = instr as u32;
    let opcode = x / 1024;
    if opcode < 16 {
        spec_shift_add_subtract_move_compare(x, xpsr)
    } else if opcode == 16 {
        spec_data_processing(x, xpsr)
    } else if opcode == 17 {
        spec_special_data_branch(x, xpsr)
    } else if opcode < 20 {
        Instruction::LoadRegister_Literal { rt: reg((x / 256) % 8), imm32: ((x % 256) * 4) as u32, add: true }
    } else if opcode < 40 {
        spec_load_store_single(x)
    } else if opcode < 42 {
        Instruction::AddressToRegister { rd: reg((x / 256) % 8), imm32: ((x % 256) * 4) as u32, add: true }
    } else if opcode < 44 {
        Instruction::Add_SPPlusImmediate { rd: reg((x / 256) % 8), imm32: ((x % 256) * 4) as u32, setflags: false }
    } else if opcode < 48 {
        spec_miscellaneous(x, xpsr)
    } else if opcode < 52 {
        spec_load_store_multiple(x)
    } else if opcode < 56 {
        spec_conditional_branch_and_calls(x, xpsr)
    } else {
        spec_unconditional_branch(x, xpsr)
    }
}

/// Decodes a 16-bit Thumb instruction. `instr` must not be the first halfword of a
/// 32-bit instruction.
pub fn decode_short_instruction(instr: u16, xpsr: XPSR) -> (r: Instruction)
    requires
        !starts_long(instr),
    ensures
        r == spec_decode_short(instr, xpsr),
{
    let x = instr as u32;
    let opcode = x / 1024;
    if opcode < 16 {
        shift_add_subtract_move_compare(x, xpsr)
    } else if opcode == 16 {
        data_processing(x, xpsr)
    } else if opcode == 17 {
        special_data_branch(x, xpsr)
    } else if opcode < 20 {
        Instruction::LoadRegister_Literal {
            rt: RegisterID::from_index((x / 256) % 8),
            imm32: ((x % 256) * 4) as u32,
            add: true,
        }
    } else if opcode < 40 {
        load_store_single(x)
    } else if opcode < 42 {
        Instruction::AddressToRegister {
            rd: RegisterID::from_index((x / 256) % 8),
            imm32: ((x % 256) * 4) as u32,
            add: true,
        }
    } else if opcode < 44 {
        Instruction::Add_SPPlusImmediate {
            rd: RegisterID::from_index((x / 256) % 8),
            imm32: ((x % 256) * 4) as u32,
            setflags: false,
        }
    } else if opcode < 48 {
        miscellaneous(x, xpsr)
    } else if opcode < 52 {
        load_store_multiple(x)
    } else if opcode < 56 {
        conditional_branch_and_calls(x, xpsr)
    } else {
        unconditional_branch(x, xpsr)
    }
}



proof fn lemma_shift_add_subtract_move_compare_lsl(x: u32, xpsr: XPSR)
    ensures
        lsl_offsets_only(spec_shift_add_subtract_move_compare(x, xpsr)),
{
}

proof fn lemma_data_processing_lsl(x: u32, xpsr: XPSR)
    ensures
        lsl_offsets_only(spec_data_processing(x, xpsr)),
{
}

proof fn lemma_special_data_branch_lsl(x: u32, xpsr: XPSR)
    ensures
        lsl_offsets_only(spec_special_data_branch(x, xpsr)),
{
}

proof fn lemma_load_store_single_lsl(x: u32, xpsr: XPSR)
    ensures
        lsl_offsets_only(spec_load_store_single(x)),
{
}

proof fn lemma_miscellaneous_lsl(x: u32, xpsr: XPSR)
    ensures
        lsl_offsets_only(spec_miscellaneous(x, xpsr)),
{
}

proof fn lemma_load_store_multiple_lsl(x: u32, xpsr: XPSR)
    ensures
        lsl_offsets_only(spec_load_store_multiple(x)),
{
}

proof fn lemma_conditional_branch_and_calls_lsl(x: u32, xpsr: XPSR)
    ensures
        lsl_offsets_only(spec_conditional_branch_and_calls(x, xpsr)),
{
}

proof fn lemma_unconditional_branch_lsl(x: u32, xpsr: XPSR)
    ensures
        lsl_offsets_only(spec_unconditional_branch(x, xpsr)),
{
}

/// Register-offset transfers decode with a left shift.
pub proof fn lemma_decode_short_lsl(instr: u16, xpsr: XPSR)
    ensures
        lsl_offsets_only(spec_decode_short(instr, xpsr)),
{
    lemma_shift_add_subtract_move_compare_lsl(instr as u32, xpsr);
    lemma_data_processing_lsl(instr as u32, xpsr);
    lemma_special_data_branch_lsl(instr as u32, xpsr);
    lemma_load_store_single_lsl(instr as u32, xpsr);
    lemma_miscellaneous_lsl(instr as u32, xpsr);
    lemma_load_store_multiple_lsl(instr as u32, xpsr);
    lemma_conditional_branch_and_calls_lsl(instr as u32, xpsr);
    lemma_unconditional_branch_lsl(instr as u32, xpsr);
}

proof fn lemma_register_imm8_fields(top5: u32, r: u32, imm8: u32)
    by (bit_vector)
    requires
        top5 < 32,
        r < 8,
        imm8 < 256,
    ensures
        ({
            let x = ((top5 * 2048 + r * 256 + imm8) as u16) as u32;
            &&& x / 1024 == top5 * 2 + r / 4
            &&& (x / 256) % 8 == r
            &&& x % 256 == imm8
        }),
{
}

/// The 16-bit forms `top5 Rd imm8` whose immediate is a word offset: `LDR Rt, [PC, #imm8*4]`
/// (01001), `ADR Rd, #imm8*4` (10100) and `ADD Rd, SP, #imm8*4` (10101). The register is
/// `Rd` and the immediate `imm8 * 4`, zero-extended.
pub proof fn lemma_word_offset_imm8_decode(r: u32, imm8: u32, xpsr: XPSR)
    requires
        r < 8,
        imm8 < 256,
    ensures
        spec_decode_short((0x4800 + r * 256 + imm8) as u16, xpsr)
            == (Instruction::LoadRegister_Literal {
            rt: RegisterID::numbered(r),
            imm32: (imm8 * 4) as u32,
            add: true,
        }),
        spec_decode_short((0xa000 + r * 256 + imm8) as u16, xpsr)
            == (Instruction::AddressToRegister { rd: RegisterID::numbered(r), imm32: (imm8 * 4) as u32, add: true }),
        spec_decode_short((0xa800 + r * 256 + imm8) as u16, xpsr)
            == (Instruction::Add_SPPlusImmediate {
            rd: RegisterID::numbered(r),
            imm32: (imm8 * 4) as u32,
            setflags: false,
        }),
{
    lemma_register_imm8_fields(9, r, imm8);
    lemma_register_imm8_fields(20, r, imm8);
    lemma_register_imm8_fields(21, r, imm8);
}

proof fn lemma_sp_imm7_fields(sub: u32, imm7: u32)
    by (bit_vector)
    requires
        sub < 2,
        imm7 < 128,
    ensures
        ({
            let x = ((0xb000 + sub * 128 + imm7) as u16) as u32;
            &&& x / 1024 == 44
            &&& (x / 32) % 128 == sub * 4 + imm7 / 32
            &&& x % 128 == imm7
        }),
{
}

/// `ADD SP, SP, #imm7*4` (`1011 0000 0 imm7`) and `SUB SP, SP, #imm7*4`
/// (`1011 0000 1 imm7`): the stack pointer moves by `imm7 * 4`.
pub proof fn lemma_sp_adjust_decode(imm7: u32, xpsr: XPSR)
    requires
        imm7 < 128,
    ensures
        spec_decode_short((0xb000 + imm7) as u16, xpsr) == (Instruction::Add_SPPlusImmediate {
            rd: RegisterID::SP,
            imm32: (imm7 * 4) as u32,
            setflags: false,
        }),
        spec_decode_short((0xb080 + imm7) as u16, xpsr)
            == (Instruction::Subtract_SPMinusImmediate {
            rd: RegisterID::SP,
            imm32: (imm7 * 4) as u32,
            setflags: false,
        }),
{
    lemma_sp_imm7_fields(0, imm7);
    lemma_sp_imm7_fields(1, imm7);
}

proof fn lemma_top5_r3_imm8_fields(top5: u32, r: u32, imm8: u32)
    by (bit_vector)
    requires
        top5 < 32,
        r < 8,
        imm8 < 256,
    ensures
        ({
            let x = ((top5 * 2048 + r * 256 + imm8) as u16) as u32;
            &&& x / 4096 == top5 / 2
            &&& x / 512 == top5 * 4 + r / 2
            &&& (x / 512) % 32 == (top5 * 4 + r / 2) % 32
            &&& (x / 512) % 8 == (top5 % 2) * 4 + r / 2
            &&& (x / 256) % 8 == r
            &&& x % 256 == imm8
        }),
{
}


proof fn lemma_imm8_case(top5: u32, r: u32, imm8: u32, xpsr: XPSR)
    requires
        4 <= top5 < 8,
        r < 8,
        imm8 < 256,
    ensures
        spec_decode_short((top5 * 2048 + r * 256 + imm8) as u16, xpsr)
            == spec_shift_add_subtract_move_compare(((top5 * 2048 + r * 256 + imm8) as u16) as u32, xpsr),
        spec_decode_short((top5 * 2048 + r * 256 + imm8) as u16, xpsr) == (if top5 == 4 {
            Instruction::Move_Immediate {
                rd: RegisterID::numbered(r),
                imm32: imm8,
                setflags: !xpsr.in_it(),
                setflags_depends_on_it: true,
                carry: xpsr.carry,
            }
        } else if top5 == 5 {
            Instruction::Compare_Immediate { rn: RegisterID::numbered(r), imm32: imm8 }
        } else if top5 == 6 {
            Instruction::Add_Immediate {
                rd: RegisterID::numbered(r),
                rn: RegisterID::numbered(r),
                imm32: imm8,
                setflags: !xpsr.in_it(),
                setflags_depends_on_it: true,
            }
        } else {
            Instruction::Subtract_Immediate {
                rd: RegisterID::numbered(r),
                rn: RegisterID::numbered(r),
                imm32: imm8,
                setflags: !xpsr.in_it(),
                setflags_depends_on_it: true,
            }
        }),
{
    lemma_register_imm8_fields(top5, r, imm8);
    lemma_top5_r3_imm8_fields(top5, r, imm8);
}

/// `MOVS Rd, #imm8`, `CMP Rn, #imm8`, `ADDS Rdn, #imm8` and `SUBS Rdn, #imm8`
/// (`001 op Rdn imm8`): the register is `Rdn` and the immediate `imm8`, zero-extended;
/// the flags are set outside an IT block only.
pub proof fn lemma_imm8_data_processing_decode(r: u32, imm8: u32, xpsr: XPSR)
    requires
        r < 8,
        imm8 < 256,
    ensures
        spec_decode_short((0x2000 + r * 256 + imm8) as u16, xpsr) == (Instruction::Move_Immediate {
            rd: RegisterID::numbered(r),
            imm32: imm8,
            setflags: !xpsr.in_it(),
            setflags_depends_on_it: true,
            carry: xpsr.carry,
        }),
        spec_decode_short((0x2800 + r * 256 + imm8) as u16, xpsr) == (Instruction::Compare_Immediate {
            rn: RegisterID::numbered(r),
            imm32: imm8,
        }),
        spec_decode_short((0x3000 + r * 256 + imm8) as u16, xpsr) == (Instruction::Add_Immediate {
            rd: RegisterID::numbered(r),
            rn: RegisterID::numbered(r),
            imm32: imm8,
            setflags: !xpsr.in_it(),
            setflags_depends_on_it: true,
        }),
        spec_decode_short((0x3800 + r * 256 + imm8) as u16, xpsr) == (Instruction::Subtract_Immediate {
            rd: RegisterID::numbered(r),
            rn: RegisterID::numbered(r),
            imm32: imm8,
            setflags: !xpsr.in_it(),
            setflags_depends_on_it: true,
        }),
{
    lemma_imm8_case(4, r, imm8, xpsr);
    lemma_imm8_case(5, r, imm8, xpsr);
    lemma_imm8_case(6, r, imm8, xpsr);
    lemma_imm8_case(7, r, imm8, xpsr);
}

/// `LDR Rt, [SP, #imm8*4]` (`10011 Rt imm8`) and `STR Rt, [SP, #imm8*4]` (`10010 Rt imm8`):
/// offset addressing from SP with the immediate `imm8 * 4`.
pub proof fn lemma_sp_relative_transfer_decode(r: u32, imm8: u32, xpsr: XPSR)
    requires
        r < 8,
        imm8 < 256,
    ensures
        spec_decode_short((0x9800 + r * 256 + imm8) as u16, xpsr) == (Instruction::LoadRegister_Immediate {
            rt: RegisterID::numbered(r),
            rn: RegisterID::SP,
            imm32: (imm8 * 4) as u32,
            index: true,
            add: true,
            wback: false,
        }),
        spec_decode_short((0x9000 + r * 256 + imm8) as u16, xpsr) == (Instruction::StoreRegister_Immediate {
            rt: RegisterID::numbered(r),
            rn: RegisterID::SP,
            imm32: (imm8 * 4) as u32,
            index: true,
            add: true,
            wback: false,
        }),
{
    lemma_register_imm8_fields(18, r, imm8);
    lemma_register_imm8_fields(19, r, imm8);
    lemma_top5_r3_imm8_fields(18, r, imm8);
    lemma_top5_r3_imm8_fields(19, r, imm8);
}

proof fn lemma_top5_imm5_fields(top5: u32, imm5: u32, b: u32, c: u32)
    by (bit_vector)
    requires
        top5 < 32,
        imm5 < 32,
        b < 8,
        c < 8,
    ensures
        ({
            let x = ((top5 * 2048 + imm5 * 64 + b * 8 + c) as u16) as u32;
            &&& x / 1024 == top5 * 2 + imm5 / 16
            &&& x / 4096 == top5 / 2
            &&& (x / 512) % 8 == (top5 % 2) * 4 + imm5 / 8
            &&& (x / 64) % 32 == imm5
            &&& (x / 8) % 8 == b
            &&& x % 8 == c
        }),
{
}


proof fn lemma_imm5_case(top5: u32, imm5: u32, n: u32, t: u32, xpsr: XPSR)
    requires
        12 <= top5 < 18,
        imm5 < 32,
        n < 8,
        t < 8,
    ensures
        ({
            let x = (top5 * 2048 + imm5 * 64 + n * 8 + t) as u16;
            let rt = RegisterID::numbered(t);
            let rn = RegisterID::numbered(n);
            spec_decode_short(x, xpsr) == if top5 == 12 {
                Instruction::StoreRegister_Immediate { rt, rn, imm32: (imm5 * 4) as u32, index: true, add: true, wback: false }
            } else if top5 == 13 {
                Instruction::LoadRegister_Immediate { rt, rn, imm32: (imm5 * 4) as u32, index: true, add: true, wback: false }
            } else if top5 == 14 {
                Instruction::StoreRegisterByte_Immediate { rt, rn, imm32: imm5, index: true, add: true, wback: false }
            } else if top5 == 15 {
                Instruction::LoadRegisterByte_Immediate { rt, rn, imm32: imm5, index: true, add: true, wback: false }
            } else if top5 == 16 {
                Instruction::StoreRegisterHalfword_Immediate { rt, rn, imm32: (imm5 * 2) as u32, index: true, add: true, wback: false }
            } else {
                Instruction::LoadRegisterHalfword_Immediate { rt, rn, imm32: (imm5 * 2) as u32, index: true, add: true, wback: false }
            }
        }),
{
    lemma_top5_imm5_fields(top5, imm5, n, t);
    let x = ((top5 * 2048 + imm5 * 64 + n * 8 + t) as u16) as u32;
    assert(spec_decode_short(x as u16, xpsr) == spec_load_store_single(x));
}

/// `LDR`/`STR Rt, [Rn, #imm5*4]`, `LDRB`/`STRB Rt, [Rn, #imm5]` and
/// `LDRH`/`STRH Rt, [Rn, #imm5*2]` (`0110 L`, `0111 L`, `1000 L` then `imm5 Rn Rt`): offset
/// addressing with the immediate scaled by the size of the access.
pub proof fn lemma_imm5_transfer_decode(imm5: u32, n: u32, t: u32, xpsr: XPSR)
    requires
        imm5 < 32,
        n < 8,
        t < 8,
    ensures
        ({
            let rt = RegisterID::numbered(t);
            let rn = RegisterID::numbered(n);
            let low = imm5 * 64 + n * 8 + t;
            &&& spec_decode_short((0x6000 + low) as u16, xpsr) == (Instruction::StoreRegister_Immediate {
                rt, rn, imm32: (imm5 * 4) as u32, index: true, add: true, wback: false })
            &&& spec_decode_short((0x6800 + low) as u16, xpsr) == (Instruction::LoadRegister_Immediate {
                rt, rn, imm32: (imm5 * 4) as u32, index: true, add: true, wback: false })
            &&& spec_decode_short((0x7000 + low) as u16, xpsr) == (Instruction::StoreRegisterByte_Immediate {
                rt, rn, imm32: imm5, index: true, add: true, wback: false })
            &&& spec_decode_short((0x7800 + low) as u16, xpsr) == (Instruction::LoadRegisterByte_Immediate {
                rt, rn, imm32: imm5, index: true, add: true, wback: false })
            &&& spec_decode_short((0x8000 + low) as u16, xpsr) == (Instruction::StoreRegisterHalfword_Immediate {
                rt, rn, imm32: (imm5 * 2) as u32, index: true, add: true, wback: false })
            &&& spec_decode_short((0x8800 + low) as u16, xpsr) == (Instruction::LoadRegisterHalfword_Immediate {
                rt, rn, imm32: (imm5 * 2) as u32, index: true, add: true, wback: false })
        }),
{
    lemma_imm5_case(12, imm5, n, t, xpsr);
    lemma_imm5_case(13, imm5, n, t, xpsr);
    lemma_imm5_case(14, imm5, n, t, xpsr);
    lemma_imm5_case(15, imm5, n, t, xpsr);
    lemma_imm5_case(16, imm5, n, t, xpsr);
    lemma_imm5_case(17, imm5, n, t, xpsr);
}

proof fn lemma_top7_fields(top7: u32, a: u32, b: u32, c: u32)
    by (bit_vector)
    requires
        top7 < 128,
        a < 8,
        b < 8,
        c < 8,
    ensures
        ({
            let x = ((top7 * 512 + a * 64 + b * 8 + c) as u16) as u32;
            &&& x / 1024 == top7 / 2
            &&& (x / 512) % 32 == top7 % 32
            &&& (x / 64) % 32 == (top7 % 4) * 8 + a
            &&& (x / 64) % 8 == a
            &&& (x / 8) % 8 == b
            &&& x % 8 == c
        }),
{
}

/// `ADDS`/`SUBS Rd, Rn, Rm` and `ADDS`/`SUBS Rd, Rn, #imm3` (`00011 op` then
/// `Rm/imm3 Rn Rd`): the first operand is `Rn`, the second `Rm` unshifted or `imm3`; the
/// flags are set outside an IT block only.
pub proof fn lemma_three_register_add_subtract_decode(a: u32, n: u32, d: u32, xpsr: XPSR)
    requires
        a < 8,
        n < 8,
        d < 8,
    ensures
        ({
            let rd = RegisterID::numbered(d);
            let rn = RegisterID::numbered(n);
            let low = a * 64 + n * 8 + d;
            let setflags = !xpsr.in_it();
            let unshifted = Shift { srtype: SRType::LSL, amount: 0 };
            &&& spec_decode_short((0x1800 + low) as u16, xpsr) == (Instruction::Add_Register {
                rd, rn, rm: RegisterID::numbered(a), shift: unshifted, setflags, setflags_depends_on_it: true })
            &&& spec_decode_short((0x1a00 + low) as u16, xpsr) == (Instruction::Subtract_Register {
                rd, rn, rm: RegisterID::numbered(a), shift: unshifted, setflags, setflags_depends_on_it: true })
            &&& spec_decode_short((0x1c00 + low) as u16, xpsr) == (Instruction::Add_Immediate {
                rd, rn, imm32: a, setflags, setflags_depends_on_it: true })
            &&& spec_decode_short((0x1e00 + low) as u16, xpsr) == (Instruction::Subtract_Immediate {
                rd, rn, imm32: a, setflags, setflags_depends_on_it: true })
        }),
{
    lemma_top7_fields(12, a, n, d);
    lemma_top7_fields(13, a, n, d);
    lemma_top7_fields(14, a, n, d);
    lemma_top7_fields(15, a, n, d);
}

proof fn lemma_branch_fields(cond: u32, imm8: u32, imm11: u32)
    by (bit_vector)
    requires
        cond < 14,
        imm8 < 256,
        imm11 < 2048,
    ensures
        ({
            let x = ((0xd000 + cond * 256 + imm8) as u16) as u32;
            let y = ((0xe000 + imm11) as u16) as u32;
            &&& x / 1024 == 52 + cond / 4
            &&& (x / 256) % 16 == cond
            &&& x % 256 == imm8
            &&& y / 1024 == 56 + imm11 / 1024
            &&& y % 2048 == imm11
        }),
{
}


/// `v - 2^k` for `2^(k-1) <= v < 2^k`, as a word.
proof fn lemma_negative_offset_word(v: int, k: int)
    requires
        0 <= v < k,
        0 < k <= 0x1_0000,
    ensures
        ((v - k) % 0x1_0000_0000) == v - k + 0x1_0000_0000,
        v % 0x1_0000_0000 == v,
{
    vstd::arithmetic::div_mod::lemma_mod_add_multiples_vanish(v - k, 0x1_0000_0000);
    vstd::arithmetic::div_mod::lemma_small_mod((v - k + 0x1_0000_0000) as nat, 0x1_0000_0000);
    vstd::arithmetic::div_mod::lemma_small_mod(v as nat, 0x1_0000_0000);
}

proof fn lemma_conditional_branch_case(cond: u32, imm8: u32, xpsr: XPSR)
    requires
        cond < 14,
        imm8 < 256,
    ensures
        !xpsr.in_it() ==> spec_decode_short((0xd000 + cond * 256 + imm8) as u16, xpsr) == (Instruction::Branch {
            cond: Condition(cond as u8),
            imm32: ((2 * imm8 - (if imm8 >= 128 { 512int } else { 0 })) % 0x1_0000_0000) as u32,
        }),
{
    lemma_branch_fields(cond, imm8, 0);
    vstd::arithmetic::power2::lemma2_to64();
    lemma_negative_offset_word(2 * imm8, 512);
    let x = ((0xd000 + cond * 256 + imm8) as u16) as u32;
    assert(spec_decode_short(x as u16, xpsr) == spec_conditional_branch_and_calls(x, xpsr));
}

proof fn lemma_unconditional_branch_case(imm11: u32, xpsr: XPSR)
    requires
        imm11 < 2048,
    ensures
        !inside_it_not_last(xpsr) ==> spec_decode_short((0xe000 + imm11) as u16, xpsr) == (Instruction::Branch {
            cond: Condition(14),
            imm32: ((2 * imm11 - (if imm11 >= 1024 { 4096int } else { 0 })) % 0x1_0000_0000) as u32,
        }),
{
    lemma_branch_fields(0, 0, imm11);
    vstd::arithmetic::power2::lemma2_to64();
    lemma_negative_offset_word(2 * imm11, 4096);
    let y = ((0xe000 + imm11) as u16) as u32;
    assert(spec_decode_short(y as u16, xpsr) == spec_unconditional_branch(y, xpsr));
}

/// `B<cond> label` (`1101 cond imm8`, outside an IT block) branches by `imm8 * 2` read as a
/// 9-bit two's complement number, and `B label` (`11100 imm11`) by `imm11 * 2` read as a
/// 12-bit one; the offsets are given as words (modulo 2^32).
pub proof fn lemma_branch_offsets_decode(cond: u32, imm8: u32, imm11: u32, xpsr: XPSR)
    requires
        cond < 14,
        imm8 < 256,
        imm11 < 2048,
    ensures
        !xpsr.in_it() ==> spec_decode_short((0xd000 + cond * 256 + imm8) as u16, xpsr) == (Instruction::Branch {
            cond: Condition(cond as u8),
            imm32: ((2 * imm8 - (if imm8 >= 128 { 512int } else { 0 })) % 0x1_0000_0000) as u32,
        }),
        !inside_it_not_last(xpsr) ==> spec_decode_short((0xe000 + imm11) as u16, xpsr) == (Instruction::Branch {
            cond: Condition(14),
            imm32: ((2 * imm11 - (if imm11 >= 1024 { 4096int } else { 0 })) % 0x1_0000_0000) as u32,
        }),
{
    lemma_conditional_branch_case(cond, imm8, xpsr);
    lemma_unconditional_branch_case(imm11, xpsr);
}

proof fn lemma_alu_fields(op: u32, m: u32, dn: u32)
    by (bit_vector)
    requires
        op < 16,
        m < 8,
        dn < 8,
    ensures
        ({
            let x = ((0x4000 + op * 64 + m * 8 + dn) as u16) as u32;
            &&& x / 1024 == 16
            &&& (x / 64) % 16 == op
            &&& (x / 8) % 8 == m
            &&& x % 8 == dn
        }),
{
}

/// The 16-bit register data-processing instructions (`010000 op Rm Rdn`): `Rdn` is the
/// first operand and the destination, `Rm` the second operand, unshifted; op 0 to 15 are
/// `AND`, `EOR`, `LSL`, `LSR`, `ASR`, `ADC`, `SBC`, `ROR`, `TST`, `RSB #0` (of `Rm`),
/// `CMP`, `CMN`, `ORR`, `MUL`, `BIC` and `MVN`; flags are set outside an IT block only.
pub proof fn lemma_register_alu_decode(op: u32, m: u32, dn: u32, xpsr: XPSR)
    requires
        op < 16,
        m < 8,
        dn < 8,
    ensures
        ({
            let rdn = RegisterID::numbered(dn);
            let rm = RegisterID::numbered(m);
            let setflags = !xpsr.in_it();
            let sh = Shift { srtype: SRType::LSL, amount: 0 };
            let d = spec_decode_short((0x4000 + op * 64 + m * 8 + dn) as u16, xpsr);
            &&& op == 0 ==> d == (Instruction::And_Register { rd: rdn, rn: rdn, rm, shift: sh, setflags, setflags_depends_on_it: true })
            &&& op == 1 ==> d == (Instruction::ExclusiveOr_Register { rd: rdn, rn: rdn, rm, shift: sh, setflags, setflags_depends_on_it: true })
            &&& op == 2 ==> d == (Instruction::LogicalShiftLeft_Register { rd: rdn, rn: rdn, rm, setflags, setflags_depends_on_it: true })
            &&& op == 3 ==> d == (Instruction::LogicalShiftRight_Register { rd: rdn, rn: rdn, rm, setflags, setflags_depends_on_it: true })
            &&& op == 4 ==> d == (Instruction::ArithmeticShiftRight_Register { rd: rdn, rn: rdn, rm, setflags, setflags_depends_on_it: true })
            &&& op == 5 ==> d == (Instruction::AddWithCarry_Register { rd: rdn, rn: rdn, rm, shift: sh, setflags, setflags_depends_on_it: true })
            &&& op == 6 ==> d == (Instruction::SubtractWithCarry_Register { rd: rdn, rn: rdn, rm, shift: sh, setflags, setflags_depends_on_it: true })
            &&& op == 7 ==> d == (Instruction::RotateRight_Register { rd: rdn, rn: rdn, rm, setflags, setflags_depends_on_it: true })
            &&& op == 8 ==> d == (Instruction::Test_Register { rn: rdn, rm, shift: sh })
            &&& op == 9 ==> d == (Instruction::ReverseSubtract_Immediate { rd: rdn, rn: rm, imm32: 0, setflags, setflags_depends_on_it: true })
            &&& op == 10 ==> d == (Instruction::Compare_Register { rn: rdn, rm, shift: sh })
            &&& op == 11 ==> d == (Instruction::CompareNegative_Register { rn: rdn, rm, shift: sh })
            &&& op == 12 ==> d == (Instruction::LogicalOr_Register { rd: rdn, rn: rdn, rm, shift: sh, setflags, setflags_depends_on_it: true })
            &&& op == 13 ==> d == (Instruction::Multiply { rd: rdn, rn: rm, rm: rdn, setflags, setflags_depends_on_it: true })
            &&& op == 14 ==> d == (Instruction::BitClear_Register { rd: rdn, rn: rdn, rm, shift: sh, setflags, setflags_depends_on_it: true })
            &&& op == 15 ==> d == (Instruction::BitwiseNot_Register { rd: rdn, rm, shift: sh, setflags, setflags_depends_on_it: true })
        }),
{
    lemma_alu_fields(op, m, dn);
    let x = ((0x4000 + op * 64 + m * 8 + dn) as u16) as u32;
    assert(spec_decode_short(x as u16, xpsr) == spec_data_processing(x, xpsr));
}

} // verus!
