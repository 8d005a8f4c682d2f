use cmemu_lib::instruction::Instruction;
use cmemu_lib::registers::{Condition, RegisterBitmap, RegisterID, SRType, Shift, XPSR};
use cmemu_lib::thumb16::decode_short_instruction;
use cmemu_lib::thumb32::{decode_long_instruction, thumb_expand_imm, thumb_expand_imm_c};

fn outside_it() -> XPSR {
    XPSR { negative: false, zero: false, carry: false, overflow: false, saturation: false, itstate: 0 }
}

/// Last instruction of an IT block with condition EQ.
fn last_in_it() -> XPSR {
    XPSR { itstate: 0x08, ..outside_it() }
}

/// First of two instructions of an IT block with condition EQ.
fn inside_it() -> XPSR {
    XPSR { itstate: 0x04, ..outside_it() }
}

fn lsl(amount: u8) -> Shift {
    Shift { srtype: SRType::LSL, amount }
}

#[test]
fn short_branch_and_exchange() {
    assert_eq!(decode_short_instruction(0x4770, outside_it()), Instruction::BranchAndExchange { rm: RegisterID::LR });
    assert_eq!(decode_short_instruction(0x4700, outside_it()), Instruction::BranchAndExchange { rm: RegisterID::R0 });
    // a (0) bit set
    assert_eq!(decode_short_instruction(0x4701, outside_it()), Instruction::Unpredictable);
    // not the last instruction of an IT block
    assert_eq!(decode_short_instruction(0x4770, inside_it()), Instruction::Unpredictable);
    assert_eq!(decode_short_instruction(0x4770, last_in_it()), Instruction::BranchAndExchange { rm: RegisterID::LR });
}

#[test]
fn short_push_pop() {
    assert_eq!(
        decode_short_instruction(0xb580, outside_it()),
        Instruction::StoreMultipleDecrementBefore { rn: RegisterID::SP, registers: RegisterBitmap(0x4080), wback: true }
    );
    assert_eq!(
        decode_short_instruction(0xbd80, outside_it()),
        Instruction::LoadMultiple { rn: RegisterID::SP, registers: RegisterBitmap(0x8080), wback: true, is_narrow: true }
    );
    // empty register list
    assert_eq!(decode_short_instruction(0xb400, outside_it()), Instruction::Unpredictable);
}

#[test]
fn short_branches() {
    assert_eq!(decode_short_instruction(0xe7fe, outside_it()), Instruction::Branch { cond: Condition(14), imm32: 0xffff_fffc });
    assert_eq!(decode_short_instruction(0xd0fe, outside_it()), Instruction::Branch { cond: Condition(0), imm32: 0xffff_fffc });
    assert_eq!(decode_short_instruction(0xd003, outside_it()), Instruction::Branch { cond: Condition(0), imm32: 6 });
    // conditional branch inside an IT block
    assert_eq!(decode_short_instruction(0xd003, last_in_it()), Instruction::Unpredictable);
    assert_eq!(
        decode_short_instruction(0xb168, outside_it()),
        Instruction::CompareAndBranch { rn: RegisterID::R0, imm32: 26, nonzero: false }
    );
    assert_eq!(decode_short_instruction(0xdf01, outside_it()), Instruction::SupervisorCall { imm32: 1 });
    assert_eq!(decode_short_instruction(0xde07, outside_it()), Instruction::PermanentlyUndefined { imm32: 7 });
}

#[test]
fn short_data_processing() {
    assert_eq!(
        decode_short_instruction(0x2005, outside_it()),
        Instruction::Move_Immediate { rd: RegisterID::R0, imm32: 5, setflags: true, setflags_depends_on_it: true, carry: false }
    );
    // flags are not set inside an IT block
    assert_eq!(
        decode_short_instruction(0x2005, last_in_it()),
        Instruction::Move_Immediate { rd: RegisterID::R0, imm32: 5, setflags: false, setflags_depends_on_it: true, carry: false }
    );
    assert_eq!(
        decode_short_instruction(0x1840, outside_it()),
        Instruction::Add_Register {
            rd: RegisterID::R0,
            rn: RegisterID::R0,
            rm: RegisterID::R1,
            shift: lsl(0),
            setflags: true,
            setflags_depends_on_it: true,
        }
    );
    assert_eq!(
        decode_short_instruction(0x46bd, outside_it()),
        Instruction::Move_Register { rd: RegisterID::SP, rm: RegisterID::R7, setflags: false }
    );
    assert_eq!(
        decode_short_instruction(0xb082, outside_it()),
        Instruction::Subtract_SPMinusImmediate { rd: RegisterID::SP, imm32: 8, setflags: false }
    );
    assert_eq!(
        decode_short_instruction(0xb240, outside_it()),
        Instruction::SignedExtendByte { rd: RegisterID::R0, rm: RegisterID::R0, rotation: Shift { srtype: SRType::ROR, amount: 0 } }
    );
    assert_eq!(decode_short_instruction(0xba00, outside_it()), Instruction::ByteReverseWord { rd: RegisterID::R0, rm: RegisterID::R0 });
    // LSLS R0, R0, #0 is MOVS R0, R0
    assert_eq!(decode_short_instruction(0x0000, outside_it()), Instruction::Move_Register { rd: RegisterID::R0, rm: RegisterID::R0, setflags: true });
    assert_eq!(decode_short_instruction(0x0000, last_in_it()), Instruction::Unpredictable);
}

#[test]
fn short_loads_and_stores() {
    assert_eq!(
        decode_short_instruction(0x6848, outside_it()),
        Instruction::LoadRegister_Immediate { rt: RegisterID::R0, rn: RegisterID::R1, imm32: 4, index: true, add: true, wback: false }
    );
    assert_eq!(decode_short_instruction(0x4801, outside_it()), Instruction::LoadRegister_Literal { rt: RegisterID::R0, imm32: 4, add: true });
    // LDMIA R0, {R0, R1}: the base is in the list, no writeback
    assert_eq!(
        decode_short_instruction(0xc803, outside_it()),
        Instruction::LoadMultiple { rn: RegisterID::R0, registers: RegisterBitmap(3), wback: false, is_narrow: true }
    );
    assert_eq!(
        decode_short_instruction(0xca03, outside_it()),
        Instruction::LoadMultiple { rn: RegisterID::R2, registers: RegisterBitmap(3), wback: true, is_narrow: true }
    );
}

#[test]
fn short_hints_and_it() {
    assert_eq!(decode_short_instruction(0xbf00, outside_it()), Instruction::NoOperation);
    assert_eq!(decode_short_instruction(0xbf10, outside_it()), Instruction::Unsupported { name: "YIELD" });
    assert_eq!(decode_short_instruction(0xbf30, outside_it()), Instruction::WaitForInterrupt);
    assert_eq!(decode_short_instruction(0xbf18, outside_it()), Instruction::IfThen { firstcond: Condition(1), mask: 8 });
    // IT inside an IT block
    assert_eq!(decode_short_instruction(0xbf18, last_in_it()), Instruction::Unpredictable);
    // IT AL with more than one instruction
    assert_eq!(decode_short_instruction(0xbfe6, outside_it()), Instruction::Unpredictable);
    assert_eq!(decode_short_instruction(0xbfe4, outside_it()), Instruction::IfThen { firstcond: Condition(14), mask: 4 });
    assert_eq!(
        decode_short_instruction(0xb672, outside_it()),
        Instruction::ChangeProcessorState { enable: false, disable: true, affect_pri: true, affect_fault: false }
    );
    assert_eq!(decode_short_instruction(0xb700, outside_it()), Instruction::Undefined);
    assert_eq!(decode_short_instruction(0xbe00, outside_it()), Instruction::Breakpoint { imm32: 0 });
}

#[test]
fn long_multiple_and_single_transfers() {
    assert_eq!(
        decode_long_instruction(0xe92d_4ff0, outside_it()),
        Instruction::StoreMultipleDecrementBefore { rn: RegisterID::SP, registers: RegisterBitmap(0x4ff0), wback: true }
    );
    assert_eq!(
        decode_long_instruction(0xe8bd_8ff0, outside_it()),
        Instruction::LoadMultiple { rn: RegisterID::SP, registers: RegisterBitmap(0x8ff0), wback: true, is_narrow: false }
    );
    // a single register in the list
    assert_eq!(decode_long_instruction(0xe92d_0010, outside_it()), Instruction::Unpredictable);
    assert_eq!(
        decode_long_instruction(0xf8d1_0004, outside_it()),
        Instruction::LoadRegister_Immediate { rt: RegisterID::R0, rn: RegisterID::R1, imm32: 4, index: true, add: true, wback: false }
    );
    assert_eq!(
        decode_long_instruction(0xf85d_fb04, outside_it()),
        Instruction::LoadRegister_Immediate { rt: RegisterID::PC, rn: RegisterID::SP, imm32: 4, index: false, add: true, wback: true }
    );
    assert_eq!(
        decode_long_instruction(0xf84d_0d04, outside_it()),
        Instruction::StoreRegister_Immediate { rt: RegisterID::R0, rn: RegisterID::SP, imm32: 4, index: true, add: false, wback: true }
    );
    assert_eq!(
        decode_long_instruction(0xe9d2_0102, outside_it()),
        Instruction::LoadRegisterDual_Immediate {
            rt: RegisterID::R0,
            rt2: RegisterID::R1,
            rn: RegisterID::R2,
            imm32: 8,
            index: true,
            add: true,
            wback: false,
        }
    );
    assert_eq!(
        decode_long_instruction(0xe851_0f00, outside_it()),
        Instruction::LoadRegisterExclusive { rt: RegisterID::R0, rn: RegisterID::R1, imm32: 0 }
    );
    assert_eq!(
        decode_long_instruction(0xe841_0200, outside_it()),
        Instruction::StoreRegisterExclusive { rd: RegisterID::R2, rt: RegisterID::R0, rn: RegisterID::R1, imm32: 0 }
    );
    assert_eq!(
        decode_long_instruction(0xe8d0_f001, outside_it()),
        Instruction::TableBranch { rn: RegisterID::R0, rm: RegisterID::R1, is_tbh: false }
    );
    assert_eq!(decode_long_instruction(0xf890_f000, outside_it()), Instruction::Unsupported { name: "PLD (immediate)" });
}

#[test]
fn long_immediates() {
    let x = outside_it();
    assert_eq!(
        decode_long_instruction(0xf04f_0001, x),
        Instruction::Move_Immediate { rd: RegisterID::R0, imm32: 1, setflags: false, setflags_depends_on_it: false, carry: false }
    );
    assert_eq!(
        decode_long_instruction(0xf241_2034, x),
        Instruction::Move_Immediate { rd: RegisterID::R0, imm32: 0x1234, setflags: false, setflags_depends_on_it: false, carry: false }
    );
    assert_eq!(decode_long_instruction(0xf2c1_2034, x), Instruction::MoveTop { rd: RegisterID::R0, imm16: 0x1234 });
    assert_eq!(
        decode_long_instruction(0xf101_20ff, x),
        Instruction::Add_Immediate { rd: RegisterID::R0, rn: RegisterID::R1, imm32: 0xff00_ff00, setflags: false, setflags_depends_on_it: false }
    );
    assert_eq!(
        decode_long_instruction(0xf040_4000, x),
        Instruction::LogicalOr_Immediate { rd: RegisterID::R0, rn: RegisterID::R0, imm32: 0x8000_0000, setflags: false, carry: true }
    );
    // a replicated pattern of a zero byte
    assert_eq!(decode_long_instruction(0xf000_1000, x), Instruction::Unpredictable);
    assert_eq!(decode_long_instruction(0xf1b0_0f01, x), Instruction::Compare_Immediate { rn: RegisterID::R0, imm32: 1 });
    assert_eq!(
        decode_long_instruction(0xf301_0007, x),
        Instruction::SignedSaturate { rd: RegisterID::R0, rn: RegisterID::R1, saturate_to: 8, shift: lsl(0) }
    );
}

#[test]
fn long_registers_and_multiplies() {
    let x = outside_it();
    assert_eq!(decode_long_instruction(0xfbb1_f0f2, x), Instruction::UnsignedDivide { rd: RegisterID::R0, rn: RegisterID::R1, rm: RegisterID::R2 });
    assert_eq!(decode_long_instruction(0xfb91_f0f2, x), Instruction::SignedDivide { rd: RegisterID::R0, rn: RegisterID::R1, rm: RegisterID::R2 });
    assert_eq!(
        decode_long_instruction(0xfb01_f002, x),
        Instruction::Multiply { rd: RegisterID::R0, rn: RegisterID::R1, rm: RegisterID::R2, setflags: false, setflags_depends_on_it: false }
    );
    assert_eq!(
        decode_long_instruction(0xfb01_3002, x),
        Instruction::MultiplyAccumulate { rd: RegisterID::R0, rn: RegisterID::R1, rm: RegisterID::R2, ra: RegisterID::R3, setflags: false }
    );
    assert_eq!(
        decode_long_instruction(0xfba2_0103, x),
        Instruction::UnsignedMultiplyLong { rd_lo: RegisterID::R0, rd_hi: RegisterID::R1, rn: RegisterID::R2, rm: RegisterID::R3 }
    );
    assert_eq!(
        decode_long_instruction(0xfa01_f002, x),
        Instruction::LogicalShiftLeft_Register { rd: RegisterID::R0, rn: RegisterID::R1, rm: RegisterID::R2, setflags: false, setflags_depends_on_it: false }
    );
    assert_eq!(
        decode_long_instruction(0xfa5f_f081, x),
        Instruction::UnsignedExtendByte { rd: RegisterID::R0, rm: RegisterID::R1, rotation: Shift { srtype: SRType::ROR, amount: 0 } }
    );
    assert_eq!(decode_long_instruction(0xfab1_f081, x), Instruction::CountLeadingZeros { rd: RegisterID::R0, rm: RegisterID::R1 });
    // the two copies of Rm disagree
    assert_eq!(decode_long_instruction(0xfab1_f082, x), Instruction::Unpredictable);
    assert_eq!(
        decode_long_instruction(0xea4f_0141, x),
        Instruction::LogicalShiftLeft_Immediate { rd: RegisterID::R1, rm: RegisterID::R1, shift: lsl(1), setflags: false, setflags_depends_on_it: false }
    );
}

#[test]
fn long_branches_and_control() {
    let x = outside_it();
    assert_eq!(decode_long_instruction(0xf000_f800, x), Instruction::BranchWithLink_Immediate { imm32: 0 });
    assert_eq!(decode_long_instruction(0xf7ff_fffe, x), Instruction::BranchWithLink_Immediate { imm32: 0xffff_fffc });
    assert_eq!(decode_long_instruction(0xf000_b800, x), Instruction::Branch { cond: Condition(14), imm32: 0 });
    assert_eq!(decode_long_instruction(0xf000_8000, x), Instruction::Branch { cond: Condition(0), imm32: 0 });
    assert_eq!(decode_long_instruction(0xf000_8000, last_in_it()), Instruction::Unpredictable);
    assert_eq!(decode_long_instruction(0xf3ef_8010, x), Instruction::MoveToRegisterFromSpecialRegister { rd: RegisterID::R0, sysm: 16 });
    assert_eq!(
        decode_long_instruction(0xf380_8810, x),
        Instruction::MoveToSpecialRegisterFromARMRegister { rn: RegisterID::R0, sysm: 16, mask: 2 }
    );
    assert_eq!(decode_long_instruction(0xf3bf_8f4f, x), Instruction::DataSynchronizationBarrier { option: 15 });
    assert_eq!(decode_long_instruction(0xf3bf_8f6f, x), Instruction::InstructionSynchronizationBarrier { option: 15 });
    assert_eq!(decode_long_instruction(0xf3af_8000, x), Instruction::NoOperation);
    assert_eq!(
        decode_long_instruction(0xee00_0a10, x),
        Instruction::Unsupported { name: "Coprocessor instruction. Should cause Usage Fault with UFSR.NOCP bit set to 1." }
    );
}

#[test]
fn modified_immediate_constants() {
    assert_eq!(thumb_expand_imm_c(0x0ab, true), Ok((0xab, true)));
    assert_eq!(thumb_expand_imm_c(0x1ab, false), Ok((0x00ab_00ab, false)));
    assert_eq!(thumb_expand_imm_c(0x2ab, false), Ok((0xab00_ab00, false)));
    assert_eq!(thumb_expand_imm_c(0x3ab, false), Ok((0xabab_abab, false)));
    assert_eq!(thumb_expand_imm_c(0x100, false), Err(Instruction::Unpredictable));
    // 0x80 rotated right by 8
    assert_eq!(thumb_expand_imm_c(0x400, false), Ok((0x8000_0000, true)));
    // 0xff rotated right by 31 (bits 11:7 = 11111)
    assert_eq!(thumb_expand_imm_c(0xfff, false), Ok((0x0000_01fe, false)));
    let xpsr = XPSR { carry: true, ..outside_it() };
    assert_eq!(thumb_expand_imm(0x0ab, xpsr), Ok(0xab));
}
