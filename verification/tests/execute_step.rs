use cmemu_lib::alu::{
    add_with_carry_word, bit_reverse_word, byte_reverse_halfwords_word,
    byte_reverse_signed_halfword_word, byte_reverse_word, count_leading_zeros_word,
    multiply_long_words, shift_c_word, signed_divide_word, signed_saturate, unsigned_divide_word,
    unsigned_saturate,
};
use cmemu_lib::decode::Brchstat;
use cmemu_lib::execute::ExecutionStepResult;
use cmemu_lib::execute_step::{
    ExecuteInputs, FoldedEffects, MultiplyLongState, RegisterWrite, StepEffects, execute_folded_instruction,
    execute_instruction_step,
};
use cmemu_lib::instruction::Instruction;
use cmemu_lib::registers::{Condition, RegisterID, SRType, Shift, XPSR};

fn flags(n: bool, z: bool, c: bool, v: bool) -> XPSR {
    XPSR { negative: n, zero: z, carry: c, overflow: v, saturation: false, itstate: 0 }
}

fn inputs(registers: [u32; 16], xpsr: XPSR) -> ExecuteInputs {
    ExecuteInputs {
        registers,
        xpsr,
        next_xpsr: xpsr,
        cycle: 0,
        branch_kind: Brchstat::NoBranch,
        returns_from_exception: false,
        can_sleep: false,
        multiply_long: None,
    }
}

fn regs(values: &[(usize, u32)]) -> [u32; 16] {
    let mut r = [0u32; 16];
    r[15] = 0x1004;
    for &(i, v) in values {
        r[i] = v;
    }
    r
}

fn quiet(next: XPSR) -> StepEffects {
    StepEffects {
        result: ExecutionStepResult::NextInstruction,
        first_write: None,
        second_write: None,
        next_xpsr: next,
        late_branch: None,
        disables_fetch: false,
        pc_clean: false,
        all_clean: false,
        exception_return: None,
        multiply_long: None,
    }
}

fn write(register: RegisterID, value: u32, next: XPSR) -> StepEffects {
    StepEffects { first_write: Some(RegisterWrite { register, value }), ..quiet(next) }
}

fn lsl(amount: u8) -> Shift {
    Shift { srtype: SRType::LSL, amount }
}

#[test]
fn add_with_carry_flags() {
    assert_eq!(add_with_carry_word(1, 2, false), (3, false, false));
    assert_eq!(add_with_carry_word(0xffff_ffff, 1, false), (0, true, false));
    assert_eq!(add_with_carry_word(0x7fff_ffff, 1, false), (0x8000_0000, false, true));
    assert_eq!(add_with_carry_word(0x8000_0000, 0x8000_0000, false), (0, true, true));
    assert_eq!(add_with_carry_word(5, 6, true), (12, false, false));
    // 3 - 5 as 3 + NOT(5) + 1: a borrow clears the carry.
    assert_eq!(add_with_carry_word(3, !5, true), (0xffff_fffe, false, false));
    assert_eq!(add_with_carry_word(5, !5, true), (0, true, false));
}

#[test]
fn shifts_with_carry() {
    let x = 0x8000_0001;
    assert_eq!(shift_c_word(x, lsl(0), true), (x, true));
    assert_eq!(shift_c_word(x, lsl(1), false), (2, true));
    assert_eq!(shift_c_word(x, lsl(32), false), (0, true));
    assert_eq!(shift_c_word(x, lsl(33), true), (0, false));
    assert_eq!(shift_c_word(x, Shift { srtype: SRType::LSR, amount: 1 }, false), (0x4000_0000, true));
    assert_eq!(shift_c_word(x, Shift { srtype: SRType::LSR, amount: 32 }, false), (0, true));
    assert_eq!(shift_c_word(x, Shift { srtype: SRType::ASR, amount: 4 }, false), (0xf800_0000, false));
    assert_eq!(shift_c_word(x, Shift { srtype: SRType::ASR, amount: 40 }, false), (0xffff_ffff, true));
    assert_eq!(shift_c_word(x, Shift { srtype: SRType::ROR, amount: 1 }, false), (0xc000_0000, true));
    assert_eq!(shift_c_word(x, Shift { srtype: SRType::ROR, amount: 32 }, false), (x, true));
    assert_eq!(shift_c_word(x, Shift { srtype: SRType::RRX, amount: 1 }, false), (0x4000_0000, true));
    assert_eq!(shift_c_word(2, Shift { srtype: SRType::RRX, amount: 1 }, true), (0x8000_0001, false));
}

#[test]
fn saturation() {
    assert_eq!(signed_saturate(100, 8), (100, false));
    assert_eq!(signed_saturate(200, 8), (127, true));
    assert_eq!(signed_saturate(0xffff_ff00, 8), (0xffff_ff80, true));
    assert_eq!(signed_saturate(0x8000_0000, 32), (0x8000_0000, false));
    assert_eq!(unsigned_saturate(300, 8), (255, true));
    assert_eq!(unsigned_saturate(0xffff_ffff, 8), (0, true));
    assert_eq!(unsigned_saturate(17, 8), (17, false));
}

#[test]
fn bit_and_byte_manipulation() {
    assert_eq!(bit_reverse_word(1), 0x8000_0000);
    assert_eq!(bit_reverse_word(0x0000_00f0), 0x0f00_0000);
    assert_eq!(byte_reverse_word(0x1122_3344), 0x4433_2211);
    assert_eq!(byte_reverse_halfwords_word(0x1122_3344), 0x2211_4433);
    assert_eq!(byte_reverse_signed_halfword_word(0x0000_0080), 0xffff_8000);
    assert_eq!(byte_reverse_signed_halfword_word(0x0000_7f12), 0x0000_127f);
    assert_eq!(count_leading_zeros_word(0), 32);
    assert_eq!(count_leading_zeros_word(1), 31);
    assert_eq!(count_leading_zeros_word(0x8000_0000), 0);
}

#[test]
fn multiplication_and_division() {
    assert_eq!(multiply_long_words(0xffff_ffff, 0xffff_ffff, false, 0, 0), (0xffff_fffe, 1));
    assert_eq!(multiply_long_words(0xffff_ffff, 2, true, 0, 0), (0xffff_ffff, 0xffff_fffe));
    assert_eq!(multiply_long_words(2, 3, false, 0xffff_ffff, 0xffff_ffff), (0, 5));
    assert_eq!(unsigned_divide_word(7, 2), 3);
    assert_eq!(unsigned_divide_word(7, 0), 0);
    assert_eq!(signed_divide_word(0xffff_fff9, 2), 0xffff_fffd);
    assert_eq!(signed_divide_word(0x8000_0000, 0xffff_ffff), 0x8000_0000);
    assert_eq!(signed_divide_word(5, 0), 0);
}

#[test]
fn adds_sets_all_flags() {
    let instr = Instruction::Add_Register {
        rd: RegisterID::R0,
        rn: RegisterID::R1,
        rm: RegisterID::R2,
        shift: lsl(0),
        setflags: true,
        setflags_depends_on_it: false,
    };
    let inp = inputs(regs(&[(1, 0x7fff_ffff), (2, 1)]), flags(false, false, false, false));
    assert_eq!(
        execute_instruction_step(&instr, &inp),
        Some(write(RegisterID::R0, 0x8000_0000, flags(true, false, false, true)))
    );
}

#[test]
fn add_without_setflags_keeps_flags() {
    let instr = Instruction::Add_Immediate {
        rd: RegisterID::R3,
        rn: RegisterID::R3,
        imm32: 1,
        setflags: false,
        setflags_depends_on_it: false,
    };
    let xpsr = flags(true, true, true, true);
    let inp = inputs(regs(&[(3, 0xffff_ffff)]), xpsr);
    assert_eq!(execute_instruction_step(&instr, &inp), Some(write(RegisterID::R3, 0, xpsr)));
}

#[test]
fn compare_sets_flags_only() {
    let instr = Instruction::Compare_Immediate { rn: RegisterID::R0, imm32: 5 };
    let inp = inputs(regs(&[(0, 3)]), flags(false, false, false, false));
    assert_eq!(execute_instruction_step(&instr, &inp), Some(quiet(flags(true, false, false, false))));
    let inp = inputs(regs(&[(0, 5)]), flags(false, false, false, false));
    assert_eq!(execute_instruction_step(&instr, &inp), Some(quiet(flags(false, true, true, false))));
}

#[test]
fn logical_shift_by_register_takes_the_low_byte() {
    let instr = Instruction::LogicalShiftLeft_Register {
        rd: RegisterID::R0,
        rn: RegisterID::R1,
        rm: RegisterID::R2,
        setflags: true,
        setflags_depends_on_it: false,
    };
    let inp = inputs(regs(&[(1, 0x8000_0003), (2, 0x101)]), flags(false, false, false, false));
    assert_eq!(
        execute_instruction_step(&instr, &inp),
        Some(write(RegisterID::R0, 6, flags(false, false, true, false)))
    );
}

#[test]
fn ands_takes_the_carry_of_the_shift() {
    let instr = Instruction::And_Register {
        rd: RegisterID::R0,
        rn: RegisterID::R1,
        rm: RegisterID::R2,
        shift: Shift { srtype: SRType::LSR, amount: 1 },
        setflags: true,
        setflags_depends_on_it: false,
    };
    let inp = inputs(regs(&[(1, 0xffff_ffff), (2, 3)]), flags(false, false, false, true));
    assert_eq!(
        execute_instruction_step(&instr, &inp),
        Some(write(RegisterID::R0, 1, flags(false, false, true, true)))
    );
}

#[test]
fn add_to_pc_is_a_late_branch() {
    let instr = Instruction::Add_Register {
        rd: RegisterID::PC,
        rn: RegisterID::PC,
        rm: RegisterID::R1,
        shift: lsl(0),
        setflags: false,
        setflags_depends_on_it: false,
    };
    let xpsr = flags(false, false, false, false);
    let inp = inputs(regs(&[(1, 0x11)]), xpsr);
    assert_eq!(
        execute_instruction_step(&instr, &inp),
        Some(StepEffects {
            result: ExecutionStepResult::LateBranch,
            late_branch: Some(0x1014),
            disables_fetch: true,
            pc_clean: true,
            ..quiet(xpsr)
        })
    );
}

#[test]
fn address_to_register_aligns_the_pc() {
    let instr = Instruction::AddressToRegister { rd: RegisterID::R0, imm32: 8, add: true };
    let xpsr = flags(false, false, false, false);
    let inp = inputs(regs(&[(15, 0x1006)]), xpsr);
    assert_eq!(execute_instruction_step(&instr, &inp), Some(write(RegisterID::R0, 0x100c, xpsr)));
    let instr = Instruction::AddressToRegister { rd: RegisterID::R0, imm32: 8, add: false };
    assert_eq!(execute_instruction_step(&instr, &inp), Some(write(RegisterID::R0, 0xffc, xpsr)));
}

#[test]
fn branch_with_link_writes_the_return_address() {
    let instr = Instruction::BranchWithLink_Immediate { imm32: 0x100 };
    let xpsr = flags(false, false, false, false);
    let mut inp = inputs(regs(&[]), xpsr);
    inp.branch_kind = Brchstat::DecodeTimeUnconditional;
    assert_eq!(
        execute_instruction_step(&instr, &inp),
        Some(StepEffects {
            result: ExecutionStepResult::DecodeTimeBranch { address: 0x1104, was_speculative: false },
            first_write: Some(RegisterWrite { register: RegisterID::LR, value: 0x1005 }),
            pc_clean: true,
            ..quiet(xpsr)
        })
    );
}

#[test]
fn branch_and_exchange_to_exception_return() {
    let instr = Instruction::BranchAndExchange { rm: RegisterID::LR };
    let xpsr = flags(false, false, false, false);
    let mut inp = inputs(regs(&[(14, 0xffff_fff9)]), xpsr);
    inp.branch_kind = Brchstat::ExecuteTimeUnconditional;
    inp.returns_from_exception = true;
    assert_eq!(
        execute_instruction_step(&instr, &inp),
        Some(StepEffects {
            result: ExecutionStepResult::ExceptionReturn,
            pc_clean: true,
            exception_return: Some(0xffff_fff9),
            ..quiet(xpsr)
        })
    );
    inp.returns_from_exception = false;
    inp.registers[14] = 0x2001;
    assert_eq!(
        execute_instruction_step(&instr, &inp),
        Some(StepEffects {
            result: ExecutionStepResult::ExecuteTimeBranch { address: 0x2000 },
            pc_clean: true,
            ..quiet(xpsr)
        })
    );
}

#[test]
fn compare_and_branch() {
    let instr = Instruction::CompareAndBranch { rn: RegisterID::R0, imm32: 0x20, nonzero: false };
    let xpsr = flags(false, false, false, false);
    let inp = inputs(regs(&[(0, 0)]), xpsr);
    assert_eq!(
        execute_instruction_step(&instr, &inp),
        Some(StepEffects {
            result: ExecutionStepResult::ExecuteTimeBranch { address: 0x1024 },
            pc_clean: true,
            ..quiet(xpsr)
        })
    );
    let inp = inputs(regs(&[(0, 1)]), xpsr);
    assert_eq!(
        execute_instruction_step(&instr, &inp),
        Some(StepEffects { result: ExecutionStepResult::BranchNotTaken, pc_clean: true, ..quiet(xpsr) })
    );
}

#[test]
fn instruction_failing_its_it_condition_is_skipped() {
    // ITSTATE: condition EQ, two more instructions in the block.
    let xpsr = XPSR { itstate: 0x04, ..flags(false, false, false, false) };
    let instr = Instruction::Move_Immediate {
        rd: RegisterID::R0,
        imm32: 1,
        setflags: false,
        setflags_depends_on_it: true,
        carry: false,
    };
    let inp = inputs(regs(&[]), xpsr);
    assert_eq!(
        execute_instruction_step(&instr, &inp),
        Some(StepEffects {
            result: ExecutionStepResult::Skipped,
            all_clean: true,
            ..quiet(XPSR { itstate: 0x08, ..xpsr })
        })
    );
    // With Z set the condition holds: executed, and the IT state advances as well.
    let xpsr = XPSR { zero: true, ..xpsr };
    let inp = inputs(regs(&[]), xpsr);
    assert_eq!(
        execute_instruction_step(&instr, &inp),
        Some(write(RegisterID::R0, 1, XPSR { itstate: 0x08, ..xpsr }))
    );
}

#[test]
fn if_then_sets_the_it_state() {
    let instr = Instruction::IfThen { firstcond: Condition(1), mask: 8 };
    let xpsr = flags(false, false, false, false);
    let inp = inputs(regs(&[]), xpsr);
    assert_eq!(execute_instruction_step(&instr, &inp), Some(quiet(XPSR { itstate: 0x18, ..xpsr })));
}

#[test]
fn long_multiply_writes_low_then_high() {
    let instr = Instruction::UnsignedMultiplyLong {
        rd_lo: RegisterID::R0,
        rd_hi: RegisterID::R1,
        rn: RegisterID::R2,
        rm: RegisterID::R3,
    };
    let xpsr = flags(false, false, false, false);
    let mut inp = inputs(regs(&[(2, 0x1_0000), (3, 0x1_0000)]), xpsr);
    let state = MultiplyLongState { result_hi: 1, result_lo: 0, write_hi_cycle: 2, write_lo_cycle: 1 };
    assert_eq!(
        execute_instruction_step(&instr, &inp),
        Some(StepEffects {
            result: ExecutionStepResult::Continue { trigger_decode: true, lsu_branch_expected: false },
            multiply_long: Some(state),
            ..quiet(xpsr)
        })
    );
    inp.cycle = 1;
    inp.multiply_long = Some(state);
    assert_eq!(
        execute_instruction_step(&instr, &inp),
        Some(StepEffects {
            result: ExecutionStepResult::Continue { trigger_decode: true, lsu_branch_expected: false },
            first_write: Some(RegisterWrite { register: RegisterID::R0, value: 0 }),
            ..quiet(xpsr)
        })
    );
    inp.cycle = 2;
    assert_eq!(
        execute_instruction_step(&instr, &inp),
        Some(StepEffects {
            second_write: Some(RegisterWrite { register: RegisterID::R1, value: 1 }),
            ..quiet(xpsr)
        })
    );
}

#[test]
fn multiply_accumulate_takes_two_cycles() {
    let instr = Instruction::MultiplyAccumulate {
        rd: RegisterID::R0,
        rn: RegisterID::R1,
        rm: RegisterID::R2,
        ra: RegisterID::R3,
        setflags: false,
    };
    let xpsr = flags(false, false, false, false);
    let mut inp = inputs(regs(&[(1, 6), (2, 7), (3, 0xffff_ffff)]), xpsr);
    assert_eq!(
        execute_instruction_step(&instr, &inp),
        Some(StepEffects {
            result: ExecutionStepResult::Continue { trigger_decode: true, lsu_branch_expected: false },
            ..quiet(xpsr)
        })
    );
    inp.cycle = 1;
    assert_eq!(execute_instruction_step(&instr, &inp), Some(write(RegisterID::R0, 41, xpsr)));
}

#[test]
fn unsigned_divide_writes_in_its_last_cycle() {
    let instr = Instruction::UnsignedDivide { rd: RegisterID::R0, rn: RegisterID::R1, rm: RegisterID::R2 };
    let xpsr = flags(false, false, false, false);
    let mut inp = inputs(regs(&[(1, 100), (2, 3)]), xpsr);
    inp.cycle = 4;
    assert_eq!(
        execute_instruction_step(&instr, &inp),
        Some(StepEffects {
            result: ExecutionStepResult::Continue { trigger_decode: true, lsu_branch_expected: false },
            ..quiet(xpsr)
        })
    );
    inp.cycle = 5;
    assert_eq!(execute_instruction_step(&instr, &inp), Some(write(RegisterID::R0, 33, xpsr)));
}

#[test]
fn bit_field_and_extension_instructions() {
    let xpsr = flags(false, false, false, false);
    let inp = inputs(regs(&[(0, 0xffff_ffff), (1, 0x0000_00a5)]), xpsr);
    let bfc = Instruction::BitFieldClear { rd: RegisterID::R0, msbit: 7, lsbit: 4 };
    assert_eq!(execute_instruction_step(&bfc, &inp), Some(write(RegisterID::R0, 0xffff_ff0f, xpsr)));
    let bfi = Instruction::BitFieldInsert { rd: RegisterID::R0, rn: RegisterID::R1, msbit: 11, lsbit: 4 };
    assert_eq!(execute_instruction_step(&bfi, &inp), Some(write(RegisterID::R0, 0xffff_fa5f, xpsr)));
    let ubfx = Instruction::UnsignedBitFieldExtract { rd: RegisterID::R2, rn: RegisterID::R1, lsbit: 4, widthminus1: 3 };
    assert_eq!(execute_instruction_step(&ubfx, &inp), Some(write(RegisterID::R2, 0xa, xpsr)));
    let sbfx = Instruction::SignedBitFieldExtract { rd: RegisterID::R2, rn: RegisterID::R1, lsbit: 4, widthminus1: 3 };
    assert_eq!(execute_instruction_step(&sbfx, &inp), Some(write(RegisterID::R2, 0xffff_fffa, xpsr)));
    let sxtb = Instruction::SignedExtendByte {
        rd: RegisterID::R2,
        rm: RegisterID::R1,
        rotation: Shift { srtype: SRType::ROR, amount: 0 },
    };
    assert_eq!(execute_instruction_step(&sxtb, &inp), Some(write(RegisterID::R2, 0xffff_ffa5, xpsr)));
    let uxth = Instruction::UnsignedExtendHalfword {
        rd: RegisterID::R2,
        rm: RegisterID::R0,
        rotation: Shift { srtype: SRType::ROR, amount: 8 },
    };
    assert_eq!(execute_instruction_step(&uxth, &inp), Some(write(RegisterID::R2, 0xffff, xpsr)));
    let movt = Instruction::MoveTop { rd: RegisterID::R1, imm16: 0x1234 };
    assert_eq!(execute_instruction_step(&movt, &inp), Some(write(RegisterID::R1, 0x1234_00a5, xpsr)));
}

#[test]
fn saturation_sets_the_q_flag() {
    let instr = Instruction::SignedSaturate { rd: RegisterID::R0, rn: RegisterID::R1, saturate_to: 8, shift: lsl(0) };
    let xpsr = flags(false, false, false, false);
    let inp = inputs(regs(&[(1, 1000)]), xpsr);
    assert_eq!(
        execute_instruction_step(&instr, &inp),
        Some(write(RegisterID::R0, 127, XPSR { saturation: true, ..xpsr }))
    );
}

#[test]
fn memory_instructions_are_executed_elsewhere() {
    let instr = Instruction::LoadRegister_Immediate {
        rt: RegisterID::R0,
        rn: RegisterID::R1,
        imm32: 0,
        index: true,
        add: true,
        wback: false,
    };
    let inp = inputs(regs(&[]), flags(false, false, false, false));
    assert_eq!(execute_instruction_step(&instr, &inp), None);
}

#[test]
fn wait_for_interrupt_sleeps_when_it_can() {
    let xpsr = flags(false, false, false, false);
    let mut inp = inputs(regs(&[]), xpsr);
    let instr = Instruction::WaitForInterrupt;
    assert_eq!(
        execute_instruction_step(&instr, &inp),
        Some(StepEffects { result: ExecutionStepResult::PreSleep, disables_fetch: true, ..quiet(xpsr) })
    );
    inp.cycle = 1;
    assert_eq!(
        execute_instruction_step(&instr, &inp),
        Some(StepEffects { result: ExecutionStepResult::PreSleep, ..quiet(xpsr) })
    );
    inp.can_sleep = true;
    assert_eq!(
        execute_instruction_step(&instr, &inp),
        Some(StepEffects { result: ExecutionStepResult::Sleep, ..quiet(xpsr) })
    );
}

#[test]
fn folded_it_sets_the_it_state_built_by_the_main_instruction() {
    let next = flags(true, false, true, false);
    let it = Instruction::IfThen { firstcond: Condition(0), mask: 0b1100 };
    assert_eq!(
        execute_folded_instruction(Some(it), next),
        FoldedEffects { next_xpsr: XPSR { itstate: 0x0c, ..next }, counts_fold: true }
    );
    assert_eq!(
        execute_folded_instruction(None, next),
        FoldedEffects { next_xpsr: next, counts_fold: false }
    );
}

#[test]
fn decoded_adds_executes_with_flags() {
    use_decoder_then_execute();
}

fn use_decoder_then_execute() {
    // ADDS r0, r1, r2 outside an IT block.
    let xpsr = flags(false, false, false, false);
    let instr = cmemu_lib::thumb16::decode_short_instruction(0x1888, xpsr);
    let inp = inputs(regs(&[(1, 0xffff_ffff), (2, 1)]), xpsr);
    assert_eq!(
        execute_instruction_step(&instr, &inp),
        Some(write(RegisterID::R0, 0, flags(false, true, true, false)))
    );
}

#[test]
fn multiply_low_word_and_nonnegative_division() {
    let xpsr = flags(false, false, false, false);
    let mul = Instruction::Multiply {
        rd: RegisterID::R0,
        rn: RegisterID::R1,
        rm: RegisterID::R2,
        setflags: true,
        setflags_depends_on_it: false,
    };
    // -1 * 2 and 0xffff_ffff * 2 share their low word.
    let inp = inputs(regs(&[(1, 0xffff_ffff), (2, 2)]), xpsr);
    assert_eq!(
        execute_instruction_step(&mul, &inp),
        Some(write(RegisterID::R0, 0xffff_fffe, flags(true, false, false, false)))
    );
    assert_eq!(signed_divide_word(100, 7), unsigned_divide_word(100, 7));
}
