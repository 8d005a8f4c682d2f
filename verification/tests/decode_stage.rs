use cmemu_lib::common::Address;
use cmemu_lib::decode::{Brchstat, DecodeState, TriggerData};
use cmemu_lib::decode_stage::{Decode, DecodeView, LrFlagConfig};
use cmemu_lib::fetch::buffers::FDReg;
use cmemu_lib::instruction::Instruction;
use cmemu_lib::registers::{Condition, RegisterBitmap, RegisterID, XPSR};

fn flags() -> XPSR {
    XPSR { negative: false, zero: false, carry: false, overflow: false, saturation: false, itstate: 0 }
}

fn config() -> LrFlagConfig {
    LrFlagConfig { clear_only_without_phony_nop: false, skipped_sets_flag: true, bl_sets_flag: false }
}

fn view(head: &[u16], address: u32) -> DecodeView {
    let first = if head.is_empty() { 0 } else { head[0] };
    let second = if head.len() < 2 { 0 } else { head[1] };
    DecodeView {
        head: FDReg::from_halfwords(head),
        head_address: Address(address),
        shadow_head: FDReg::from_halfwords(&[first, second]),
        last_effective_instruction: None,
        flags_on_critical_path_to_agu: false,
        execute_is_free: true,
        registers: [0; 16],
        lr_returns_from_exception: false,
    }
}

fn decode_current(dirty: u16, xpsr: XPSR) -> TriggerData {
    TriggerData::DecodeCurrent { dirty_registers: RegisterBitmap(dirty), xpsr, postponed_advance_head: false }
}

fn ready_step(decode: &Decode) -> cmemu_lib::decode::PipelineStepPack {
    match decode.state {
        DecodeState::ResultReady { value, .. } => value,
        _ => panic!("decode is not ready"),
    }
}

#[test]
fn decodes_a_narrow_instruction() {
    let mut d = Decode::new(config());
    assert!(!d.is_ready());
    let actions = d.run_decode(decode_current(0, flags()), &view(&[0x2005, 0xbf00], 0x100));
    assert!(d.is_ready());
    assert_eq!(actions.agu_result, None);
    assert_eq!(actions.decode_time_branch, None);
    let step = ready_step(&d);
    assert_eq!(step.instruction, Instruction::Move_Immediate {
        rd: RegisterID::R0,
        imm32: 5,
        setflags: true,
        setflags_depends_on_it: true,
        carry: false,
    });
    assert_eq!(step.address, Address(0x100));
    assert_eq!(step.length, 1);
    assert_eq!(step.folded_instruction, None);
    assert_eq!(d.get_decoded_size(), (1, false));
}

#[test]
fn folds_a_following_it() {
    let mut d = Decode::new(config());
    d.run_decode(decode_current(0, flags()), &view(&[0x2005, 0xbf18], 0x100));
    let step = ready_step(&d);
    assert_eq!(step.folded_instruction, Some(Instruction::IfThen { firstcond: Condition(1), mask: 8 }));
    assert_eq!(step.length, 2);
    assert_eq!(d.get_decoded_size(), (2, true));
}

#[test]
fn waits_for_the_second_halfword_of_a_wide_instruction() {
    let mut d = Decode::new(config());
    d.run_decode(decode_current(0, flags()), &view(&[0xf000], 0x100));
    assert!(matches!(d.state, DecodeState::WaitingForFetchAndExecute));
    d.run_decode(decode_current(0, flags()), &view(&[0xf000, 0xf800], 0x100));
    assert!(d.is_ready());
    assert_eq!(ready_step(&d).length, 2);
}

#[test]
fn hands_decode_time_branches_to_fetch() {
    let mut d = Decode::new(config());
    let actions = d.run_decode(decode_current(0, flags()), &view(&[0xe7fe], 0x200));
    assert_eq!(actions.decode_time_branch, Some((0x200, Brchstat::DecodeTimeUnconditional, false)));
    let step = ready_step(&d);
    assert_eq!(step.branch_kind, Brchstat::DecodeTimeUnconditional);
    assert!(!step.branch_was_mispredicted);

    // BL to the next instruction
    let mut d = Decode::new(config());
    let actions = d.run_decode(decode_current(0, flags()), &view(&[0xf000, 0xf800], 0x1000));
    assert_eq!(actions.decode_time_branch, Some((0x1004, Brchstat::DecodeTimeUnconditional, false)));
}

#[test]
fn speculative_branch_is_resolved_in_the_next_cycle() {
    let mut d = Decode::new(config());
    // BEQ to itself, with Z clear: predicted taken, will not be taken
    let actions = d.run_decode(decode_current(0, flags()), &view(&[0xd0fe], 0x300));
    assert_eq!(actions.decode_time_branch, Some((0x300, Brchstat::DecodeTimeConditionalBackwards, true)));
    let actions = d.run_decode(decode_current(0, flags()), &view(&[0xd0fe], 0x300));
    assert_eq!(actions.speculation, Some(false));
    assert_eq!(ready_step(&d).branch_kind, Brchstat::NoBranch);

    // with Z set it is taken
    let z = XPSR { zero: true, ..flags() };
    let mut d = Decode::new(config());
    let actions = d.run_decode(decode_current(0, z), &view(&[0xd0fe], 0x300));
    assert_eq!(actions.decode_time_branch, Some((0x300, Brchstat::DecodeTimeConditionalBackwards, false)));
    let actions = d.run_decode(decode_current(0, z), &view(&[0xd0fe], 0x300));
    assert_eq!(actions.speculation, Some(true));
    assert_eq!(ready_step(&d).branch_kind, Brchstat::ConditionalTaken);
}

#[test]
fn agu_computes_the_address() {
    let mut d = Decode::new(config());
    let mut v = view(&[0x6848], 0x100);
    v.registers[1] = 0x2000_0000;
    let actions = d.run_decode(decode_current(0, flags()), &v);
    assert_eq!(actions.agu_result, Some(0x2000_0004));
    assert!(d.is_ready());
    assert_eq!(ready_step(&d).branch_kind, Brchstat::NoBranch);
}

#[test]
fn agu_waits_for_a_written_register() {
    let mut d = Decode::new(config());
    let mut v = view(&[0x6848], 0x100);
    v.registers[1] = 0x2000_0000;
    let actions = d.run_decode(decode_current(1 << 1, flags()), &v);
    assert_eq!(actions.agu_result, None);
    assert!(d.is_agu_stalled());
    assert_eq!(d.fast_forward_agu_register(RegisterID::R2, 7, &v.registers), None);
    assert_eq!(d.fast_forward_agu_register(RegisterID::R1, 0x1000, &v.registers), Some(0x1004));
    assert!(d.is_ready());
}

#[test]
fn literal_loads_read_the_aligned_pc() {
    let mut d = Decode::new(config());
    // LDR R0, [PC, #4] at 0x102: Align(0x106, 4) + 4
    let actions = d.run_decode(decode_current(0, flags()), &view(&[0x4801], 0x102));
    assert_eq!(actions.agu_result, Some(0x108));
}

#[test]
fn ignoring_a_cycle_drops_the_result() {
    let mut d = Decode::new(config());
    d.run_decode(decode_current(0, flags()), &view(&[0x2005], 0x100));
    assert!(d.is_ready());
    let actions = d.run_decode(TriggerData::IgnoreCurrent, &view(&[0x2005], 0x100));
    assert!(!d.is_ready());
    assert!(matches!(d.state, DecodeState::WaitingForFetchAndExecute));
    assert_eq!(actions.agu_result, None);
    assert_eq!(actions.decode_time_branch, None);
    assert_eq!(actions.speculation, None);
}

#[test]
fn writing_lr_makes_bx_lr_an_execute_time_branch() {
    let mut d = Decode::new(config());
    // MOV LR, R0
    d.run_decode(decode_current(0, flags()), &view(&[0x4686], 0x100));
    let moved = d.move_pipeline(false);
    assert_eq!(moved.step.instruction, Instruction::Move_Register { rd: RegisterID::LR, rm: RegisterID::R0, setflags: false });
    assert!(d.prev_instruction_writes_lr);
    assert!(matches!(d.state, DecodeState::WaitingForFetchAndExecute));
    // BX LR
    let actions = d.run_decode(decode_current(0, flags()), &view(&[0x4770], 0x102));
    assert_eq!(actions.decode_time_branch, None);
    assert_eq!(ready_step(&d).branch_kind, Brchstat::ExecuteTimeUnconditional);
}

#[test]
fn bx_lr_reads_lr_at_decode_time() {
    let mut d = Decode::new(config());
    let mut v = view(&[0x4770], 0x100);
    v.registers[14] = 0x0000_2001;
    let actions = d.run_decode(decode_current(0, flags()), &v);
    assert_eq!(actions.decode_time_branch, Some((0x2001, Brchstat::DecodeTimeUnconditional, false)));
    // returning from an exception is left to execute
    let mut d = Decode::new(config());
    v.lr_returns_from_exception = true;
    let actions = d.run_decode(decode_current(0, flags()), &v);
    assert_eq!(actions.decode_time_branch, None);
    assert_eq!(ready_step(&d).branch_kind, Brchstat::ExecuteTimeUnconditional);
}

#[test]
fn bl_sets_the_lr_flag_only_if_configured() {
    let mut d = Decode::new(config());
    d.run_decode(decode_current(0, flags()), &view(&[0xf000, 0xf800], 0x100));
    d.move_pipeline(false);
    assert!(!d.prev_instruction_writes_lr);
    let mut d = Decode::new(LrFlagConfig { bl_sets_flag: true, ..config() });
    d.run_decode(decode_current(0, flags()), &view(&[0xf000, 0xf800], 0x100));
    d.move_pipeline(false);
    assert!(d.prev_instruction_writes_lr);
}

#[test]
fn peeks_the_ready_instruction() {
    let mut d = Decode::new(config());
    d.run_decode(decode_current(0, flags()), &view(&[0x2005, 0xbf18], 0x100));
    let (instr, skipped, folded, tainted) = d.peek_instruction(&FDReg::from_halfwords(&[0x2005, 0xbf18]));
    assert_eq!(instr, ready_step(&d).instruction);
    assert!(!skipped);
    assert_eq!(folded, ready_step(&d).folded_instruction.is_some());
    assert!(tainted);
    // Whether an instruction is folded does not depend on the shadow head.
    let (_, _, folded_again, tainted_again) = d.peek_instruction(&FDReg::from_halfwords(&[0x2005, 0]));
    assert_eq!(folded_again, folded);
    assert!(!tainted_again);
    let (_, _, it_bits) = d.move_pipeline_query(&FDReg::from_halfwords(&[0x2005, 0xbf18]));
    assert!(it_bits);
}
