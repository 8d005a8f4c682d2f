use cmemu_lib::execute::ExecutionStepResult;
use cmemu_lib::execute_step::{RegisterWrite, advance_it_state};
use cmemu_lib::instruction::Instruction;
use cmemu_lib::registers::{RegisterID, XPSR};
use cmemu_lib::system_step::{
    SpecialRegisters, SystemInputs, SystemStepEffects, execute_system_instruction_step,
};

fn plain_xpsr() -> XPSR {
    XPSR { negative: false, zero: false, carry: false, overflow: false, saturation: false, itstate: 0 }
}

fn special() -> SpecialRegisters {
    SpecialRegisters {
        msp: 0x2000_1000,
        psp: 0x2000_0800,
        primask: false,
        basepri: 0,
        faultmask: false,
        control_npriv: false,
        control_spsel: false,
    }
}

fn inputs(r1: u32) -> SystemInputs {
    let mut registers = [0u32; 16];
    registers[1] = r1;
    SystemInputs {
        registers,
        xpsr: plain_xpsr(),
        next_xpsr: plain_xpsr(),
        exception_number: 0,
        handler_mode: false,
        privileged: true,
        special: special(),
        cycle: 0,
        basepri_write_raises_priority: false,
    }
}

fn done(inp: &SystemInputs) -> SystemStepEffects {
    SystemStepEffects {
        result: ExecutionStepResult::NextInstruction,
        register_write: None,
        next_xpsr: inp.next_xpsr,
        special: inp.special,
    }
}

#[test]
fn mrs_reads_flags_and_exception_number() {
    let mut inp = inputs(0);
    inp.xpsr = XPSR { negative: true, carry: true, ..plain_xpsr() };
    inp.exception_number = 0x13;
    inp.handler_mode = true;
    let xpsr_read = Instruction::MoveToRegisterFromSpecialRegister { rd: RegisterID::R0, sysm: 3 };
    assert_eq!(
        execute_system_instruction_step(&xpsr_read, &inp),
        Some(SystemStepEffects {
            register_write: Some(RegisterWrite { register: RegisterID::R0, value: 0xa000_0013 }),
            ..done(&inp)
        })
    );
    let ipsr_read = Instruction::MoveToRegisterFromSpecialRegister { rd: RegisterID::R0, sysm: 5 };
    assert_eq!(
        execute_system_instruction_step(&ipsr_read, &inp),
        Some(SystemStepEffects {
            register_write: Some(RegisterWrite { register: RegisterID::R0, value: 0x13 }),
            ..done(&inp)
        })
    );
}

#[test]
fn mrs_of_masks_reads_zero_when_unprivileged() {
    let mut inp = inputs(0);
    inp.special.primask = true;
    let read = Instruction::MoveToRegisterFromSpecialRegister { rd: RegisterID::R2, sysm: 16 };
    assert_eq!(
        execute_system_instruction_step(&read, &inp).unwrap().register_write,
        Some(RegisterWrite { register: RegisterID::R2, value: 1 })
    );
    inp.privileged = false;
    assert_eq!(
        execute_system_instruction_step(&read, &inp).unwrap().register_write,
        Some(RegisterWrite { register: RegisterID::R2, value: 0 })
    );
    inp.privileged = true;
    let msp = Instruction::MoveToRegisterFromSpecialRegister { rd: RegisterID::R2, sysm: 8 };
    assert_eq!(
        execute_system_instruction_step(&msp, &inp).unwrap().register_write,
        Some(RegisterWrite { register: RegisterID::R2, value: 0x2000_1000 })
    );
}

#[test]
fn msr_primask_raising_the_priority_takes_a_cycle_more() {
    let inp = inputs(1);
    let write = Instruction::MoveToSpecialRegisterFromARMRegister { rn: RegisterID::R1, sysm: 16, mask: 0b10 };
    assert_eq!(
        execute_system_instruction_step(&write, &inp),
        Some(SystemStepEffects {
            result: ExecutionStepResult::Continue { trigger_decode: true, lsu_branch_expected: false },
            special: SpecialRegisters { primask: true, ..special() },
            ..done(&inp)
        })
    );
    let mut later = inp;
    later.cycle = 1;
    assert_eq!(execute_system_instruction_step(&write, &later), Some(done(&later)));
}

#[test]
fn msr_writes_apsr_flags() {
    let inp = inputs(0x6800_0000);
    let write = Instruction::MoveToSpecialRegisterFromARMRegister { rn: RegisterID::R1, sysm: 0, mask: 0b10 };
    assert_eq!(
        execute_system_instruction_step(&write, &inp),
        Some(SystemStepEffects {
            next_xpsr: XPSR { zero: true, carry: true, saturation: true, ..plain_xpsr() },
            ..done(&inp)
        })
    );
}

#[test]
fn msr_basepri_max_only_raises() {
    let mut inp = inputs(0x40);
    let write = Instruction::MoveToSpecialRegisterFromARMRegister { rn: RegisterID::R1, sysm: 18, mask: 0b10 };
    assert_eq!(execute_system_instruction_step(&write, &inp), Some(done(&inp)));
    inp.basepri_write_raises_priority = true;
    assert_eq!(
        execute_system_instruction_step(&write, &inp),
        Some(SystemStepEffects {
            result: ExecutionStepResult::Continue { trigger_decode: true, lsu_branch_expected: false },
            special: SpecialRegisters { basepri: 0x40, ..special() },
            ..done(&inp)
        })
    );
}

#[test]
fn msr_faultmask_is_ignored_in_hardfault() {
    let mut inp = inputs(1);
    inp.handler_mode = true;
    inp.exception_number = 3;
    let write = Instruction::MoveToSpecialRegisterFromARMRegister { rn: RegisterID::R1, sysm: 19, mask: 0b10 };
    assert_eq!(execute_system_instruction_step(&write, &inp), Some(done(&inp)));
    inp.exception_number = 15;
    assert_eq!(
        execute_system_instruction_step(&write, &inp).unwrap().special,
        SpecialRegisters { faultmask: true, ..special() }
    );
}

#[test]
fn msr_control_selects_the_stack_in_thread_mode_only() {
    let mut inp = inputs(0b11);
    let write = Instruction::MoveToSpecialRegisterFromARMRegister { rn: RegisterID::R1, sysm: 20, mask: 0b10 };
    assert_eq!(
        execute_system_instruction_step(&write, &inp).unwrap().special,
        SpecialRegisters { control_npriv: true, control_spsel: true, ..special() }
    );
    inp.handler_mode = true;
    assert_eq!(
        execute_system_instruction_step(&write, &inp).unwrap().special,
        SpecialRegisters { control_npriv: true, ..special() }
    );
    inp.privileged = false;
    assert_eq!(execute_system_instruction_step(&write, &inp), Some(done(&inp)));
}

#[test]
fn cps_disabling_interrupts_takes_a_cycle_more() {
    let cpsid = Instruction::ChangeProcessorState {
        enable: false,
        disable: true,
        affect_pri: true,
        affect_fault: false,
    };
    let mut inp = inputs(0);
    assert_eq!(
        execute_system_instruction_step(&cpsid, &inp),
        Some(SystemStepEffects {
            result: ExecutionStepResult::Continue { trigger_decode: true, lsu_branch_expected: false },
            ..done(&inp)
        })
    );
    inp.cycle = 1;
    assert_eq!(
        execute_system_instruction_step(&cpsid, &inp),
        Some(SystemStepEffects { special: SpecialRegisters { primask: true, ..special() }, ..done(&inp) })
    );
    let cpsie = Instruction::ChangeProcessorState {
        enable: true,
        disable: false,
        affect_pri: true,
        affect_fault: false,
    };
    inp.cycle = 0;
    inp.special.primask = true;
    assert_eq!(
        execute_system_instruction_step(&cpsie, &inp),
        Some(SystemStepEffects { special: special(), ..done(&inp) })
    );
}

#[test]
fn it_state_advances_in_the_first_cycle_only() {
    let xpsr = XPSR { itstate: 0x04, ..plain_xpsr() };
    assert_eq!(advance_it_state(xpsr, xpsr, 0), XPSR { itstate: 0x08, ..xpsr });
    assert_eq!(advance_it_state(xpsr, xpsr, 1), xpsr);
    let last = XPSR { itstate: 0x08, ..plain_xpsr() };
    assert_eq!(advance_it_state(last, last, 0), XPSR { itstate: 0, ..last });
    assert_eq!(advance_it_state(plain_xpsr(), plain_xpsr(), 0), plain_xpsr());
}
