use cmemu_lib::execute::ExecutionStepResult;
use cmemu_lib::execute_step::RegisterWrite;
use cmemu_lib::instruction::Instruction;
use cmemu_lib::memory::Size;
use cmemu_lib::memory_step::{
    LsuRequest, MemoryInputs, MemoryStepEffects, MultipleTransfer, PendingRegisters, ReadArrival,
    ReadTarget, TableBranchState, execute_memory_instruction_step, load_read_data_to_register_exact,
    loaded_value_exec,
};
use cmemu_lib::registers::{RegisterBitmap, RegisterID};

fn inputs(registers: [u32; 16], agu_result: u32) -> MemoryInputs {
    MemoryInputs {
        registers,
        agu_result,
        cycle: 0,
        lsu_can_request: true,
        transfer: None,
        table_branch: None,
    }
}

fn regs(values: &[(usize, u32)]) -> [u32; 16] {
    let mut r = [0u32; 16];
    r[15] = 0x1004;
    for &(i, v) in values {
        r[i] = v;
    }
    r
}

fn waiting(branch: bool) -> MemoryStepEffects {
    MemoryStepEffects {
        result: ExecutionStepResult::Continue { trigger_decode: true, lsu_branch_expected: branch },
        request: None,
        register_write: None,
        writeback_after_address: None,
        disables_fetch: false,
        pc_clean: false,
        transfer: None,
        table_branch: None,
    }
}

fn read(address: u32, size: Size, register: RegisterID, last: bool) -> Option<LsuRequest> {
    Some(LsuRequest::Read { address, size, target: ReadTarget::Register { register, signed: false }, last })
}

#[test]
fn load_register_pre_indexed_reads_at_the_agu_address() {
    let instr = Instruction::LoadRegister_Immediate {
        rt: RegisterID::R0,
        rn: RegisterID::R1,
        imm32: 4,
        index: true,
        add: true,
        wback: false,
    };
    let inp = inputs(regs(&[(1, 0x2000_0000)]), 0x2000_0004);
    assert_eq!(
        execute_memory_instruction_step(&instr, &inp),
        Some(MemoryStepEffects {
            request: read(0x2000_0004, Size::Word, RegisterID::R0, true),
            ..waiting(false)
        })
    );
    let mut later = inp;
    later.cycle = 1;
    assert_eq!(execute_memory_instruction_step(&instr, &later), Some(waiting(false)));
}

#[test]
fn load_register_post_indexed_writes_the_base_back() {
    let instr = Instruction::LoadRegisterSignedByte_Immediate {
        rt: RegisterID::R0,
        rn: RegisterID::R1,
        imm32: 1,
        index: false,
        add: true,
        wback: true,
    };
    let inp = inputs(regs(&[(1, 0x2000_0000)]), 0x2000_0001);
    assert_eq!(
        execute_memory_instruction_step(&instr, &inp),
        Some(MemoryStepEffects {
            request: Some(LsuRequest::Read {
                address: 0x2000_0000,
                size: Size::Byte,
                target: ReadTarget::Register { register: RegisterID::R0, signed: true },
                last: true,
            }),
            writeback_after_address: Some(RegisterWrite { register: RegisterID::R1, value: 0x2000_0001 }),
            ..waiting(false)
        })
    );
}

#[test]
fn load_of_the_pc_is_a_branch() {
    let instr = Instruction::LoadRegister_Immediate {
        rt: RegisterID::PC,
        rn: RegisterID::SP,
        imm32: 4,
        index: false,
        add: true,
        wback: true,
    };
    let inp = inputs(regs(&[(13, 0x2000_1000)]), 0x2000_1004);
    assert_eq!(
        execute_memory_instruction_step(&instr, &inp),
        Some(MemoryStepEffects {
            request: Some(LsuRequest::Read {
                address: 0x2000_1000,
                size: Size::Word,
                target: ReadTarget::ProgramCounter,
                last: true,
            }),
            writeback_after_address: Some(RegisterWrite { register: RegisterID::SP, value: 0x2000_1004 }),
            disables_fetch: true,
            ..waiting(true)
        })
    );
}

#[test]
fn store_register_writes_from_the_register() {
    let instr = Instruction::StoreRegisterHalfword_Immediate {
        rt: RegisterID::R2,
        rn: RegisterID::R3,
        imm32: 2,
        index: true,
        add: true,
        wback: false,
    };
    let inp = inputs(regs(&[(3, 0x2000_0000)]), 0x2000_0002);
    assert_eq!(
        execute_memory_instruction_step(&instr, &inp),
        Some(MemoryStepEffects {
            request: Some(LsuRequest::WriteRegister {
                address: 0x2000_0002,
                size: Size::Halfword,
                register: RegisterID::R2,
            }),
            ..waiting(false)
        })
    );
}

#[test]
fn load_multiple_takes_registers_in_order_and_pc_last() {
    // LDM r0!, {r1, r2, pc}
    let registers = RegisterBitmap(0b1000_0000_0000_0110);
    let instr = Instruction::LoadMultiple { rn: RegisterID::R0, registers, wback: true, is_narrow: false };
    let mut inp = inputs(regs(&[(0, 0x2000_0000)]), 0x2000_0000);
    let first = execute_memory_instruction_step(&instr, &inp).unwrap();
    let state1 = MultipleTransfer {
        address: 0x2000_0004,
        pending: PendingRegisters::Bitmap(RegisterBitmap(0b1000_0000_0000_0100)),
        address_phase: Some(RegisterID::R1),
        data_phase: None,
    };
    assert_eq!(
        first,
        MemoryStepEffects {
            request: read(0x2000_0000, Size::Word, RegisterID::R1, false),
            register_write: Some(RegisterWrite { register: RegisterID::R0, value: 0x2000_000c }),
            disables_fetch: true,
            transfer: Some(state1),
            ..waiting(true)
        }
    );
    inp.cycle = 1;
    inp.transfer = Some(state1);
    let second = execute_memory_instruction_step(&instr, &inp).unwrap();
    let state2 = MultipleTransfer {
        address: 0x2000_0008,
        pending: PendingRegisters::Bitmap(RegisterBitmap(0b1000_0000_0000_0000)),
        address_phase: Some(RegisterID::R2),
        data_phase: Some(RegisterID::R1),
    };
    assert_eq!(
        second,
        MemoryStepEffects {
            request: read(0x2000_0004, Size::Word, RegisterID::R2, false),
            transfer: Some(state2),
            ..waiting(true)
        }
    );
    // The bus does not take a request: nothing moves.
    inp.cycle = 2;
    inp.transfer = Some(state2);
    inp.lsu_can_request = false;
    assert_eq!(
        execute_memory_instruction_step(&instr, &inp),
        Some(MemoryStepEffects { transfer: Some(state2), ..waiting(true) })
    );
    inp.lsu_can_request = true;
    let third = execute_memory_instruction_step(&instr, &inp).unwrap();
    assert_eq!(
        third.request,
        Some(LsuRequest::Read {
            address: 0x2000_0008,
            size: Size::Word,
            target: ReadTarget::ProgramCounter,
            last: true,
        })
    );
    assert_eq!(third.transfer.unwrap().pending, PendingRegisters::Bitmap(RegisterBitmap(0)));
}

#[test]
fn store_multiple_decrement_before_writes_data() {
    // PUSH {r4, lr}
    let registers = RegisterBitmap(0b0100_0000_0001_0000);
    let instr = Instruction::StoreMultipleDecrementBefore { rn: RegisterID::SP, registers, wback: true };
    let inp = inputs(regs(&[(4, 0x44), (13, 0x2000_1000), (14, 0x0000_0123)]), 0x2000_0ff8);
    let first = execute_memory_instruction_step(&instr, &inp).unwrap();
    assert_eq!(
        first.request,
        Some(LsuRequest::WriteData {
            address: 0x2000_0ff8,
            size: Size::Word,
            register: RegisterID::R4,
            data: 0x44,
            last: false,
        })
    );
    assert_eq!(first.register_write, Some(RegisterWrite { register: RegisterID::SP, value: 0x2000_0ff8 }));
    assert!(!first.disables_fetch);
    let mut inp = inp;
    inp.cycle = 1;
    inp.transfer = first.transfer;
    let second = execute_memory_instruction_step(&instr, &inp).unwrap();
    assert_eq!(
        second.request,
        Some(LsuRequest::WriteData {
            address: 0x2000_0ffc,
            size: Size::Word,
            register: RegisterID::LR,
            data: 0x123,
            last: true,
        })
    );
    assert_eq!(second.register_write, None);
}

#[test]
fn load_dual_takes_its_registers_in_their_order() {
    let instr = Instruction::LoadRegisterDual_Immediate {
        rt: RegisterID::R5,
        rt2: RegisterID::R2,
        rn: RegisterID::R0,
        imm32: 0,
        index: true,
        add: true,
        wback: false,
    };
    let inp = inputs(regs(&[(0, 0x2000_0000)]), 0x2000_0000);
    let first = execute_memory_instruction_step(&instr, &inp).unwrap();
    assert_eq!(first.request, read(0x2000_0000, Size::Word, RegisterID::R5, false));
    assert_eq!(first.register_write, None);
    let mut inp = inp;
    inp.cycle = 1;
    inp.transfer = first.transfer;
    let second = execute_memory_instruction_step(&instr, &inp).unwrap();
    assert_eq!(second.request, read(0x2000_0004, Size::Word, RegisterID::R2, true));
}

#[test]
fn table_branch_reads_the_entry_then_branches() {
    let instr = Instruction::TableBranch { rn: RegisterID::R0, rm: RegisterID::R1, is_tbh: true };
    let mut inp = inputs(regs(&[]), 0x2000_0010);
    assert_eq!(
        execute_memory_instruction_step(&instr, &inp),
        Some(MemoryStepEffects {
            request: Some(LsuRequest::Read {
                address: 0x2000_0010,
                size: Size::Halfword,
                target: ReadTarget::TableEntry,
                last: false,
            }),
            disables_fetch: true,
            table_branch: Some(TableBranchState::Reading),
            ..waiting(true)
        })
    );
    inp.cycle = 1;
    inp.table_branch = Some(TableBranchState::Reading);
    assert_eq!(execute_memory_instruction_step(&instr, &inp), Some(waiting(true)));
    inp.cycle = 2;
    inp.table_branch = Some(TableBranchState::Offset { branch_offset: 3, destination: None });
    assert_eq!(
        execute_memory_instruction_step(&instr, &inp),
        Some(MemoryStepEffects {
            table_branch: Some(TableBranchState::Offset { branch_offset: 3, destination: Some(0x100a) }),
            ..waiting(true)
        })
    );
    inp.cycle = 3;
    inp.table_branch = Some(TableBranchState::Offset { branch_offset: 3, destination: Some(0x100a) });
    assert_eq!(
        execute_memory_instruction_step(&instr, &inp),
        Some(MemoryStepEffects {
            result: ExecutionStepResult::ExecuteTimeBranch { address: 0x100a },
            pc_clean: true,
            ..waiting(true)
        })
    );
}

#[test]
fn data_processing_is_not_a_memory_step() {
    let instr = Instruction::NoOperation;
    assert_eq!(execute_memory_instruction_step(&instr, &inputs(regs(&[]), 0)), None);
}

#[test]
fn loaded_values_are_extended() {
    assert_eq!(loaded_value_exec(0x80, Size::Byte, true), 0xffff_ff80);
    assert_eq!(loaded_value_exec(0x1_0080, Size::Byte, false), 0x80);
    assert_eq!(loaded_value_exec(0x8001, Size::Halfword, true), 0xffff_8001);
    assert_eq!(loaded_value_exec(0x8001, Size::Halfword, false), 0x8001);
    assert_eq!(loaded_value_exec(0xdead_beef, Size::Word, true), 0xdead_beef);
}

#[test]
fn read_data_is_dropped_or_forwarded() {
    let load = Instruction::LoadRegister_Immediate {
        rt: RegisterID::R0,
        rn: RegisterID::R1,
        imm32: 0,
        index: true,
        add: true,
        wback: false,
    };
    let write = RegisterWrite { register: RegisterID::R0, value: 7 };
    assert_eq!(
        load_read_data_to_register_exact(&load, RegisterID::R0, 7, true, false, false),
        ReadArrival { register_write: Some(write), forwarded: Some(write), finishes: true }
    );
    assert_eq!(
        load_read_data_to_register_exact(&load, RegisterID::R0, 7, true, true, true),
        ReadArrival { register_write: None, forwarded: None, finishes: true }
    );
    let pop = Instruction::LoadMultiple {
        rn: RegisterID::SP,
        registers: RegisterBitmap(0b1),
        wback: false,
        is_narrow: true,
    };
    assert_eq!(
        load_read_data_to_register_exact(&pop, RegisterID::R0, 7, false, false, false),
        ReadArrival { register_write: Some(write), forwarded: None, finishes: false }
    );
    assert_eq!(
        load_read_data_to_register_exact(&pop, RegisterID::R0, 7, false, false, true),
        ReadArrival { register_write: Some(write), forwarded: Some(write), finishes: false }
    );
}

#[test]
fn store_multiple_past_its_first_cycle_stores_what_the_base_holds() {
    // STMIA r1!, {r0, r1}: the base was written back in the first cycle.
    let instr = Instruction::StoreMultiple {
        rn: RegisterID::R1,
        registers: RegisterBitmap(0b11),
        wback: true,
    };
    let mut inp = inputs(regs(&[(0, 0x55), (1, 0x2000_0008)]), 0);
    inp.cycle = 1;
    inp.transfer = Some(MultipleTransfer {
        address: 0x2000_0004,
        pending: PendingRegisters::Bitmap(RegisterBitmap(0b10)),
        address_phase: Some(RegisterID::R0),
        data_phase: None,
    });
    let step = execute_memory_instruction_step(&instr, &inp).unwrap();
    assert_eq!(
        step.request,
        Some(LsuRequest::WriteData {
            address: 0x2000_0004,
            size: Size::Word,
            register: RegisterID::R1,
            data: 0x2000_0008,
            last: true,
        })
    );
    assert_eq!(step.register_write, None);
}
