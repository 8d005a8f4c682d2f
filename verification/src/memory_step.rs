//! One cycle of the execution of a memory instruction: the address of its transfers, the
//! writeback of its base register, and its requests to the load-store unit, one register
//! at a time, the registers of a multiple transfer taken in order. Also what happens when
//! the data of a load arrives.
use vstd::prelude::*;

use crate::alu::{sign_extend_byte, sign_extend_byte_word, sign_extend_halfword, sign_extend_halfword_word};
use crate::common::{Word, wrap_add, word_add};
use crate::execute::{ExecutionStepResult, clear_bit0};
use crate::execute_step::RegisterWrite;
use crate::instruction::Instruction;
use crate::memory::{
    MemoryInstructionDescription, RegMode, RegPreIter, Size, address_mode, data_registers,
    exclusive, get_memorier_description, memory_description, signed_load, transfer_size,
    unprivileged,
};
use crate::registers::{RegisterBitmap, RegisterID};

verus! {

// ---------------------------------------------------------------------------
// Registers of a multiple transfer
// ---------------------------------------------------------------------------

/// The registers that a multiple or dual transfer has still to transfer, in order.
#[derive(Clone, Copy, Debug, PartialEq, Eq, Structural)]
pub enum PendingRegisters {
    /// The registers of a set, the lowest numbered first.
    Bitmap(RegisterBitmap),
    /// Two registers, in this order.
    Pair(RegisterID, RegisterID),
    /// One register.
    One(RegisterID),
}

/// The position of the lowest set bit of a nonzero set.
pub open spec fn lowest_bit(bits: u16) -> nat
    decreases bits,
{
    if bits == 0 || bits % 2 == 1 {
        0
    } else {
        1 + lowest_bit(bits / 2)
    }
}

/// The registers of the list of a multiple or dual transfer.
pub open spec fn pending_from(list: RegPreIter) -> PendingRegisters {
    match list {
        RegPreIter::BitMap(b) => PendingRegisters::Bitmap(b),
        RegPreIter::Pair(a, c) => PendingRegisters::Pair(a, c),
    }
}

/// Whether no register is left.
pub open spec fn exhausted(p: PendingRegisters) -> bool {
    p matches PendingRegisters::Bitmap(b) && b.0 == 0
}

/// The next register to transfer, and the registers left after it.
pub open spec fn take_next(p: PendingRegisters) -> (Option<RegisterID>, PendingRegisters) {
    match p {
        PendingRegisters::Bitmap(b) => if b.0 == 0 {
            (None, p)
        } else {
            let r = RegisterID::numbered(lowest_bit(b.0) as u32);
            (Some(r), PendingRegisters::Bitmap(RegisterBitmap(b.0 & !(1u16 << (r.index_of() as u16)))))
        },
        PendingRegisters::Pair(a, c) => (Some(a), PendingRegisters::One(c)),
        PendingRegisters::One(c) => (Some(c), PendingRegisters::Bitmap(RegisterBitmap(0))),
    }
}

proof fn lemma_lowest_bit_below(x: u16, n: nat)
    requires
        x != 0,
        x < vstd::arithmetic::power2::pow2(n),
    ensures
        lowest_bit(x) < n,
    decreases x,
{
    vstd::arithmetic::power2::lemma2_to64();
    if x % 2 == 0 {
        if n <= 1 {
            assert(false);
        }
        vstd::arithmetic::power2::lemma_pow2_unfold(n);
        lemma_lowest_bit_below(x / 2, (n - 1) as nat);
    } else if n == 0 {
        assert(false);
    }
}

fn lowest_set_bit(bits: u16) -> (r: u32)
    requires
        bits != 0,
    ensures
        r == lowest_bit(bits),
        r < 16,
{
    proof {
        vstd::arithmetic::power2::lemma2_to64();
        lemma_lowest_bit_below(bits, 16);
    }
    let mut v = bits;
    let mut k: u32 = 0;
    while v % 2 == 0
        invariant
            v != 0,
            lowest_bit(bits) == k + lowest_bit(v),
            lowest_bit(bits) < 16,
        decreases v,
    {
        v = v / 2;
        k = k + 1;
    }
    k
}

fn pending_from_exec(list: RegPreIter) -> (r: PendingRegisters)
    ensures
        r == pending_from(list),
{
    match list {
        RegPreIter::BitMap(b) => PendingRegisters::Bitmap(b),
        RegPreIter::Pair(a, c) => PendingRegisters::Pair(a, c),
    }
}

fn is_exhausted(p: PendingRegisters) -> (r: bool)
    ensures
        r == exhausted(p),
{
    match p {
        PendingRegisters::Bitmap(b) => b.0 == 0,
        _ => false,
    }
}

fn take_next_exec(p: PendingRegisters) -> (r: (Option<RegisterID>, PendingRegisters))
    ensures
        r == take_next(p),
{
    match p {
        PendingRegisters::Bitmap(b) => if b.0 == 0 {
            (None, p)
        } else {
            let r = RegisterID::from_index(lowest_set_bit(b.0));
            (Some(r), PendingRegisters::Bitmap(b.with(r, false)))
        },
        PendingRegisters::Pair(a, c) => (Some(a), PendingRegisters::One(c)),
        PendingRegisters::One(c) => (Some(c), PendingRegisters::Bitmap(RegisterBitmap(0))),
    }
}

// ---------------------------------------------------------------------------
// Inputs, requests and effects
// ---------------------------------------------------------------------------

/// The progress of a multiple or dual transfer.
#[derive(Clone, Copy, Debug, PartialEq, Eq, Structural)]
pub struct MultipleTransfer {
    /// The address of the next transfer.
    pub address: Word,
    /// The registers not yet requested.
    pub pending: PendingRegisters,
    /// The register whose transfer is in its address phase.
    pub address_phase: Option<RegisterID>,
    /// The register whose transfer is in its data phase.
    pub data_phase: Option<RegisterID>,
}

/// The progress of a table branch.
#[derive(Clone, Copy, Debug, PartialEq, Eq, Structural)]
pub enum TableBranchState {
    /// The entry of the table is being read.
    Reading,
    /// The entry arrived: the offset in halfwords, and the target once computed.
    Offset { branch_offset: Word, destination: Option<Word> },
}

/// What a memory instruction sees in a cycle of its execution.
#[derive(Clone, Copy, Debug)]
pub struct MemoryInputs {
    /// The core registers as the instruction reads them: R15 reads as the address of the
    /// instruction plus 4.
    pub registers: [Word; 16],
    /// The address computed by the AGU for the instruction.
    pub agu_result: Word,
    /// The cycles of the instruction already executed (0 in its first cycle).
    pub cycle: u32,
    /// Whether the load-store unit takes a new request in this cycle.
    pub lsu_can_request: bool,
    /// The progress of a multiple transfer, kept from its first cycle.
    pub transfer: Option<MultipleTransfer>,
    /// The progress of a table branch, kept from its first cycle.
    pub table_branch: Option<TableBranchState>,
}

/// Where the data of a read goes.
#[derive(Clone, Copy, Debug, PartialEq, Eq, Structural)]
pub enum ReadTarget {
    /// A register, the data zero- or sign-extended to a word.
    Register { register: RegisterID, signed: bool },
    /// The PC: the load is a branch.
    ProgramCounter,
    /// The entry of a table branch.
    TableEntry,
}

/// A request to the load-store unit.
#[derive(Clone, Copy, Debug, PartialEq, Eq, Structural)]
pub enum LsuRequest {
    /// A read; `last` when its data ends the instruction.
    Read { address: Word, size: Size, target: ReadTarget, last: bool },
    /// A write whose data is read from the register when the bus takes it; its completion
    /// ends the instruction.
    WriteRegister { address: Word, size: Size, register: RegisterID },
    /// A write of a multiple transfer, with its data; `last` when its completion ends the
    /// instruction.
    WriteData { address: Word, size: Size, register: RegisterID, data: Word, last: bool },
}

/// What a cycle of a memory instruction does.
#[derive(Clone, Copy, Debug, PartialEq, Eq, Structural)]
pub struct MemoryStepEffects {
    /// How the pipeline goes on.
    pub result: ExecutionStepResult,
    /// The request made to the load-store unit.
    pub request: Option<LsuRequest>,
    /// A register written now (the writeback of a multiple transfer).
    pub register_write: Option<RegisterWrite>,
    /// A register written when the address phase of the request advances (the writeback
    /// of a single transfer).
    pub writeback_after_address: Option<RegisterWrite>,
    /// Fetch is disabled.
    pub disables_fetch: bool,
    /// The PC becomes clean.
    pub pc_clean: bool,
    /// The progress of a multiple transfer after the cycle.
    pub transfer: Option<MultipleTransfer>,
    /// The progress of a table branch after the cycle.
    pub table_branch: Option<TableBranchState>,
}

/// The value of a register as the instruction reads it.
pub open spec fn mreg(inp: MemoryInputs, r: RegisterID) -> Word {
    inp.registers@[r.index_of() as int]
}

fn mread(inp: &MemoryInputs, r: RegisterID) -> (v: Word)
    ensures
        v == mreg(*inp, r),
{
    inp.registers[r.index() as usize]
}

/// A cycle that changes nothing, after which the instruction goes on.
pub open spec fn waiting(branch: bool) -> MemoryStepEffects {
    MemoryStepEffects {
        result: ExecutionStepResult::Continue { trigger_decode: true, lsu_branch_expected: branch },
        request: None,
        register_write: None,
        writeback_after_address: None,
        disables_fetch: false,
        pc_clean: false,
        transfer: None,
        table_branch: None,
    }
}

fn waiting_exec(branch: bool) -> (r: MemoryStepEffects)
    ensures
        r == waiting(branch),
{
    MemoryStepEffects {
        result: ExecutionStepResult::Continue { trigger_decode: true, lsu_branch_expected: branch },
        request: None,
        register_write: None,
        writeback_after_address: None,
        disables_fetch: false,
        pc_clean: false,
        transfer: None,
        table_branch: None,
    }
}

// ---------------------------------------------------------------------------
// Addresses and writeback
// ---------------------------------------------------------------------------

/// Whether the instruction writes its base register back.
pub open spec fn writes_back(instr: Instruction) -> bool {
    match memory_description(instr) {
        MemoryInstructionDescription::LoadSingle { writeback, .. }
        | MemoryInstructionDescription::StoreSingle { writeback, .. }
        | MemoryInstructionDescription::LoadMultiple { writeback, .. }
        | MemoryInstructionDescription::StoreMultiple { writeback } => writeback,
        MemoryInstructionDescription::NoMemoryAccess => false,
    }
}

/// The register of an address mode (the PC when there is none).
pub open spec fn mode_register(mode: RegMode) -> RegisterID {
    match mode {
        RegMode::Source(r) | RegMode::Destination(r) => r,
        RegMode::NA => RegisterID::PC,
    }
}

/// The address of the (first) transfer: the base register itself for the post-indexed
/// forms, the address computed by the AGU otherwise.
pub open spec fn transfer_address(instr: Instruction, inp: MemoryInputs) -> Word {
    match address_mode(instr) {
        RegMode::Source(rn) => mreg(inp, rn),
        _ => inp.agu_result,
    }
}

/// The writeback of a single transfer: the base register gets the address computed by
/// the AGU once the address phase of the transfer advances.
pub open spec fn single_writeback(instr: Instruction, inp: MemoryInputs) -> Option<RegisterWrite> {
    if writes_back(instr) {
        Some(RegisterWrite { register: mode_register(address_mode(instr)), value: inp.agu_result })
    } else {
        None
    }
}

/// The writeback of a multiple transfer, done in its first cycle: an increment-after
/// transfer (`LDM`, `STM`) adds the size of all its transfers to the base register, the
/// others take the address computed by the AGU.
pub open spec fn multiple_writeback(instr: Instruction, inp: MemoryInputs) -> Option<
    RegisterWrite,
> {
    let rn = mode_register(address_mode(instr));
    if writes_back(instr) {
        Some(
            RegisterWrite {
                register: rn,
                value: if instr is LoadMultiple || instr is StoreMultiple {
                    wrap_add(
                        mreg(inp, rn),
                        (transfer_size(instr).byte_count() * data_registers(instr).1) as int,
                    )
                } else {
                    inp.agu_result
                },
            },
        )
    } else {
        None
    }
}

/// The data of a write, clipped to its size.
pub open spec fn clipped(data: Word, size: Size) -> Word {
    match size {
        Size::Byte => data % 0x100,
        Size::Halfword => data % 0x1_0000,
        Size::Word => data,
    }
}

fn clip_exec(data: Word, size: Size) -> (r: Word)
    ensures
        r == clipped(data, size),
{
    match size {
        Size::Byte => data % 0x100,
        Size::Halfword => data % 0x1_0000,
        Size::Word => data,
    }
}

// ---------------------------------------------------------------------------
// The step
// ---------------------------------------------------------------------------

/// Whether the instruction is a transfer executed by this step: a memory instruction
/// other than a table branch.
pub open spec fn is_transfer(instr: Instruction) -> bool {
    !(memory_description(instr) is NoMemoryAccess) && !(instr is TableBranch)
}

/// A cycle of a single load: in its first cycle it requests the read of its register, or
/// of the PC when it is a branch (fetch is then disabled), and registers its writeback.
pub open spec fn load_single_step(instr: Instruction, rt: RegisterID, inp: MemoryInputs) -> MemoryStepEffects {
    let branch = instr.branch_like();
    if inp.cycle == 0 {
        MemoryStepEffects {
            request: Some(
                if branch {
                    LsuRequest::Read {
                        address: transfer_address(instr, inp),
                        size: Size::Word,
                        target: ReadTarget::ProgramCounter,
                        last: true,
                    }
                } else {
                    LsuRequest::Read {
                        address: transfer_address(instr, inp),
                        size: transfer_size(instr),
                        target: ReadTarget::Register { register: rt, signed: signed_load(instr) },
                        last: true,
                    }
                },
            ),
            writeback_after_address: single_writeback(instr, inp),
            disables_fetch: branch,
            ..waiting(branch)
        }
    } else {
        waiting(branch)
    }
}

/// A cycle of a single store: in its first cycle it requests the write of its register
/// and registers its writeback.
pub open spec fn store_single_step(instr: Instruction, rt: RegisterID, inp: MemoryInputs) -> MemoryStepEffects {
    if inp.cycle == 0 {
        MemoryStepEffects {
            request: Some(
                LsuRequest::WriteRegister {
                    address: transfer_address(instr, inp),
                    size: transfer_size(instr),
                    register: rt,
                },
            ),
            writeback_after_address: single_writeback(instr, inp),
            ..waiting(false)
        }
    } else {
        waiting(false)
    }
}

/// The request of a multiple transfer for a register at an address.
pub open spec fn multiple_request(
    instr: Instruction,
    load: bool,
    register: RegisterID,
    address: Word,
    last: bool,
    inp: MemoryInputs,
) -> LsuRequest {
    if !load {
        LsuRequest::WriteData {
            address,
            size: transfer_size(instr),
            register,
            data: clipped(mreg(inp, register), transfer_size(instr)),
            last,
        }
    } else if last && instr.branch_like() {
        LsuRequest::Read { address, size: Size::Word, target: ReadTarget::ProgramCounter, last }
    } else {
        LsuRequest::Read {
            address,
            size: transfer_size(instr),
            target: ReadTarget::Register { register, signed: signed_load(instr) },
            last,
        }
    }
}

/// A cycle of a multiple (or dual) transfer. In its first cycle the transfer starts at
/// its address and writes its base register back; fetch is disabled for a load of the
/// PC. Whenever the load-store unit takes a request, the next register is requested and
/// the address advances (by the transfer size for loads, by a word for stores).
pub open spec fn multiple_step(instr: Instruction, load: bool, inp: MemoryInputs) -> MemoryStepEffects {
    let branch = load && instr.branch_like();
    let first = inp.cycle == 0;
    let start = if first {
        MultipleTransfer {
            address: transfer_address(instr, inp),
            pending: pending_from(data_registers(instr).0.unwrap()),
            address_phase: None,
            data_phase: None,
        }
    } else {
        inp.transfer.unwrap()
    };
    let (request, state) = if inp.lsu_can_request {
        let (next, rest) = take_next(start.pending);
        match next {
            Some(register) => (
                Some(multiple_request(instr, load, register, start.address, exhausted(rest), inp)),
                MultipleTransfer {
                    address: wrap_add(
                        start.address,
                        if load {
                            transfer_size(instr).byte_count() as int
                        } else {
                            4
                        },
                    ),
                    pending: rest,
                    address_phase: Some(register),
                    data_phase: start.address_phase,
                },
            ),
            None => (
                None,
                MultipleTransfer {
                    address: start.address,
                    pending: rest,
                    address_phase: None,
                    data_phase: start.address_phase,
                },
            ),
        }
    } else {
        (None, start)
    };
    MemoryStepEffects {
        request,
        register_write: if first {
            multiple_writeback(instr, inp)
        } else {
            None
        },
        disables_fetch: first && branch,
        transfer: Some(state),
        ..waiting(branch)
    }
}

/// A cycle of a table branch: the entry is read in the first cycle (fetch disabled); a
/// cycle after it arrives the target is computed (the PC plus twice the entry), and the
/// branch is taken in the next one.
pub open spec fn table_branch_step(is_tbh: bool, inp: MemoryInputs) -> MemoryStepEffects {
    if inp.cycle == 0 {
        MemoryStepEffects {
            request: Some(
                LsuRequest::Read {
                    address: inp.agu_result,
                    size: if is_tbh {
                        Size::Halfword
                    } else {
                        Size::Byte
                    },
                    target: ReadTarget::TableEntry,
                    last: false,
                },
            ),
            disables_fetch: true,
            table_branch: Some(TableBranchState::Reading),
            ..waiting(true)
        }
    } else {
        match inp.table_branch.unwrap() {
            TableBranchState::Reading => waiting(true),
            TableBranchState::Offset { branch_offset, destination: None } => MemoryStepEffects {
                table_branch: Some(
                    TableBranchState::Offset {
                        branch_offset,
                        destination: Some(
                            wrap_add(mreg(inp, RegisterID::PC), 2 * branch_offset),
                        ),
                    },
                ),
                ..waiting(true)
            },
            TableBranchState::Offset { destination: Some(d), .. } => MemoryStepEffects {
                result: ExecutionStepResult::ExecuteTimeBranch { address: clear_bit0(d) },
                pc_clean: true,
                ..waiting(true)
            },
        }
    }
}

/// A cycle of a memory instruction; `None` for the other instructions.
pub open spec fn memory_step(instr: Instruction, inp: MemoryInputs) -> Option<MemoryStepEffects> {
    match instr {
        Instruction::TableBranch { is_tbh, .. } => Some(table_branch_step(is_tbh, inp)),
        _ => match memory_description(instr) {
            MemoryInstructionDescription::LoadSingle { rt, .. } => Some(
                load_single_step(instr, rt, inp),
            ),
            MemoryInstructionDescription::StoreSingle { rt, .. } => Some(
                store_single_step(instr, rt, inp),
            ),
            MemoryInstructionDescription::LoadMultiple { .. } => Some(
                multiple_step(instr, true, inp),
            ),
            MemoryInstructionDescription::StoreMultiple { .. } => Some(
                multiple_step(instr, false, inp),
            ),
            MemoryInstructionDescription::NoMemoryAccess => None,
        },
    }
}

/// Whether a cycle of a memory instruction can be executed: exclusive and unprivileged
/// single transfers are not carried out; a writeback needs a base register; the first
/// cycle of an increment-after store (`STM`) that writes its base back stops when the base
/// register is in the list but is not its lowest register, since the value stored for it
/// would be unknown (later cycles store what the register then holds); a transfer past
/// its first cycle has its progress at hand.
pub open spec fn memory_step_executable(instr: Instruction, inp: MemoryInputs) -> bool {
    &&& (memory_description(instr) is LoadSingle || memory_description(instr) is StoreSingle)
        && !(instr is TableBranch) ==> !exclusive(instr) && !unprivileged(instr)
    &&& writes_back(instr) ==> !(address_mode(instr) is NA)
    &&& inp.cycle == 0 ==> (instr matches Instruction::StoreMultiple { rn, registers, wback: true }
        ==> (registers.has(rn) ==> rn == RegisterID::numbered(lowest_bit(registers.0) as u32)))
    &&& (memory_description(instr) is LoadMultiple || memory_description(instr) is StoreMultiple)
        ==> data_registers(instr).0 is Some && (inp.cycle == 0 || inp.transfer is Some)
    &&& (instr is TableBranch && inp.cycle != 0) ==> inp.table_branch is Some
}


fn transfer_address_exec(instr: &Instruction, mode: RegMode, inp: &MemoryInputs) -> (r: Word)
    requires
        mode == address_mode(*instr),
    ensures
        r == transfer_address(*instr, *inp),
{
    match mode {
        RegMode::Source(rn) => mread(inp, rn),
        _ => inp.agu_result,
    }
}

fn mode_register_exec(mode: RegMode) -> (r: RegisterID)
    ensures
        r == mode_register(mode),
{
    match mode {
        RegMode::Source(r) | RegMode::Destination(r) => r,
        RegMode::NA => RegisterID::PC,
    }
}

/// The address of a single transfer and the writeback of its base register (see
/// [`transfer_address`] and [`single_writeback`]).
pub fn determine_transfer_address(instr: &Instruction, inp: &MemoryInputs) -> (r: (
    Word,
    Option<RegisterWrite>,
))
    requires
        !(memory_description(*instr) is NoMemoryAccess),
    ensures
        r == (transfer_address(*instr, *inp), single_writeback(*instr, *inp)),
{
    let desc = get_memorier_description(instr);
    let mode = desc.addr_from_reg;
    let writeback = if desc.writeback {
        Some(RegisterWrite { register: mode_register_exec(mode), value: inp.agu_result })
    } else {
        None
    };
    (transfer_address_exec(instr, mode, inp), writeback)
}

/// The address of the first transfer of a multiple transfer and the writeback of its
/// base register (see [`transfer_address`] and [`multiple_writeback`]).
pub fn determine_transfer_address_for_multiple(instr: &Instruction, inp: &MemoryInputs) -> (r: (
    Word,
    Option<RegisterWrite>,
))
    requires
        memory_description(*instr) is LoadMultiple || memory_description(*instr) is StoreMultiple,
    ensures
        r == (transfer_address(*instr, *inp), multiple_writeback(*instr, *inp)),
{
    let desc = get_memorier_description(instr);
    let mode = desc.addr_from_reg;
    let size = desc.size;
    proof {
        lemma_bits_set_bound(desc.data_registers_bitmap.0, 16);
    }
    let writeback = if desc.writeback {
        let rn = mode_register_exec(mode);
        let value = if matches!(*instr, Instruction::LoadMultiple { .. })
            || matches!(*instr, Instruction::StoreMultiple { .. }) {
            let total = size.bytes() as u32 * desc.length as u32;
            word_add(mread(inp, rn), total)
        } else {
            inp.agu_result
        };
        Some(RegisterWrite { register: rn, value })
    } else {
        None
    };
    (transfer_address_exec(instr, mode, inp), writeback)
}

fn multiple_request_exec(
    instr: &Instruction,
    load: bool,
    size: Size,
    signed: bool,
    register: RegisterID,
    address: Word,
    last: bool,
    inp: &MemoryInputs,
) -> (r: LsuRequest)
    requires
        size == transfer_size(*instr),
        signed == signed_load(*instr),
    ensures
        r == multiple_request(*instr, load, register, address, last, *inp),
{
    if !load {
        LsuRequest::WriteData {
            address,
            size,
            register,
            data: clip_exec(mread(inp, register), size),
            last,
        }
    } else if last && instr.is_branch() {
        LsuRequest::Read { address, size: Size::Word, target: ReadTarget::ProgramCounter, last }
    } else {
        LsuRequest::Read {
            address,
            size,
            target: ReadTarget::Register { register, signed },
            last,
        }
    }
}

/// A cycle of the execution of a memory instruction (see [`memory_step`]).
pub fn execute_memory_instruction_step(instr: &Instruction, inp: &MemoryInputs) -> (r: Option<
    MemoryStepEffects,
>)
    requires
        memory_step_executable(*instr, *inp),
    ensures
        r == memory_step(*instr, *inp),
{
    if let Instruction::TableBranch { is_tbh, .. } = *instr {
        return Some(table_branch_exec(is_tbh, inp));
    }
    let kind = instr.get_memory_description();
    if let MemoryInstructionDescription::NoMemoryAccess = kind {
        return None;
    }
    let desc = get_memorier_description(instr);
    let branch = desc.is_branch;
    let size = desc.size;
    match kind {
        MemoryInstructionDescription::LoadSingle { rt, .. } => {
            if inp.cycle != 0 {
                return Some(waiting_exec(branch));
            }
            let (address, writeback) = determine_transfer_address(instr, inp);
            let request = if branch {
                LsuRequest::Read {
                    address,
                    size: Size::Word,
                    target: ReadTarget::ProgramCounter,
                    last: true,
                }
            } else {
                LsuRequest::Read {
                    address,
                    size,
                    target: ReadTarget::Register { register: rt, signed: desc.is_signed },
                    last: true,
                }
            };
            Some(
                MemoryStepEffects {
                    request: Some(request),
                    writeback_after_address: writeback,
                    disables_fetch: branch,
                    ..waiting_exec(branch)
                },
            )
        },
        MemoryInstructionDescription::StoreSingle { rt, .. } => {
            if inp.cycle != 0 {
                return Some(waiting_exec(false));
            }
            let (address, writeback) = determine_transfer_address(instr, inp);
            Some(
                MemoryStepEffects {
                    request: Some(LsuRequest::WriteRegister { address, size, register: rt }),
                    writeback_after_address: writeback,
                    ..waiting_exec(false)
                },
            )
        },
        _ => {
            let load = !desc.is_store;
            Some(multiple_exec(instr, load, inp))
        },
    }
}

fn multiple_exec(instr: &Instruction, load: bool, inp: &MemoryInputs) -> (r: MemoryStepEffects)
    requires
        memory_description(*instr) is LoadMultiple || memory_description(*instr) is StoreMultiple,
        load == (memory_description(*instr) is LoadMultiple),
        memory_step_executable(*instr, *inp),
    ensures
        r == multiple_step(*instr, load, *inp),
{
    let desc = get_memorier_description(instr);
    let branch = load && desc.is_branch;
    let first = inp.cycle == 0;
    let size = desc.size;
    let (start, register_write) = if first {
        let (address, writeback) = determine_transfer_address_for_multiple(instr, inp);
        (
            MultipleTransfer {
                address,
                pending: pending_from_exec(desc.data_reg_iter.unwrap()),
                address_phase: None,
                data_phase: None,
            },
            writeback,
        )
    } else {
        (inp.transfer.unwrap(), None)
    };
    let (request, state) = if inp.lsu_can_request {
        let (next, rest) = take_next_exec(start.pending);
        match next {
            Some(register) => {
                let step: u32 = if load {
                    size.bytes() as u32
                } else {
                    4
                };
                (
                    Some(
                        multiple_request_exec(
                            instr,
                            load,
                            size,
                            desc.is_signed,
                            register,
                            start.address,
                            is_exhausted(rest),
                            inp,
                        ),
                    ),
                    MultipleTransfer {
                        address: word_add(start.address, step),
                        pending: rest,
                        address_phase: Some(register),
                        data_phase: start.address_phase,
                    },
                )
            },
            None => (
                None,
                MultipleTransfer {
                    address: start.address,
                    pending: rest,
                    address_phase: None,
                    data_phase: start.address_phase,
                },
            ),
        }
    } else {
        (None, start)
    };
    MemoryStepEffects {
        request,
        register_write,
        disables_fetch: first && branch,
        transfer: Some(state),
        ..waiting_exec(branch)
    }
}

fn table_branch_exec(is_tbh: bool, inp: &MemoryInputs) -> (r: MemoryStepEffects)
    requires
        inp.cycle != 0 ==> inp.table_branch is Some,
    ensures
        r == table_branch_step(is_tbh, *inp),
{
    if inp.cycle == 0 {
        return MemoryStepEffects {
            request: Some(
                LsuRequest::Read {
                    address: inp.agu_result,
                    size: if is_tbh {
                        Size::Halfword
                    } else {
                        Size::Byte
                    },
                    target: ReadTarget::TableEntry,
                    last: false,
                },
            ),
            disables_fetch: true,
            table_branch: Some(TableBranchState::Reading),
            ..waiting_exec(true)
        };
    }
    match inp.table_branch.unwrap() {
        TableBranchState::Reading => waiting_exec(true),
        TableBranchState::Offset { branch_offset, destination: None } => {
            let pc = mread(inp, RegisterID::PC);
            proof {
                vstd::arithmetic::div_mod::lemma_mod_add_multiples_vanish(
                    pc + 2 * branch_offset,
                    0x1_0000_0000,
                );
            }
            let doubled = word_add(branch_offset, branch_offset);
            let destination = word_add(pc, doubled);
            proof {
                assert(wrap_add(pc, 2 * branch_offset) == destination) by {
                    lemma_wrap_add_twice(pc, branch_offset);
                }
            }
            MemoryStepEffects {
                table_branch: Some(
                    TableBranchState::Offset { branch_offset, destination: Some(destination) },
                ),
                ..waiting_exec(true)
            }
        },
        TableBranchState::Offset { destination: Some(d), .. } => MemoryStepEffects {
            result: ExecutionStepResult::ExecuteTimeBranch { address: d - d % 2 },
            pc_clean: true,
            ..waiting_exec(true)
        },
    }
}

proof fn lemma_bits_set_bound(bits: u16, n: nat)
    ensures
        crate::registers::bits_set(bits, n) <= n,
    decreases n,
{
    if n > 0 {
        lemma_bits_set_bound(bits, (n - 1) as nat);
    }
}

proof fn lemma_wrap_add_twice(pc: Word, offset: Word)
    ensures
        wrap_add(pc, 2 * offset) == wrap_add(pc, wrap_add(offset, offset as int) as int),
{
    let m: int = 0x1_0000_0000;
    let d = wrap_add(offset, offset as int);
    vstd::arithmetic::div_mod::lemma_fundamental_div_mod(2 * offset, m);
    vstd::arithmetic::div_mod::lemma_mod_multiples_vanish((2 * offset) / m, pc + d, m);
}


// ---------------------------------------------------------------------------
// Arrival of read data
// ---------------------------------------------------------------------------

/// The value loaded into a register from the data of a read: zero- or sign-extended to a
/// word.
pub open spec fn loaded_value(data: Word, size: Size, signed: bool) -> Word {
    match size {
        Size::Byte => if signed {
            sign_extend_byte(data)
        } else {
            data % 0x100
        },
        Size::Halfword => if signed {
            sign_extend_halfword(data)
        } else {
            data % 0x1_0000
        },
        Size::Word => data,
    }
}

pub fn loaded_value_exec(data: Word, size: Size, signed: bool) -> (r: Word)
    ensures
        r == loaded_value(data, size, signed),
{
    match size {
        Size::Byte => if signed {
            sign_extend_byte_word(data)
        } else {
            data % 0x100
        },
        Size::Halfword => if signed {
            sign_extend_halfword_word(data)
        } else {
            data % 0x1_0000
        },
        Size::Word => data,
    }
}

/// What happens when the data of a read into a register arrives. The register becomes
/// clean in any case.
#[derive(Clone, Copy, Debug, PartialEq, Eq, Structural)]
pub struct ReadArrival {
    /// The register written with the loaded value.
    pub register_write: Option<RegisterWrite>,
    /// The loaded value forwarded to the AGU of Decode.
    pub forwarded: Option<RegisterWrite>,
    /// The read ends the instruction.
    pub finishes: bool,
}

/// Whether the base register of a load is written back (an `LDM` with a narrow encoding
/// behaves as if it always were), which keeps the loaded value from being forwarded.
pub open spec fn load_writes_back(instr: Instruction) -> bool {
    match memory_description(instr) {
        MemoryInstructionDescription::LoadSingle { writeback, .. } => writeback,
        MemoryInstructionDescription::LoadMultiple { writeback, is_narrow_ldm } => writeback
            || is_narrow_ldm,
        _ => false,
    }
}

/// The arrival of the data of a read into a register for the instruction in the main
/// slot. When the instruction in the pipelined slot writes the same register, the loaded
/// value is dropped. Otherwise it is written, and forwarded to the AGU unless the load
/// writes its base back while the pipelined slot is empty.
pub open spec fn read_arrival(
    main: Instruction,
    register: RegisterID,
    value: Word,
    last: bool,
    pipelined_writes_register: bool,
    pipelined_present: bool,
) -> ReadArrival {
    let write = RegisterWrite { register, value };
    if pipelined_writes_register {
        ReadArrival { register_write: None, forwarded: None, finishes: last }
    } else {
        ReadArrival {
            register_write: Some(write),
            forwarded: if !load_writes_back(main) || pipelined_present {
                Some(write)
            } else {
                None
            },
            finishes: last,
        }
    }
}

/// The arrival of the data of a read into a register (see [`read_arrival`]).
pub fn load_read_data_to_register_exact(
    main: &Instruction,
    register: RegisterID,
    value: Word,
    last: bool,
    pipelined_writes_register: bool,
    pipelined_present: bool,
) -> (r: ReadArrival)
    requires
        !(memory_description(*main) is NoMemoryAccess),
    ensures
        r == read_arrival(
            *main,
            register,
            value,
            last,
            pipelined_writes_register,
            pipelined_present,
        ),
{
    let write = RegisterWrite { register, value };
    if pipelined_writes_register {
        return ReadArrival { register_write: None, forwarded: None, finishes: last };
    }
    let writes_back = match main.get_memory_description() {
        MemoryInstructionDescription::LoadSingle { writeback, .. } => writeback,
        MemoryInstructionDescription::LoadMultiple { writeback, is_narrow_ldm } => writeback
            || is_narrow_ldm,
        _ => false,
    };
    ReadArrival {
        register_write: Some(write),
        forwarded: if !writes_back || pipelined_present {
            Some(write)
        } else {
            None
        },
        finishes: last,
    }
}

// ---------------------------------------------------------------------------
// Laws
// ---------------------------------------------------------------------------

proof fn lemma_lowest_bit_facts(b: u16)
    requires
        b != 0,
    ensures
        lowest_bit(b) < 16,
        (b >> (lowest_bit(b) as u16)) & 1 == 1,
        forall|i: u16| i < lowest_bit(b) ==> #[trigger] ((b >> i) & 1) == 0,
    decreases b,
{
    vstd::arithmetic::power2::lemma2_to64();
    lemma_lowest_bit_below(b, 16);
    if b % 2 == 1 {
        assert((b >> 0u16) & 1 == 1) by (bit_vector)
            requires
                b % 2 == 1,
        ;
    } else {
        let h = b / 2;
        lemma_lowest_bit_facts(h);
        assert(forall|i: u16| i < 15 ==> #[trigger] ((b >> ((i + 1) as u16)) & 1) == (h >> i) & 1)
            by (bit_vector)
            requires
                h == b / 2,
        ;
        assert((b >> 0u16) & 1 == 0) by (bit_vector)
            requires
                b % 2 == 0,
        ;
        let k = lowest_bit(h);
        assert((b >> ((k + 1) as u16)) & 1 == 1) by {
            assert((b >> (((k as u16) + 1) as u16)) & 1 == (h >> (k as u16)) & 1);
        }
        assert forall|i: u16| i < lowest_bit(b) implies #[trigger] ((b >> i) & 1) == 0 by {
            if i > 0 {
                let j = (i - 1) as u16;
                assert((b >> ((j + 1) as u16)) & 1 == (h >> j) & 1);
            }
        }
    }
}

proof fn lemma_clear_bit(b: u16, k: u16)
    requires
        k < 16,
    ensures
        forall|i: u16|
            i < 16 ==> (#[trigger] (((b & !(1u16 << k)) >> i) & 1) == 1 <==> ((b >> i) & 1 == 1
                && i != k)),
{
    assert(forall|i: u16|
        i < 16 ==> (#[trigger] (((b & !(1u16 << k)) >> i) & 1) == 1 <==> ((b >> i) & 1 == 1 && i
            != k))) by (bit_vector)
        requires
            k < 16,
    ;
}

proof fn lemma_bits_set_clear(b: u16, k: u16, n: nat)
    requires
        k < 16,
        n <= 16,
        (b >> k) & 1 == 1,
    ensures
        crate::registers::bits_set(b & !(1u16 << k), n) + (if (k as nat) < n {
            1nat
        } else {
            0nat
        }) == crate::registers::bits_set(b, n),
    decreases n,
{
    if n > 0 {
        lemma_bits_set_clear(b, k, (n - 1) as nat);
        lemma_clear_bit(b, k);
        let i = (n - 1) as u16;
        assert((((b & !(1u16 << k)) >> i) & 1) == 1 <==> ((b >> i) & 1 == 1 && i != k));
    }
}

proof fn lemma_register_index_injective(q: RegisterID, r: RegisterID)
    ensures
        q.index_of() == r.index_of() ==> q == r,
        q.index_of() < 16,
{
}

/// A multiple transfer takes the registers of its set from the lowest numbered: the
/// register taken belongs to the set, no register of the set is numbered lower, and the
/// registers left are those of the set but the one taken, one fewer. So every register of
/// the set is transferred once, in increasing order, the PC last.
pub proof fn lemma_registers_taken_in_order(b: RegisterBitmap)
    requires
        b.0 != 0,
    ensures
        take_next(PendingRegisters::Bitmap(b)) matches (Some(r), PendingRegisters::Bitmap(rest))
            && b.has(r) && (forall|q: RegisterID| #[trigger] b.has(q) ==> r.index_of() <= q.index_of())
            && (forall|q: RegisterID| #[trigger] rest.has(q) <==> (b.has(q) && q != r))
            && rest.size() + 1 == b.size(),
{
    lemma_lowest_bit_facts(b.0);
    let k = lowest_bit(b.0);
    let r = RegisterID::numbered(k as u32);
    assert(r.index_of() == k);
    lemma_clear_bit(b.0, k as u16);
    lemma_bits_set_clear(b.0, k as u16, 16);
    let rest = RegisterBitmap(b.0 & !(1u16 << (k as u16)));
    assert forall|q: RegisterID| #[trigger] b.has(q) implies r.index_of() <= q.index_of() by {
        lemma_register_index_injective(q, r);
        if q.index_of() < k {
            assert(((b.0 >> (q.index_of() as u16)) & 1) == 0);
        }
    }
    assert forall|q: RegisterID| #[trigger] rest.has(q) <==> (b.has(q) && q != r) by {
        lemma_register_index_injective(q, r);
        assert(((rest.0 >> (q.index_of() as u16)) & 1) == 1 <==> (((b.0 >> (q.index_of() as u16))
            & 1) == 1 && (q.index_of() as u16) != (k as u16)));
    }
}

/// The registers of a dual transfer are taken in their order, one after the other, and
/// then none is left.
pub proof fn lemma_pair_taken_in_order(a: RegisterID, c: RegisterID)
    ensures
        take_next(PendingRegisters::Pair(a, c)) == (Some(a), PendingRegisters::One(c)),
        take_next(PendingRegisters::One(c)).0 == Some(c),
        exhausted(take_next(PendingRegisters::One(c)).1),
{
}

} // verus!
