//! The Fetch stage as a state machine. It requests instruction reads on the bus, hands
//! their data to the prefetch input queue (PIQ), shifts the PIQ as decode consumes it, and
//! follows branches, speculative branches and vector calls.
//!
//! The rest of the core drives it through a cycle: [`Fetch::tick_extra`] at the start,
//! [`Fetch::handle_requested_data`], [`Fetch::tick_piq`], then [`Fetch::run_fetch`]; decode
//! and execute buffer their requests in between with the `make_*` methods.
//!
//! The spec functions of this module give the new model of the stage together with a flag:
//! whether the preconditions of the PIQ and bus operations met on the way hold.
use vstd::prelude::*;

use crate::common::{Address, Word};
use crate::decode::{Brchstat, PipelineStepPack};
use crate::fetch::buffers::FDReg;
use crate::fetch::piq::{
    PIQShiftMode, PREFETCH_CACHE_ENTRIES_COUNT, PiqModel,
    PrefetchInputQueue, high_half, low_half,
};
use crate::fetch::transfers::{BusPipeline, BusRead, DataReadCallback, TransferState, Transfers, ignored_in, live};
use crate::instruction::Instruction;
use crate::registers::XPSR;

verus! {

/// The state of the request generator of fetch.
#[derive(Clone, Copy, Debug, PartialEq, Eq, Structural)]
pub enum FetchState {
    Idle,
    /// Read the initial stack pointer.
    Initial,
    /// Read a vector table entry; run the handler callback with the token once fetched.
    RequestVectorTable { address: Address, callback_after_handler_fetched: Option<u32> },
    RequestInstruction { address: Address },
    /// `speculated` was requested; continue at `if_confirm` if the request stands, at
    /// `if_cancel` if it is cancelled; `had_addr_phase`: the read was presented.
    RequestInstructionSpeculatively {
        speculated: Address,
        if_confirm: Address,
        had_addr_phase: bool,
        if_cancel: Address,
        is_branch: bool,
    },
    /// A branch whose target came too late in the cycle: taken in the next one.
    DelayedBranch { address: Address },
}

/// Settings of the modelled core.
#[derive(Clone, Copy, Debug)]
pub struct FetchConfig {
    /// A skipped instruction (failed IT condition) may be an atypical multicycle NOP.
    pub skipped_causes_phony_multicycle: bool,
    /// A folded instruction does not count in the decoded size when deciding to speculate.
    pub can_spec_disregards_folded: bool,
    /// Address of the vector table: the initial stack pointer, then the reset vector.
    pub vector_table_address: Address,
    /// Decode sees the head of the shadow ring of the PIQ (otherwise its F/D register).
    pub shadow_piq: bool,
    /// Speculation may over-commit the PIQ (otherwise fetch never speculates).
    pub piq_overcommit: bool,
}

/// The registers of the stage besides the bus reads and the PIQ.
#[derive(Clone, Copy, Debug)]
pub struct FetchRegs {
    pub state: FetchState,
    pub next_state: FetchState,
    pub next_override_state: Option<FetchState>,
    pub multicycle_in_execute: bool,
    /// The pipeline moved: (advance of the head was postponed, atypical multicycle NOP,
    /// branch status of the moved instruction, halfwords consumed).
    pub pipeline_shifted: Option<(bool, bool, Brchstat, u8)>,
    pub branching: bool,
    pub decode_stall: bool,
    /// Requests buffered until [`Fetch::run_fetch`].
    pub branch_buffer: Option<Word>,
    pub speculative_branch_buffer: Option<Word>,
    pub speculative_taken_buffer: Option<bool>,
    pub vector_buffer: Option<(Address, Option<u32>)>,
    pub fetch_disable_buffer: bool,
}

/// The Fetch stage.
pub struct Fetch {
    pub regs: FetchRegs,
    pub transfers: Transfers,
    pub piq: PrefetchInputQueue,
    pub config: FetchConfig,
}

/// The model of the stage: its registers, its bus reads, and the model of its PIQ.
pub struct FetchModel {
    pub regs: FetchRegs,
    pub transfers: Transfers,
    pub piq: PiqModel,
}

impl View for Fetch {
    type V = FetchModel;

    open spec fn view(&self) -> FetchModel {
        FetchModel { regs: self.regs, transfers: self.transfers, piq: self.piq@ }
    }
}

/// What handling the data of a read asks of the rest of the core.
#[derive(Clone, Copy, Debug, PartialEq, Eq)]
pub struct DataActions {
    /// Set the stack pointer to this value.
    pub set_stack_pointer: Option<Word>,
    /// Run the vector call's handler callback with this token.
    pub run_handler_callback: Option<u32>,
}

/// The address that stands for "no stream" while a vector call or a disable is pending.
pub open spec fn impact_address() -> Address {
    Address(0xffff_ffff)
}

// ---------------------------------------------------------------------------
// The operations on the bus reads and the PIQ, as the stage uses them
// ---------------------------------------------------------------------------

pub open spec fn t_ignore(t: Transfers) -> Transfers {
    Transfers {
        delayed_transfer: None,
        driver: BusPipeline {
            addr_phase: ignored_in(t.driver.addr_phase, TransferState::AddrPhase),
            data_phase: ignored_in(t.driver.data_phase, TransferState::DataPhase),
            ..t.driver
        },
    }
}

pub open spec fn t_request(t: Transfers, address: Address, callback: DataReadCallback) -> (Transfers, bool) {
    (
        Transfers {
            driver: BusPipeline {
                addr_phase: Some(BusRead { address, callback }),
                can_pipeline: false,
                ..t.driver
            },
            ..t
        },
        t.driver.can_pipeline && address.0 % 4 == 0,
    )
}

pub open spec fn t_cancel_addr_phase(t: Transfers) -> (Transfers, Option<(Address, DataReadCallback)>) {
    (
        Transfers {
            driver: BusPipeline {
                addr_phase: ignored_in(t.driver.addr_phase, TransferState::AddrPhase),
                ..t.driver
            },
            ..t
        },
        if live(t.driver.addr_phase) {
            Some((t.driver.addr_phase->0.address, t.driver.addr_phase->0.callback))
        } else {
            None
        },
    )
}

pub open spec fn t_ignore_prev_cycle(t: Transfers) -> (Transfers, bool) {
    if t.driver.pipeline_advanced {
        (
            Transfers {
                driver: BusPipeline {
                    data_phase: ignored_in(t.driver.data_phase, TransferState::DataPhase),
                    ..t.driver
                },
                ..t
            },
            t.driver.data_phase is Some,
        )
    } else {
        (
            Transfers {
                driver: BusPipeline {
                    addr_phase: ignored_in(t.driver.addr_phase, TransferState::AddrPhase),
                    ..t.driver
                },
                ..t
            },
            t.driver.addr_phase is Some,
        )
    }
}

pub open spec fn t_ignore_data_if_stalled(t: Transfers) -> Transfers {
    if live(t.driver.data_phase) && !t.driver.pipeline_advanced {
        Transfers {
            driver: BusPipeline {
                data_phase: ignored_in(t.driver.data_phase, TransferState::DataPhase),
                ..t.driver
            },
            ..t
        }
    } else {
        t
    }
}

pub open spec fn t_try_reuse(t: Transfers, address: Address, callback: DataReadCallback) -> (Transfers, bool) {
    if t.driver.addr_phase matches Some(read) && read.address == address && read.callback == (
    DataReadCallback::Ignore { in_state: TransferState::AddrPhase }) {
        (
            Transfers {
                driver: BusPipeline { addr_phase: Some(BusRead { address, callback }), ..t.driver },
                ..t
            },
            true,
        )
    } else {
        (t, false)
    }
}

pub open spec fn p_reserve(p: PiqModel) -> (PiqModel, bool) {
    (PiqModel { in_flight: p.in_flight + 1, ..p }, p.total_slots() + 2 <= PREFETCH_CACHE_ENTRIES_COUNT + 4)
}

pub open spec fn p_abort(p: PiqModel) -> (PiqModel, bool) {
    (PiqModel { in_flight: (p.in_flight - 1) as nat, ..p }, p.in_flight > 0)
}

pub open spec fn p_prepare_for_impact(p: PiqModel, address: Address) -> PiqModel {
    PiqModel { impact_pending: true, head: Seq::empty(), head_addr: address, ..p.branched(address) }
}

pub open spec fn p_confirm(p: PiqModel, address: Address, held: bool) -> PiqModel {
    PiqModel {
        shadow: if held {
            p.branched(address).shadow.branch_held()
        } else {
            p.branched(address).shadow
        },
        allow_stale: false,
        ..p.branched(address)
    }
}

pub open spec fn p_would_fit(p: PiqModel, shift: PIQShiftMode) -> bool {
    p.would_fit(shift)
}

pub open spec fn p_available(p: PiqModel) -> nat {
    if p.total_slots() >= PREFETCH_CACHE_ENTRIES_COUNT {
        0
    } else {
        (PREFETCH_CACHE_ENTRIES_COUNT - p.total_slots()) as nat
    }
}

pub open spec fn p_overcommit(p: PiqModel) -> bool {
    p.total_slots() + p.incoming_halves().len() > PREFETCH_CACHE_ENTRIES_COUNT
}

/// The address, aligned down to a halfword, that a branch to `word` fetches from.
pub open spec fn branch_target(word: Word) -> Address {
    Address((word - word % 2) as u32)
}

// ---------------------------------------------------------------------------
// The cycle
// ---------------------------------------------------------------------------

/// At the start of a cycle the next state takes effect (an override first) and the
/// buffers are cleared.
pub open spec fn ticked(r: FetchRegs) -> FetchRegs {
    FetchRegs {
        state: match r.next_override_state {
            Some(s) => s,
            None => r.next_state,
        },
        next_state: match r.next_override_state {
            Some(s) => s,
            None => r.next_state,
        },
        next_override_state: None,
        fetch_disable_buffer: false,
        vector_buffer: None,
        branch_buffer: None,
        speculative_branch_buffer: None,
        speculative_taken_buffer: None,
        ..r
    }
}

/// Handling the data of the read finished in the previous cycle.
pub open spec fn requested_data_handled(m: FetchModel, config: FetchConfig, entrypoint: Option<Word>) -> (FetchModel, DataActions, bool) {
    let t = FetchModel { transfers: Transfers { delayed_transfer: None, ..m.transfers }, ..m };
    let none = DataActions { set_stack_pointer: None, run_handler_callback: None };
    match m.transfers.delayed_transfer {
        None => (m, none, true),
        Some((data, address, callback)) => match callback {
            DataReadCallback::Ignore { in_state } => if in_state == TransferState::DataPhase {
                (
                    FetchModel {
                        piq: PiqModel {
                            shadow: if t.piq.allow_stale {
                                t.piq.shadow.pushed(low_half(data)).pushed(high_half(data))
                            } else {
                                t.piq.shadow
                            },
                            ..t.piq
                        },
                        ..t
                    },
                    none,
                    true,
                )
            } else {
                (t, none, true)
            },
            DataReadCallback::SetStackPointerAndFetchResetVector => (
                match entrypoint {
                    Some(e) => FetchModel { regs: FetchRegs { branch_buffer: Some(e), ..t.regs }, ..t },
                    None => FetchModel {
                        regs: FetchRegs {
                            vector_buffer: Some((config.vector_table_address.plus(4), None)),
                            ..t.regs
                        },
                        ..t
                    },
                },
                DataActions { set_stack_pointer: Some(data), run_handler_callback: None },
                true,
            ),
            DataReadCallback::BranchToAddressAfterVectorCall { callback } => (
                FetchModel { regs: FetchRegs { branch_buffer: Some(data), ..t.regs }, ..t },
                DataActions { set_stack_pointer: None, run_handler_callback: callback },
                true,
            ),
            DataReadCallback::AddToPiq { skip_half } => (
                FetchModel {
                    piq: PiqModel {
                        in_flight: (t.piq.in_flight - 1) as nat,
                        incoming: Some(
                            (
                                if skip_half {
                                    address.plus(2)
                                } else {
                                    address
                                },
                                low_half(data),
                                high_half(data),
                                skip_half,
                            ),
                        ),
                        ..t.piq
                    },
                    ..t
                },
                none,
                !t.piq.impact_pending && t.piq.in_flight > 0 && t.piq.incoming.is_none(),
            ),
        },
    }
}

/// The shift of the PIQ in a cycle and the new flags of the stage.
pub open spec fn tick_decision(r: FetchRegs, was_last_cycle: bool, postpones: bool, decode_agu_stalled: bool) -> (PIQShiftMode, FetchRegs) {
    let base = FetchRegs { multicycle_in_execute: postpones, decode_stall: false, pipeline_shifted: None, ..r };
    match r.pipeline_shifted {
        Some((prev_postponed, atypical_multicycle, brchstat, consumed)) => {
            let shift = if prev_postponed && brchstat.decode_time() {
                PIQShiftMode::HoldBranch(false)
            } else if r.branching {
                PIQShiftMode::CompleteBranch
            } else if consumed == 1 {
                PIQShiftMode::ShiftHalf
            } else {
                PIQShiftMode::ShiftFull
            };
            (
                shift,
                FetchRegs {
                    branching: brchstat.decode_time(),
                    multicycle_in_execute: postpones || atypical_multicycle,
                    ..base
                },
            )
        },
        None => if was_last_cycle {
            (
                if r.branching {
                    PIQShiftMode::CompleteBranch
                } else {
                    PIQShiftMode::Populate
                },
                FetchRegs { branching: false, decode_stall: decode_agu_stalled, ..base },
            )
        } else {
            (
                if r.branching {
                    PIQShiftMode::HoldBranch(true)
                } else {
                    PIQShiftMode::Populate
                },
                base,
            )
        },
    }
}

/// Fetch speculates when nothing holds it (a multicycle instruction, a branch, a stalled
/// decode), the PIQ would not fit the data if decode held, and would if it advanced.
pub open spec fn speculates(m: FetchModel, config: FetchConfig, decoded_size: u8, has_folded: bool) -> bool {
    let size = if config.can_spec_disregards_folded && has_folded {
        decoded_size - 1
    } else {
        decoded_size as int
    };
    let shift_if_advances = if size == 0 {
        PIQShiftMode::Populate
    } else if size == 1 {
        PIQShiftMode::ShiftHalf
    } else {
        PIQShiftMode::ShiftFull
    };
    !m.regs.multicycle_in_execute && !m.regs.branching && !m.regs.decode_stall && !p_would_fit(
        m.piq,
        PIQShiftMode::HoldBranch(true),
    ) && p_would_fit(m.piq, shift_if_advances)
}

/// Whether the decoded size can be used to decide on speculation.
pub open spec fn decoded_size_ok(config: FetchConfig, decoded_size: u8, has_folded: bool) -> bool {
    &&& decoded_size <= 2
    &&& config.can_spec_disregards_folded && has_folded ==> decoded_size >= 1
}

/// Requesting the instruction halfwords at `address`: a read of their word, reusing a
/// read ignored in the address phase if there is one; the address to fetch next.
pub open spec fn transfer_tried(m: FetchModel, address: Address) -> (FetchModel, Address, bool) {
    let req_addr = Address((address.0 - address.0 % 4) as u32);
    let callback = DataReadCallback::AddToPiq { skip_half: address.0 % 4 != 0 };
    let reused = t_try_reuse(m.transfers, req_addr, callback);
    if reused.1 {
        let reserved = p_reserve(m.piq);
        (FetchModel { transfers: reused.0, piq: reserved.0, ..m }, req_addr.plus(4), reserved.1)
    } else if m.transfers.driver.can_pipeline {
        let reserved = p_reserve(m.piq);
        let requested = t_request(m.transfers, req_addr, callback);
        (
            FetchModel { transfers: requested.0, piq: reserved.0, ..m },
            req_addr.plus(4),
            reserved.1 && requested.1,
        )
    } else {
        (m, address, true)
    }
}

/// Requesting instructions at `address` when the PIQ has room for a word.
pub open spec fn instruction_requested(m: FetchModel, address: Address) -> (FetchModel, bool) {
    let tried = if p_available(m.piq) >= 2 {
        transfer_tried(m, address)
    } else {
        (m, address, true)
    };
    (
        FetchModel {
            regs: FetchRegs { next_state: FetchState::RequestInstruction { address: tried.1 }, ..tried.0.regs },
            ..tried.0
        },
        tried.2,
    )
}

/// Cancelling a read of instruction halfwords still in the address phase: where the stream
/// goes on, if one was cancelled.
pub open spec fn addr_phase_cancelled(m: FetchModel) -> (FetchModel, Option<Address>, bool) {
    let cancelled = t_cancel_addr_phase(m.transfers);
    match cancelled.1 {
        Some((addr, DataReadCallback::AddToPiq { skip_half })) => {
            let aborted = p_abort(m.piq);
            (
                FetchModel { transfers: cancelled.0, piq: aborted.0, ..m },
                Some(addr.plus(if skip_half { 2 } else { 0 })),
                aborted.1,
            )
        },
        _ => (FetchModel { transfers: cancelled.0, ..m }, None, true),
    }
}

/// Where fetch goes on if a speculative request made now is cancelled.
pub open spec fn following_address(m: FetchModel, branches: bool) -> (FetchModel, Address, bool) {
    if branches {
        match m.regs.state {
            FetchState::RequestInstructionSpeculatively { if_cancel, if_confirm, had_addr_phase, is_branch, .. } => {
                if had_addr_phase && is_branch {
                    let ignored = t_ignore_prev_cycle(m.transfers);
                    let aborted = p_abort(m.piq);
                    (FetchModel { transfers: ignored.0, piq: aborted.0, ..m }, if_cancel, ignored.1 && aborted.1)
                } else {
                    let c = addr_phase_cancelled(m);
                    (
                        c.0,
                        match c.1 {
                            Some(a) => a,
                            None => if had_addr_phase {
                                if_confirm
                            } else {
                                if_cancel
                            },
                        },
                        c.2,
                    )
                }
            },
            FetchState::RequestInstruction { address } => {
                let c = addr_phase_cancelled(m);
                (
                    c.0,
                    match c.1 {
                        Some(a) => a,
                        None => address,
                    },
                    c.2,
                )
            },
            _ => (m, Address(0), false),
        }
    } else {
        match m.regs.state {
            FetchState::RequestInstruction { address } => (m, address, true),
            FetchState::RequestInstructionSpeculatively { if_cancel, if_confirm, is_branch, .. } => (
                m,
                if is_branch {
                    if_cancel
                } else {
                    if_confirm
                },
                true,
            ),
            _ => (m, Address(0), false),
        }
    }
}

/// Requesting instructions at `address` speculatively (`branches`: as the target of a
/// speculative branch).
pub open spec fn speculative_requested(
    m: FetchModel,
    config: FetchConfig,
    decoded_size: u8,
    has_folded: bool,
    address: Address,
    branches: bool,
) -> (FetchModel, bool) {
    let following = following_address(m, branches);
    let m1 = following.0;
    let tried = if branches || speculates(m1, config, decoded_size, has_folded) {
        transfer_tried(m1, address)
    } else {
        (m1, address, true)
    };
    (
        FetchModel {
            regs: FetchRegs {
                next_state: FetchState::RequestInstructionSpeculatively {
                    speculated: address,
                    if_confirm: tried.1,
                    had_addr_phase: address != tried.1,
                    if_cancel: following.1,
                    is_branch: branches,
                },
                ..tried.0.regs
            },
            ..tried.0
        },
        following.2 && tried.2,
    )
}

/// Requesting instructions at `address`, speculatively if fetch speculates.
pub open spec fn next_requested(m: FetchModel, config: FetchConfig, decoded_size: u8, has_folded: bool, address: Address) -> (FetchModel, bool) {
    if speculates(m, config, decoded_size, has_folded) {
        speculative_requested(m, config, decoded_size, has_folded, address, false)
    } else {
        instruction_requested(m, address)
    }
}

/// A flush to `address`: every read is ignored and the PIQ branches.
pub open spec fn flushed(m: FetchModel, address: Address) -> FetchModel {
    FetchModel {
        regs: FetchRegs { branching: true, ..m.regs },
        transfers: t_ignore(m.transfers),
        piq: m.piq.branched(address),
    }
}

/// A vector table read after dropping the stream.
pub open spec fn vector_read(m: FetchModel, address: Address, callback: Option<u32>) -> (FetchModel, bool) {
    let dropped = FetchModel {
        transfers: t_ignore(m.transfers),
        piq: p_prepare_for_impact(m.piq, impact_address()),
        ..m
    };
    if dropped.transfers.driver.can_pipeline {
        let requested = t_request(
            dropped.transfers,
            address,
            DataReadCallback::BranchToAddressAfterVectorCall { callback },
        );
        (
            FetchModel {
                regs: FetchRegs { next_state: FetchState::Idle, ..dropped.regs },
                transfers: requested.0,
                ..dropped
            },
            requested.1,
        )
    } else {
        (dropped, true)
    }
}

/// Handling the buffered requests of a cycle, the most important one only: a vector call,
/// a branch, a speculative branch, the cancellation of a mispredicted one, a disable.
/// `None` when there is none.
pub open spec fn buffered_signals_handled(m: FetchModel, config: FetchConfig, decoded_size: u8, has_folded: bool) -> Option<(FetchModel, bool)> {
    let r = m.regs;
    if r.vector_buffer is Some {
        let (address, callback) = r.vector_buffer->0;
        let dropped = FetchModel {
            transfers: t_ignore(m.transfers),
            piq: p_prepare_for_impact(m.piq, impact_address()),
            ..m
        };
        if dropped.transfers.driver.can_pipeline {
            Some(vector_read(m, address, callback))
        } else {
            Some(
                (
                    FetchModel {
                        regs: FetchRegs {
                            next_state: FetchState::RequestVectorTable {
                                address,
                                callback_after_handler_fetched: callback,
                            },
                            ..dropped.regs
                        },
                        ..dropped
                    },
                    true,
                ),
            )
        }
    } else if r.branch_buffer is Some {
        let address = branch_target(r.branch_buffer->0);
        Some(instruction_requested(flushed(m, address), address))
    } else if r.speculative_branch_buffer is Some {
        let address = branch_target(r.speculative_branch_buffer->0);
        Some(speculative_requested(m, config, decoded_size, has_folded, address, true))
    } else if r.speculative_taken_buffer == Some(false) && (r.state matches FetchState::RequestInstructionSpeculatively {
        is_branch,
        ..
    } && is_branch) {
        let if_cancel = r.state->if_cancel;
        let had_addr_phase = r.state->had_addr_phase;
        let cancelled = if had_addr_phase {
            let ignored = t_ignore_prev_cycle(m.transfers);
            let aborted = p_abort(m.piq);
            (FetchModel { transfers: ignored.0, piq: aborted.0, ..m }, ignored.1 && aborted.1)
        } else {
            (m, true)
        };
        let next = next_requested(cancelled.0, config, decoded_size, has_folded, if_cancel);
        Some((next.0, cancelled.1 && next.1))
    } else if r.fetch_disable_buffer {
        Some(
            (
                FetchModel {
                    regs: FetchRegs { next_state: FetchState::Idle, ..m.regs },
                    transfers: t_ignore(m.transfers),
                    piq: p_prepare_for_impact(m.piq, impact_address()),
                },
                true,
            ),
        )
    } else {
        None
    }
}

/// The usual work of a cycle with nothing buffered, by the state.
pub open spec fn fetch_state_handled(m: FetchModel, config: FetchConfig, decoded_size: u8, has_folded: bool) -> (FetchModel, bool) {
    match m.regs.state {
        FetchState::Idle => (m, true),
        FetchState::Initial => {
            let requested = t_request(
                m.transfers,
                config.vector_table_address,
                DataReadCallback::SetStackPointerAndFetchResetVector,
            );
            (
                FetchModel {
                    regs: FetchRegs { next_state: FetchState::Idle, ..m.regs },
                    transfers: requested.0,
                    ..m
                },
                requested.1,
            )
        },
        FetchState::RequestVectorTable { address, callback_after_handler_fetched } => vector_read(
            m,
            address,
            callback_after_handler_fetched,
        ),
        FetchState::RequestInstruction { address } => next_requested(m, config, decoded_size, has_folded, address),
        FetchState::RequestInstructionSpeculatively { speculated, if_confirm, had_addr_phase, if_cancel, is_branch } =>
            speculative_state_handled(m, config, decoded_size, has_folded, speculated, if_confirm, had_addr_phase, if_cancel, is_branch),
        FetchState::DelayedBranch { address } => instruction_requested(flushed(m, address), address),
    }
}

/// The work of a cycle in the state `RequestInstructionSpeculatively`: a speculative branch
/// request that stands is confirmed; a presented read that overcommits the PIQ is cancelled
/// if still possible; otherwise fetch goes on.
pub open spec fn speculative_state_handled(
    m: FetchModel,
    config: FetchConfig,
    decoded_size: u8,
    has_folded: bool,
    speculated: Address,
    if_confirm: Address,
    had_addr_phase: bool,
    if_cancel: Address,
    is_branch: bool,
) -> (FetchModel, bool) {
            let confirmed = if is_branch {
                let piq = p_confirm(m.piq, speculated, m.regs.multicycle_in_execute);
                if had_addr_phase {
                    let reserved = p_reserve(piq);
                    (
                        FetchModel {
                            regs: FetchRegs { branching: true, ..m.regs },
                            transfers: t_ignore_data_if_stalled(m.transfers),
                            piq: reserved.0,
                        },
                        reserved.1,
                    )
                } else {
                    (
                        FetchModel {
                            regs: FetchRegs { branching: true, ..m.regs },
                            transfers: t_ignore(m.transfers),
                            piq,
                        },
                        true,
                    )
                }
            } else {
                (m, true)
            };
            let m1 = confirmed.0;
            if had_addr_phase && p_overcommit(m1.piq) {
                let c = addr_phase_cancelled_any(m1);
                (
                    FetchModel {
                        regs: FetchRegs {
                            next_state: FetchState::RequestInstruction {
                                address: if c.1 {
                                    if_cancel
                                } else {
                                    if_confirm
                                },
                            },
                            ..c.0.regs
                        },
                        ..c.0
                    },
                    confirmed.1 && c.2,
                )
            } else {
                let next = next_requested(m1, config, decoded_size, has_folded, if_confirm);
                (next.0, confirmed.1 && next.1)
            }
}

/// Cancelling whatever wanted read is in the address phase (its data was to go to the
/// PIQ): whether one was.
pub open spec fn addr_phase_cancelled_any(m: FetchModel) -> (FetchModel, bool, bool) {
    let cancelled = t_cancel_addr_phase(m.transfers);
    if cancelled.1 is Some {
        let aborted = p_abort(m.piq);
        (FetchModel { transfers: cancelled.0, piq: aborted.0, ..m }, true, aborted.1)
    } else {
        (FetchModel { transfers: cancelled.0, ..m }, false, true)
    }
}

/// What a run of fetch in a cycle does.
pub open spec fn fetch_run(m: FetchModel, config: FetchConfig, decoded_size: u8, has_folded: bool) -> (FetchModel, bool) {
    match buffered_signals_handled(m, config, decoded_size, has_folded) {
        Some(handled) => handled,
        None => fetch_state_handled(m, config, decoded_size, has_folded),
    }
}


impl Fetch {
    /// The stage's invariant: that of its PIQ.
    pub open spec fn wf(&self) -> bool {
        self.piq.wf()
    }

    /// A stage that starts by reading the initial stack pointer.
    pub fn new(config: FetchConfig) -> (r: Fetch)
        ensures
            r.wf(),
            r.config == config,
            r@.regs.state == FetchState::Initial,
            r@.regs.next_state == FetchState::Initial,
            r@.regs.next_override_state is None,
            !r@.regs.multicycle_in_execute && !r@.regs.branching && !r@.regs.decode_stall,
            r@.regs.pipeline_shifted is None,
            r@.regs.branch_buffer is None && r@.regs.speculative_branch_buffer is None,
            r@.regs.speculative_taken_buffer is None && r@.regs.vector_buffer is None,
            !r@.regs.fetch_disable_buffer,
            r@.piq == PiqModel::initial_with(Address(0), config.shadow_piq, config.piq_overcommit),
            r@.transfers.delayed_transfer is None,
            r@.transfers.driver.addr_phase is None && r@.transfers.driver.data_phase is None,
            r@.transfers.driver.can_pipeline,
    {
        Fetch {
            regs: FetchRegs {
                state: FetchState::Initial,
                next_state: FetchState::Initial,
                next_override_state: None,
                multicycle_in_execute: false,
                pipeline_shifted: None,
                branching: false,
                decode_stall: false,
                branch_buffer: None,
                speculative_branch_buffer: None,
                speculative_taken_buffer: None,
                vector_buffer: None,
                fetch_disable_buffer: false,
            },
            transfers: Transfers::new(),
            piq: PrefetchInputQueue::new_configured(
                Address::from_const(0),
                config.shadow_piq,
                config.piq_overcommit,
            ),
            config,
        }
    }

    /// The start of a cycle: the next state takes effect and the buffers are cleared.
    pub fn tick_extra(&mut self)
        ensures
            final(self)@ == (FetchModel { regs: ticked(old(self)@.regs), ..old(self)@ }),
            final(self).config == old(self).config,
            final(self).wf() == old(self).wf(),
    {
        if let Some(over) = self.regs.next_override_state {
            self.regs.next_state = over;
        }
        self.regs.next_override_state = None;
        self.regs.state = self.regs.next_state;
        self.regs.fetch_disable_buffer = false;
        self.regs.vector_buffer = None;
        self.regs.branch_buffer = None;
        self.regs.speculative_branch_buffer = None;
        self.regs.speculative_taken_buffer = None;
    }

    /// Handles the data of the read finished in the previous cycle, as its callback says.
    /// `nonstandard_entrypoint`: where to start instead of the reset vector, if anywhere.
    pub fn handle_requested_data(&mut self, nonstandard_entrypoint: Option<Word>) -> (r: DataActions)
        requires
            old(self).wf(),
            requested_data_handled(old(self)@, old(self).config, nonstandard_entrypoint).2,
        ensures
            final(self).wf(),
            final(self)@ == requested_data_handled(old(self)@, old(self).config, nonstandard_entrypoint).0,
            r == requested_data_handled(old(self)@, old(self).config, nonstandard_entrypoint).1,
            final(self).config == old(self).config,
    {
        let none = DataActions { set_stack_pointer: None, run_handler_callback: None };
        match self.transfers.take_delayed_transfer() {
            None => none,
            Some((data, address, callback)) => match callback {
                DataReadCallback::Ignore { in_state } => {
                    if in_state == TransferState::DataPhase {
                        self.piq.ignored_data(data, address);
                    }
                    none
                },
                DataReadCallback::SetStackPointerAndFetchResetVector => {
                    match nonstandard_entrypoint {
                        Some(entrypoint) => self.make_branch(entrypoint),
                        None => {
                            let reset_vector = self.config.vector_table_address.offset(4);
                            self.regs.vector_buffer = Some((reset_vector, None));
                        },
                    }
                    DataActions { set_stack_pointer: Some(data), run_handler_callback: None }
                },
                DataReadCallback::BranchToAddressAfterVectorCall { callback } => {
                    self.make_branch(data);
                    DataActions { set_stack_pointer: None, run_handler_callback: callback }
                },
                DataReadCallback::AddToPiq { skip_half } => {
                    self.piq.push_back_bytes(data, skip_half, address);
                    none
                },
            },
        }
    }

    /// Decode moved the pipeline with `step`: remembered for the shift of the PIQ.
    pub fn pipeline_moved(
        &mut self,
        postponed_advance_head: bool,
        phony_multicycle_nop: bool,
        step: &PipelineStepPack,
        xpsr: XPSR,
    )
        ensures
            final(self)@ == (FetchModel {
                regs: FetchRegs {
                    pipeline_shifted: Some(
                        (
                            postponed_advance_head,
                            phony_multicycle_nop && (step.instruction is NoOperation || (
                            old(self).config.skipped_causes_phony_multicycle && (xpsr.in_it()
                                && !xpsr.it_condition().holds(xpsr)
                                && !step.instruction.unconditional_in_it()))),
                            if step.branch_kind.speculative() {
                                if Brchstat::condition_holds(step.instruction, xpsr) {
                                    Brchstat::ConditionalTaken
                                } else {
                                    Brchstat::NoBranch
                                }
                            } else {
                                step.branch_kind
                            },
                            step.length,
                        ),
                    ),
                    ..old(self)@.regs
                },
                ..old(self)@
            }),
            final(self).config == old(self).config,
            final(self).wf() == old(self).wf(),
    {
        let instr = &step.instruction;
        let brstat = step.branch_kind.speculative_with_condition(instr, xpsr);
        let was_skipped = xpsr.in_it_block() && !xpsr.it_condition_passed()
            && !instr.is_unconditional_in_it_block();
        let atypical_multicycle = phony_multicycle_nop && (matches!(instr, Instruction::NoOperation)
            || (self.config.skipped_causes_phony_multicycle && was_skipped));
        self.regs.pipeline_shifted = Some((postponed_advance_head, atypical_multicycle, brstat, step.length));
    }

    /// The shift of the PIQ in this cycle. `was_last_cycle`: execute finished an
    /// instruction; `postpones`: execute runs a multicycle instruction; `decode_agu_stalled`:
    /// decode waits for the AGU.
    pub fn tick_piq(&mut self, was_last_cycle: bool, postpones: bool, decode_agu_stalled: bool)
        requires
            old(self).wf(),
            old(self)@.piq.can_tick(tick_decision(old(self)@.regs, was_last_cycle, postpones, decode_agu_stalled).0),
        ensures
            final(self).wf(),
            final(self)@ == (FetchModel {
                regs: tick_decision(old(self)@.regs, was_last_cycle, postpones, decode_agu_stalled).1,
                piq: old(self)@.piq.after_tick(tick_decision(old(self)@.regs, was_last_cycle, postpones, decode_agu_stalled).0),
                ..old(self)@
            }),
            final(self).config == old(self).config,
    {
        self.regs.multicycle_in_execute = postpones;
        self.regs.decode_stall = false;
        let shifted = self.regs.pipeline_shifted;
        self.regs.pipeline_shifted = None;
        let shift_mode = match shifted {
            Some((prev_postponed, atypical_multicycle_decoded, brchstat, consumed)) => {
                let shift_mode = if prev_postponed && brchstat.is_decode_time() {
                    PIQShiftMode::HoldBranch(false)
                } else if self.regs.branching {
                    PIQShiftMode::CompleteBranch
                } else if consumed == 1 {
                    PIQShiftMode::ShiftHalf
                } else {
                    PIQShiftMode::ShiftFull
                };
                self.regs.branching = brchstat.is_decode_time();
                if atypical_multicycle_decoded {
                    self.regs.multicycle_in_execute = true;
                }
                shift_mode
            },
            None => if was_last_cycle {
                let shift_mode = if self.regs.branching {
                    PIQShiftMode::CompleteBranch
                } else {
                    PIQShiftMode::Populate
                };
                self.regs.branching = false;
                self.regs.decode_stall = decode_agu_stalled;
                shift_mode
            } else if self.regs.branching {
                PIQShiftMode::HoldBranch(true)
            } else {
                PIQShiftMode::Populate
            },
        };
        self.piq.tick_piq(shift_mode);
    }

    /// Whether to request the next instructions speculatively. `decoded_size` and
    /// `has_folded` are those of decode.
    pub fn should_speculate(&self, decoded_size: u8, has_folded: bool) -> (r: bool)
        requires
            self.wf(),
            self@.piq.incoming is None,
            decoded_size_ok(self.config, decoded_size, has_folded),
        ensures
            r == speculates(self@, self.config, decoded_size, has_folded),
    {
        let size = if self.config.can_spec_disregards_folded && has_folded {
            decoded_size - 1
        } else {
            decoded_size
        };
        let shift_if_advances = match size {
            0 => PIQShiftMode::Populate,
            1 => PIQShiftMode::ShiftHalf,
            _ => PIQShiftMode::ShiftFull,
        };
        !self.regs.multicycle_in_execute && !self.regs.branching && !self.regs.decode_stall
            && !self.piq.speculated_would_fit(PIQShiftMode::HoldBranch(true))
            && self.piq.speculated_would_fit(shift_if_advances)
    }

    fn try_transfer(&mut self, address: Address) -> (r: Address)
        requires
            old(self).wf(),
            transfer_tried(old(self)@, address).2,
        ensures
            final(self).wf(),
            final(self)@ == transfer_tried(old(self)@, address).0,
            r == transfer_tried(old(self)@, address).1,
            final(self).config == old(self).config,
    {
        let can_request = self.transfers.can_request();
        let req_addr = address.aligned_down_to_4_bytes();
        let skip_half = !address.is_aligned_to_4_bytes();
        if self.transfers.try_reuse_ignored_requested(req_addr, DataReadCallback::AddToPiq { skip_half }) {
            self.piq.reserve();
            req_addr.offset(4)
        } else if can_request {
            self.piq.reserve();
            self.transfers.request(req_addr, DataReadCallback::AddToPiq { skip_half });
            req_addr.offset(4)
        } else {
            address
        }
    }

    fn request_instruction(&mut self, address: Address)
        requires
            old(self).wf(),
            instruction_requested(old(self)@, address).1,
        ensures
            final(self).wf(),
            final(self)@ == instruction_requested(old(self)@, address).0,
            final(self).config == old(self).config,
    {
        let next_addr = if self.piq.available_slots_for_new_entries() >= 2 {
            self.try_transfer(address)
        } else {
            address
        };
        self.regs.next_state = FetchState::RequestInstruction { address: next_addr };
    }

    fn cancel_instruction_addr_phase(&mut self) -> (r: Option<Address>)
        requires
            old(self).wf(),
            addr_phase_cancelled(old(self)@).2,
        ensures
            final(self).wf(),
            final(self)@ == addr_phase_cancelled(old(self)@).0,
            r == addr_phase_cancelled(old(self)@).1,
            final(self).config == old(self).config,
    {
        match self.transfers.cancel_addr_phase() {
            Some((addr, DataReadCallback::AddToPiq { skip_half })) => {
                self.piq.abort();
                Some(addr.offset(if skip_half { 2 } else { 0 }))
            },
            _ => None,
        }
    }

    fn following_address(&mut self, branches: bool) -> (r: Address)
        requires
            old(self).wf(),
            following_address(old(self)@, branches).2,
        ensures
            final(self).wf(),
            final(self)@ == following_address(old(self)@, branches).0,
            r == following_address(old(self)@, branches).1,
            final(self).config == old(self).config,
    {
        if branches {
            match self.regs.state {
                FetchState::RequestInstructionSpeculatively { if_cancel, if_confirm, had_addr_phase, is_branch, .. } => {
                    if had_addr_phase && is_branch {
                        self.transfers.ignore_prev_cycle();
                        self.piq.abort();
                        if_cancel
                    } else {
                        match self.cancel_instruction_addr_phase() {
                            Some(a) => a,
                            None => if had_addr_phase {
                                if_confirm
                            } else {
                                if_cancel
                            },
                        }
                    }
                },
                FetchState::RequestInstruction { address } => match self.cancel_instruction_addr_phase() {
                    Some(a) => a,
                    None => address,
                },
                _ => Address(0),
            }
        } else {
            match self.regs.state {
                FetchState::RequestInstruction { address } => address,
                FetchState::RequestInstructionSpeculatively { if_cancel, if_confirm, is_branch, .. } => if is_branch {
                    if_cancel
                } else {
                    if_confirm
                },
                _ => Address(0),
            }
        }
    }

    fn request_instruction_speculatively(&mut self, decoded_size: u8, has_folded: bool, address: Address, branches: bool)
        requires
            old(self).wf(),
            old(self)@.piq.incoming is None,
            decoded_size_ok(old(self).config, decoded_size, has_folded),
            speculative_requested(old(self)@, old(self).config, decoded_size, has_folded, address, branches).1,
        ensures
            final(self).wf(),
            final(self)@ == speculative_requested(old(self)@, old(self).config, decoded_size, has_folded, address, branches).0,
            final(self).config == old(self).config,
    {
        let following = self.following_address(branches);
        let if_confirm = if branches || self.should_speculate(decoded_size, has_folded) {
            self.try_transfer(address)
        } else {
            address
        };
        self.regs.next_state = FetchState::RequestInstructionSpeculatively {
            speculated: address,
            if_confirm,
            had_addr_phase: address != if_confirm,
            if_cancel: following,
            is_branch: branches,
        };
    }

    fn request_next(&mut self, decoded_size: u8, has_folded: bool, address: Address)
        requires
            old(self).wf(),
            old(self)@.piq.incoming is None,
            decoded_size_ok(old(self).config, decoded_size, has_folded),
            next_requested(old(self)@, old(self).config, decoded_size, has_folded, address).1,
        ensures
            final(self).wf(),
            final(self)@ == next_requested(old(self)@, old(self).config, decoded_size, has_folded, address).0,
            final(self).config == old(self).config,
    {
        if self.should_speculate(decoded_size, has_folded) {
            self.request_instruction_speculatively(decoded_size, has_folded, address, false);
        } else {
            self.request_instruction(address);
        }
    }

    fn flush(&mut self, new_addr: Address)
        requires
            old(self).wf(),
        ensures
            final(self).wf(),
            final(self)@ == flushed(old(self)@, new_addr),
            final(self).config == old(self).config,
    {
        self.transfers.ignore();
        self.regs.branching = true;
        self.piq.branch(new_addr);
    }

    fn drop_stream_for_vector_read(&mut self, address: Address, callback: Option<u32>) -> (r: bool)
        requires
            old(self).wf(),
            vector_read(old(self)@, address, callback).1,
        ensures
            final(self).wf(),
            r == old(self)@.transfers.driver.can_pipeline,
            r ==> final(self)@ == vector_read(old(self)@, address, callback).0,
            !r ==> final(self)@ == (FetchModel {
                transfers: t_ignore(old(self)@.transfers),
                piq: p_prepare_for_impact(old(self)@.piq, impact_address()),
                ..old(self)@
            }),
            final(self).config == old(self).config,
    {
        self.transfers.ignore();
        self.piq.prepare_for_impact(Address(0xffff_ffff));
        if self.transfers.can_request() {
            self.regs.next_state = FetchState::Idle;
            self.transfers.request(address, DataReadCallback::BranchToAddressAfterVectorCall { callback });
            true
        } else {
            false
        }
    }
}


impl Fetch {
    /// A branch to `word`, taken by this cycle's run.
    pub fn make_branch(&mut self, word: Word)
        ensures
            final(self)@ == (FetchModel { regs: FetchRegs { branch_buffer: Some(word), ..old(self)@.regs }, ..old(self)@ }),
            final(self).config == old(self).config,
            final(self).wf() == old(self).wf(),
    {
        self.regs.branch_buffer = Some(word);
    }

    /// A branch to `word` known after this cycle's run: taken in the next cycle.
    pub fn make_delayed_branch(&mut self, word: Word)
        ensures
            final(self)@ == (FetchModel {
                regs: FetchRegs {
                    next_override_state: Some(FetchState::DelayedBranch { address: branch_target(word) }),
                    ..old(self)@.regs
                },
                ..old(self)@
            }),
            final(self).config == old(self).config,
            final(self).wf() == old(self).wf(),
    {
        let address = Address(word).aligned_down_to_2_bytes();
        self.regs.next_override_state = Some(FetchState::DelayedBranch { address });
    }

    /// A branch whose address is known too late: fetch is disabled in this cycle and
    /// branches in the next one.
    pub fn make_late_branch(&mut self, word: Word)
        ensures
            final(self)@ == (FetchModel {
                regs: FetchRegs {
                    fetch_disable_buffer: true,
                    next_override_state: Some(FetchState::DelayedBranch { address: branch_target(word) }),
                    ..old(self)@.regs
                },
                ..old(self)@
            }),
            final(self).config == old(self).config,
            final(self).wf() == old(self).wf(),
    {
        self.disable_fetch();
        self.make_delayed_branch(word);
    }

    /// A vector call: read the vector table entry at the word-aligned `address`, then run the
    /// handler callback (if a token is given) and branch to the entry.
    pub fn make_vector_call(&mut self, address: Address, callback_on_handler_instruction_fetched: Option<u32>)
        ensures
            final(self)@ == (FetchModel {
                regs: FetchRegs {
                    vector_buffer: Some((address, callback_on_handler_instruction_fetched)),
                    ..old(self)@.regs
                },
                ..old(self)@
            }),
            final(self).config == old(self).config,
            final(self).wf() == old(self).wf(),
    {
        self.regs.vector_buffer = Some((address, callback_on_handler_instruction_fetched));
    }

    /// A branch decided in decode: a speculative one is buffered as such, any other is an
    /// ordinary branch.
    pub fn make_decode_time_branch(&mut self, address: Word, branch_kind: Brchstat, will_be_mispredicted: bool)
        ensures
            final(self)@ == (FetchModel {
                regs: if branch_kind.speculative() {
                    FetchRegs { speculative_branch_buffer: Some(address), ..old(self)@.regs }
                } else {
                    FetchRegs { branch_buffer: Some(address), ..old(self)@.regs }
                },
                ..old(self)@
            }),
            final(self).config == old(self).config,
            final(self).wf() == old(self).wf(),
    {
        if branch_kind.is_speculative() {
            self.regs.speculative_branch_buffer = Some(address);
        } else {
            self.make_branch(address);
        }
    }

    /// The speculative branch of the previous cycle is taken.
    pub fn confirm_speculative_branch(&mut self)
        ensures
            final(self)@ == (FetchModel {
                regs: FetchRegs { speculative_taken_buffer: Some(true), ..old(self)@.regs },
                ..old(self)@
            }),
            final(self).config == old(self).config,
            final(self).wf() == old(self).wf(),
    {
        self.regs.speculative_taken_buffer = Some(true);
    }

    /// The speculative branch of the previous cycle was mispredicted.
    pub fn cancel_mispredicted_branch(&mut self)
        ensures
            final(self)@ == (FetchModel {
                regs: FetchRegs { speculative_taken_buffer: Some(false), ..old(self)@.regs },
                ..old(self)@
            }),
            final(self).config == old(self).config,
            final(self).wf() == old(self).wf(),
    {
        self.regs.speculative_taken_buffer = Some(false);
    }

    /// No new reads in this cycle (an LSU branch is coming); the next branch enables fetch.
    pub fn disable_fetch(&mut self)
        ensures
            final(self)@ == (FetchModel {
                regs: FetchRegs { fetch_disable_buffer: true, ..old(self)@.regs },
                ..old(self)@
            }),
            final(self).config == old(self).config,
            final(self).wf() == old(self).wf(),
    {
        self.regs.fetch_disable_buffer = true;
    }

    /// The F/D register, for decode.
    pub fn peek_head(&self) -> (r: FDReg)
        requires
            self.wf(),
            self@.piq.shadow_head_consistent(),
        ensures
            r@ == self@.piq.head,
    {
        self.piq.peek_head()
    }

    /// What decode sees as the head of the PIQ (see `PiqModel::shadow_head_view`).
    pub fn peek_shadow_head(&self) -> (r: FDReg)
        requires
            self.wf(),
        ensures
            r@ == self@.piq.shadow_head_view(),
    {
        self.piq.peek_shadow_head()
    }

    /// Address of the first halfword of the F/D register.
    pub fn head_address(&self) -> (r: Address)
        ensures
            r == self@.piq.head_addr,
    {
        self.piq.get_head_address()
    }

    /// Like requesting instructions at `address`, but a wanted read still in the address
    /// phase is cancelled first.
    pub fn force_request_instruction(&mut self, address: Address)
        requires
            old(self).wf(),
            ({
                let c = addr_phase_cancelled_any(old(self)@);
                c.2 && instruction_requested(c.0, address).1
            }),
        ensures
            final(self).wf(),
            final(self)@ == instruction_requested(addr_phase_cancelled_any(old(self)@).0, address).0,
            final(self).config == old(self).config,
    {
        if self.transfers.cancel_addr_phase().is_some() {
            self.piq.abort();
        }
        self.request_instruction(address);
    }

    fn handle_buffered_signals(&mut self, decoded_size: u8, has_folded: bool) -> (r: bool)
        requires
            old(self).wf(),
            old(self)@.piq.incoming is None,
            decoded_size_ok(old(self).config, decoded_size, has_folded),
            buffered_signals_handled(old(self)@, old(self).config, decoded_size, has_folded) matches Some(h) ==> h.1,
        ensures
            final(self).wf(),
            r == buffered_signals_handled(old(self)@, old(self).config, decoded_size, has_folded) is Some,
            r ==> final(self)@ == (buffered_signals_handled(old(self)@, old(self).config, decoded_size, has_folded)->0).0,
            !r ==> final(self)@ == old(self)@,
            final(self).config == old(self).config,
    {
        if let Some((address, callback)) = self.regs.vector_buffer {
            if !self.drop_stream_for_vector_read(address, callback) {
                self.regs.next_state = FetchState::RequestVectorTable {
                    address,
                    callback_after_handler_fetched: callback,
                };
            }
            return true;
        }
        if let Some(word) = self.regs.branch_buffer {
            let address = Address(word).aligned_down_to_2_bytes();
            self.flush(address);
            self.request_instruction(address);
            return true;
        }
        if let Some(word) = self.regs.speculative_branch_buffer {
            let address = Address(word).aligned_down_to_2_bytes();
            self.request_instruction_speculatively(decoded_size, has_folded, address, true);
            return true;
        }
        if let Some(false) = self.regs.speculative_taken_buffer {
            if let FetchState::RequestInstructionSpeculatively { if_cancel, had_addr_phase, is_branch: true, .. } = self.regs.state {
                if had_addr_phase {
                    self.transfers.ignore_prev_cycle();
                    self.piq.abort();
                }
                self.request_next(decoded_size, has_folded, if_cancel);
                return true;
            }
        }
        if self.regs.fetch_disable_buffer {
            self.transfers.ignore();
            self.piq.prepare_for_impact(Address(0xffff_ffff));
            self.regs.next_state = FetchState::Idle;
            return true;
        }
        false
    }

    fn handle_speculative_state(
        &mut self,
        decoded_size: u8,
        has_folded: bool,
        speculated: Address,
        if_confirm: Address,
        had_addr_phase: bool,
        if_cancel: Address,
        is_branch: bool,
    )
        requires
            old(self).wf(),
            old(self)@.piq.incoming is None,
            decoded_size_ok(old(self).config, decoded_size, has_folded),
            speculative_state_handled(old(self)@, old(self).config, decoded_size, has_folded, speculated, if_confirm, had_addr_phase, if_cancel, is_branch).1,
        ensures
            final(self).wf(),
            final(self)@ == speculative_state_handled(old(self)@, old(self).config, decoded_size, has_folded, speculated, if_confirm, had_addr_phase, if_cancel, is_branch).0,
            final(self).config == old(self).config,
    {
            if is_branch {
                let held = self.regs.multicycle_in_execute;
                self.piq.confirm_speculated_branch(speculated, held);
                if had_addr_phase {
                    self.transfers.ignore_data_if_stalled();
                    self.piq.reserve();
                } else {
                    self.transfers.ignore();
                }
                self.regs.branching = true;
            }
            if had_addr_phase && self.piq.is_overcommit() {
                if self.transfers.cancel_addr_phase().is_some() {
                    self.piq.abort();
                    self.regs.next_state = FetchState::RequestInstruction { address: if_cancel };
                } else {
                    self.regs.next_state = FetchState::RequestInstruction { address: if_confirm };
                }
            } else {
                self.request_next(decoded_size, has_folded, if_confirm);
            }
    }

    fn handle_fetch_state(&mut self, decoded_size: u8, has_folded: bool)
        requires
            old(self).wf(),
            old(self)@.piq.incoming is None,
            decoded_size_ok(old(self).config, decoded_size, has_folded),
            fetch_state_handled(old(self)@, old(self).config, decoded_size, has_folded).1,
        ensures
            final(self).wf(),
            final(self)@ == fetch_state_handled(old(self)@, old(self).config, decoded_size, has_folded).0,
            final(self).config == old(self).config,
    {
        match self.regs.state {
            FetchState::Idle => {},
            FetchState::Initial => {
                self.regs.next_state = FetchState::Idle;
                self.transfers.request(self.config.vector_table_address, DataReadCallback::SetStackPointerAndFetchResetVector);
            },
            FetchState::RequestVectorTable { address, callback_after_handler_fetched } => {
                self.drop_stream_for_vector_read(address, callback_after_handler_fetched);
            },
            FetchState::RequestInstruction { address } => {
                self.request_next(decoded_size, has_folded, address);
            },
            FetchState::RequestInstructionSpeculatively { speculated, if_confirm, had_addr_phase, if_cancel, is_branch } => {
                self.handle_speculative_state(decoded_size, has_folded, speculated, if_confirm, had_addr_phase, if_cancel, is_branch);
            },
            FetchState::DelayedBranch { address } => {
                self.flush(address);
                self.request_instruction(address);
            },
        }
    }

    /// Requests reads as the buffered requests and the state say, and sets the state of the
    /// next cycle. `decoded_size` and `has_folded` are those of decode.
    pub fn run_fetch(&mut self, decoded_size: u8, has_folded: bool)
        requires
            old(self).wf(),
            old(self)@.piq.incoming is None,
            decoded_size_ok(old(self).config, decoded_size, has_folded),
            fetch_run(old(self)@, old(self).config, decoded_size, has_folded).1,
        ensures
            final(self).wf(),
            final(self)@ == fetch_run(old(self)@, old(self).config, decoded_size, has_folded).0,
            final(self).config == old(self).config,
    {
        let any_buffer_handled = self.handle_buffered_signals(decoded_size, has_folded);
        if !any_buffer_handled {
            self.handle_fetch_state(decoded_size, has_folded);
        }
    }
}


/// At the start of a cycle every buffered request of the previous cycle is gone, and
/// the state is the override if one was set, else the planned next state.
pub proof fn lemma_tick_clears_buffers(r: FetchRegs)
    ensures
        ticked(r).branch_buffer is None,
        ticked(r).speculative_branch_buffer is None,
        ticked(r).speculative_taken_buffer is None,
        ticked(r).vector_buffer is None,
        !ticked(r).fetch_disable_buffer,
        ticked(r).next_override_state is None,
        ticked(r).state == (if r.next_override_state is Some { r.next_override_state->0 } else { r.next_state }),
{
}

/// A buffered vector call wins over every other buffered request: the stream is
/// dropped (no read wanted but the vector read, the PIQ waits for the impact) and the
/// vector table entry is read now or as soon as the bus accepts it.
pub proof fn lemma_vector_call_first(m: FetchModel, config: FetchConfig, decoded_size: u8, has_folded: bool)
    requires
        m.regs.vector_buffer is Some,
    ensures
        ({
            let (address, callback) = m.regs.vector_buffer->0;
            let after = fetch_run(m, config, decoded_size, has_folded).0;
            &&& after.piq.impact_pending
            &&& !live(after.transfers.driver.data_phase)
            &&& after.transfers.delayed_transfer is None
            &&& if m.transfers.driver.can_pipeline {
                &&& after.regs.next_state == FetchState::Idle
                &&& after.transfers.driver.addr_phase == Some(BusRead {
                    address,
                    callback: DataReadCallback::BranchToAddressAfterVectorCall { callback },
                })
            } else {
                &&& after.regs.next_state == (FetchState::RequestVectorTable {
                    address,
                    callback_after_handler_fetched: callback,
                })
                &&& !live(after.transfers.driver.addr_phase)
            }
        }),
{
}

/// A buffered branch (with no vector call) flushes the stream: the PIQ restarts empty
/// at the halfword-aligned target, every earlier read is ignored, and fetch goes on from the
/// target.
pub proof fn lemma_branch_flushes(m: FetchModel, config: FetchConfig, decoded_size: u8, has_folded: bool)
    requires
        m.regs.vector_buffer is None,
        m.regs.branch_buffer is Some,
    ensures
        ({
            let target = branch_target(m.regs.branch_buffer->0);
            let after = fetch_run(m, config, decoded_size, has_folded).0;
            &&& after.piq.queue == Seq::<u16>::empty()
            &&& after.piq.queue_head_addr == target
            &&& after.piq.in_flight <= 1
            &&& after.regs.branching
            &&& after.regs.next_state is RequestInstruction
            &&& !live(after.transfers.driver.data_phase)
            &&& after.transfers.delayed_transfer is None
            &&& live(after.transfers.driver.addr_phase) ==> after.transfers.driver.addr_phase->0.address.0
                == target.0 - target.0 % 4
        }),
{
}

/// Fetch speculates only when no multicycle instruction, branch or decode stall holds
/// it back.
pub proof fn lemma_speculation_needs_quiet(m: FetchModel, config: FetchConfig, decoded_size: u8, has_folded: bool)
    requires
        speculates(m, config, decoded_size, has_folded),
    ensures
        !m.regs.multicycle_in_execute,
        !m.regs.branching,
        !m.regs.decode_stall,
{
}

/// Disabling fetch (with nothing more important buffered) drops the stream and idles.
pub proof fn lemma_disable_drops_stream(m: FetchModel, config: FetchConfig, decoded_size: u8, has_folded: bool)
    requires
        m.regs.vector_buffer is None,
        m.regs.branch_buffer is None,
        m.regs.speculative_branch_buffer is None,
        !(m.regs.speculative_taken_buffer == Some(false) && (m.regs.state matches FetchState::RequestInstructionSpeculatively {
            is_branch,
            ..
        } && is_branch)),
        m.regs.fetch_disable_buffer,
    ensures
        fetch_run(m, config, decoded_size, has_folded).0.regs.next_state == FetchState::Idle,
        fetch_run(m, config, decoded_size, has_folded).0.piq.impact_pending,
        !live(fetch_run(m, config, decoded_size, has_folded).0.transfers.driver.addr_phase),
        !live(fetch_run(m, config, decoded_size, has_folded).0.transfers.driver.data_phase),
        fetch_run(m, config, decoded_size, has_folded).1,
{
}

} // verus!
