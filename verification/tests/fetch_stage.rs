use cmemu_lib::common::Address;
use cmemu_lib::decode::Brchstat;
use cmemu_lib::fetch::stage::{DataActions, Fetch, FetchConfig, FetchState};
use cmemu_lib::fetch::transfers::{BusRead, DataReadCallback};

fn config() -> FetchConfig {
    FetchConfig {
        skipped_causes_phony_multicycle: false,
        can_spec_disregards_folded: false,
        vector_table_address: Address(0),
        shadow_piq: true,
        piq_overcommit: true,
    }
}

/// One cycle of fetch as the core runs it, the bus accepting a new read.
fn cycle(f: &mut Fetch) -> DataActions {
    f.tick_extra();
    let actions = f.handle_requested_data(None);
    f.tick_piq(false, false, false);
    f.transfers.driver.can_pipeline = true;
    f.run_fetch(0, false);
    actions
}

#[test]
fn boots_from_the_vector_table() {
    let mut f = Fetch::new(config());
    // the initial stack pointer is read first
    let actions = cycle(&mut f);
    assert_eq!(actions, DataActions { set_stack_pointer: None, run_handler_callback: None });
    assert_eq!(
        f.transfers.driver.addr_phase,
        Some(BusRead { address: Address(0), callback: DataReadCallback::SetStackPointerAndFetchResetVector })
    );
    assert_eq!(f.regs.next_state, FetchState::Idle);

    // its data sets SP and asks for the reset vector
    f.transfers.driver.addr_phase = None;
    f.transfers.read_done(Address(0), 0x2000_4000, DataReadCallback::SetStackPointerAndFetchResetVector);
    let actions = cycle(&mut f);
    assert_eq!(actions, DataActions { set_stack_pointer: Some(0x2000_4000), run_handler_callback: None });
    assert_eq!(
        f.transfers.driver.addr_phase,
        Some(BusRead { address: Address(4), callback: DataReadCallback::BranchToAddressAfterVectorCall { callback: None } })
    );

    // the reset vector (a Thumb address) makes fetch branch there
    f.transfers.driver.addr_phase = None;
    f.transfers.read_done(Address(4), 0x0000_0101, DataReadCallback::BranchToAddressAfterVectorCall { callback: Some(7) });
    let actions = cycle(&mut f);
    assert_eq!(actions, DataActions { set_stack_pointer: None, run_handler_callback: Some(7) });
    assert_eq!(
        f.transfers.driver.addr_phase,
        Some(BusRead { address: Address(0x100), callback: DataReadCallback::AddToPiq { skip_half: false } })
    );
    assert_eq!(f.regs.next_state, FetchState::RequestInstruction { address: Address(0x104) });
    assert!(f.regs.branching);
}

#[test]
fn a_nonstandard_entrypoint_skips_the_reset_vector() {
    let mut f = Fetch::new(config());
    cycle(&mut f);
    f.transfers.driver.addr_phase = None;
    f.transfers.read_done(Address(0), 0x2000_4000, DataReadCallback::SetStackPointerAndFetchResetVector);
    f.tick_extra();
    let actions = f.handle_requested_data(Some(0x202));
    assert_eq!(actions.set_stack_pointer, Some(0x2000_4000));
    assert_eq!(f.regs.branch_buffer, Some(0x202));
    assert_eq!(f.regs.vector_buffer, None);
}

#[test]
fn decode_time_branches_are_buffered_by_kind() {
    let mut f = Fetch::new(config());
    f.make_decode_time_branch(0x300, Brchstat::DecodeTimeConditional, false);
    assert_eq!(f.regs.speculative_branch_buffer, Some(0x300));
    assert_eq!(f.regs.branch_buffer, None);
    f.make_decode_time_branch(0x400, Brchstat::DecodeTimeUnconditional, false);
    assert_eq!(f.regs.branch_buffer, Some(0x400));
    f.tick_extra();
    assert_eq!(f.regs.branch_buffer, None);
    assert_eq!(f.regs.speculative_branch_buffer, None);
}

#[test]
fn delayed_and_late_branches_take_effect_next_cycle() {
    let mut f = Fetch::new(config());
    f.make_late_branch(0x501);
    assert!(f.regs.fetch_disable_buffer);
    f.tick_extra();
    assert_eq!(f.regs.state, FetchState::DelayedBranch { address: Address(0x500) });
    assert!(!f.regs.fetch_disable_buffer);
}

#[test]
fn no_speculation_while_branching() {
    let mut f = Fetch::new(config());
    f.regs.branching = true;
    assert!(!f.should_speculate(1, false));
}

#[test]
fn disabling_fetch_drops_the_stream() {
    let mut f = Fetch::new(config());
    f.tick_extra();
    f.transfers.driver.data_phase = Some(BusRead { address: Address(0x80), callback: DataReadCallback::AddToPiq { skip_half: false } });
    f.disable_fetch();
    f.run_fetch(0, false);
    assert_eq!(f.regs.next_state, FetchState::Idle);
    assert!(cmemu_lib::fetch::transfers::Transfers::is_ignored(&f.transfers.driver.data_phase.unwrap().callback));
}
