use cmemu_lib::common::Address;
use cmemu_lib::fetch::transfers::{BusRead, DataReadCallback, TransferState, Transfers};

fn fetch_to_piq() -> DataReadCallback {
    DataReadCallback::AddToPiq { skip_half: false }
}

#[test]
fn request_then_cancel_hands_back_the_callback() {
    let mut t = Transfers::new();
    assert!(t.can_request());
    t.request(Address(0x100), fetch_to_piq());
    assert!(!t.can_request());
    assert_eq!(t.cancel_addr_phase(), Some((Address(0x100), fetch_to_piq())));
    assert_eq!(
        t.driver.addr_phase,
        Some(BusRead { address: Address(0x100), callback: DataReadCallback::Ignore { in_state: TransferState::AddrPhase } })
    );
    // nothing left to cancel
    assert_eq!(t.cancel_addr_phase(), None);
}

#[test]
fn an_ignored_read_in_the_address_phase_can_be_reused() {
    let mut t = Transfers::new();
    t.request(Address(0x100), fetch_to_piq());
    t.cancel_addr_phase();
    assert!(!t.try_reuse_ignored_requested(Address(0x104), fetch_to_piq()));
    assert!(t.try_reuse_ignored_requested(Address(0x100), DataReadCallback::AddToPiq { skip_half: true }));
    assert_eq!(
        t.driver.addr_phase,
        Some(BusRead { address: Address(0x100), callback: DataReadCallback::AddToPiq { skip_half: true } })
    );
    // a live read is not reused
    assert!(!t.try_reuse_ignored_requested(Address(0x100), fetch_to_piq()));
}

#[test]
fn ignore_marks_every_read_and_drops_the_delayed_one() {
    let mut t = Transfers::new();
    t.request(Address(0x100), fetch_to_piq());
    t.driver.data_phase = Some(BusRead { address: Address(0xfc), callback: fetch_to_piq() });
    t.read_done(Address(0xf8), 0x1234_5678, fetch_to_piq());
    t.ignore();
    assert_eq!(t.driver.addr_phase.unwrap().callback, DataReadCallback::Ignore { in_state: TransferState::AddrPhase });
    assert_eq!(t.driver.data_phase.unwrap().callback, DataReadCallback::Ignore { in_state: TransferState::DataPhase });
    assert_eq!(t.take_delayed_transfer(), None);
}

#[test]
fn delayed_data_is_handed_out_once() {
    let mut t = Transfers::new();
    t.read_done(Address(0x0), 0x2000_1000, DataReadCallback::SetStackPointerAndFetchResetVector);
    assert_eq!(t.take_delayed_transfer(), Some((0x2000_1000, Address(0), DataReadCallback::SetStackPointerAndFetchResetVector)));
    assert_eq!(t.take_delayed_transfer(), None);
}

#[test]
fn stalled_data_phase_is_ignored() {
    let mut t = Transfers::new();
    t.driver.data_phase = Some(BusRead { address: Address(0x10), callback: fetch_to_piq() });
    t.driver.pipeline_advanced = true;
    assert!(!t.ignore_data_if_stalled());
    t.driver.pipeline_advanced = false;
    assert!(t.ignore_data_if_stalled());
    assert!(Transfers::is_ignored(&t.driver.data_phase.unwrap().callback));
    // already ignored
    assert!(!t.ignore_data_if_stalled());
}

#[test]
fn previous_cycle_read_is_ignored_where_it_is() {
    let mut t = Transfers::new();
    t.request(Address(0x20), fetch_to_piq());
    t.ignore_prev_cycle();
    assert_eq!(t.driver.addr_phase.unwrap().callback, DataReadCallback::Ignore { in_state: TransferState::AddrPhase });
    let mut t = Transfers::new();
    t.driver.data_phase = Some(BusRead { address: Address(0x20), callback: fetch_to_piq() });
    t.driver.pipeline_advanced = true;
    t.ignore_prev_cycle();
    assert_eq!(t.driver.data_phase.unwrap().callback, DataReadCallback::Ignore { in_state: TransferState::DataPhase });
}
