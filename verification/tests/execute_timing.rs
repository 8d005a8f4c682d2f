use cmemu_lib::decode::Brchstat;
use cmemu_lib::execute::{
    highest_set_bit, mask_between_bits, sdiv_execution_result_writing_cycle, udiv_execution_result_writing_cycle,
    umull_execution_result_writing_cycles,
};

#[test]
fn umull_timing_depends_on_the_halves() {
    assert_eq!(umull_execution_result_writing_cycles(1, 1), (2, 1));
    assert_eq!(umull_execution_result_writing_cycles(0, 0x1234_5678), (2, 1));
    assert_eq!(umull_execution_result_writing_cycles(0x1_0000, 1), (3, 2));
    assert_eq!(umull_execution_result_writing_cycles(0x1_0001, 0x1_0001), (4, 3));
}

#[test]
fn udiv_timing() {
    assert_eq!(udiv_execution_result_writing_cycle(0, 5), 1);
    assert_eq!(udiv_execution_result_writing_cycle(1, 2), 2);
    // highest bits 6 and 1: 5 / 4 + 5 - 1
    assert_eq!(udiv_execution_result_writing_cycle(100, 3), 5);
    assert_eq!(sdiv_execution_result_writing_cycle(0, 7), 1);
}

#[test]
fn bit_helpers() {
    assert_eq!(mask_between_bits(7, 4), 0xf0);
    assert_eq!(mask_between_bits(31, 0), 0xffff_ffff);
    assert_eq!(highest_set_bit(100), 6);
    assert_eq!(highest_set_bit(1), 0);
}

#[test]
fn branch_status_kinds() {
    assert!(Brchstat::DecodeTimeConditional.is_speculative());
    assert!(Brchstat::DecodeTimeConditionalBackwards.is_decode_time());
    assert!(Brchstat::ExecuteTimeUnconditional.is_execute_time());
    assert!(Brchstat::ExecuteTimeConditional.is_conditional());
    assert!(!Brchstat::NoBranch.changes_pc());
    assert!(Brchstat::ConditionalTaken.changes_pc());
    assert!(!Brchstat::ConditionalTaken.is_speculative());
    assert_eq!(Brchstat::ConditionalTaken.status_bits(), 0b1000);
}
