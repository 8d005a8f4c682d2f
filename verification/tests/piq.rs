use cmemu_lib::common::Address;
use cmemu_lib::fetch::piq::{PIQShiftMode, PrefetchInputQueue};

fn addr(a: u32) -> Address {
    Address::from(a)
}

fn fill_piq(piq: &mut PrefetchInputQueue, vals: &[u32], mut skip_half: bool, mut address: u32) {
    for &val in vals {
        piq.reserve();
        piq.push_back_bytes(val, skip_half, addr(address));
        let mode = if piq.is_overcommit() {
            PIQShiftMode::ShiftFull
        } else {
            PIQShiftMode::Populate
        };
        piq.tick_piq(mode);
        skip_half = false;
        address += 4;
    }
}

#[test]
fn dummy() {
    let piq = PrefetchInputQueue::new();
    println!("Empty: {piq:?}");
    assert_eq!(piq.get_head_address(), addr(0));
    assert_eq!(piq.total_slots_allocated(), 0);
}

#[test]
fn normal() {
    let mut piq = PrefetchInputQueue::new_at(addr(0x888));
    println!("Empty: {piq:?}");
    assert!(piq.peek_head().to_vec().is_empty());

    // Branch to
    piq.branch(addr(0x42));
    assert!(piq.peek_head().to_vec().is_empty());

    // it is still no here
    assert_eq!(piq.get_head_address(), addr(0x888));
    piq.reserve();
    piq.push_back_bytes(0x1337_0000, true, addr(0x40));
    println!("Pre-edge: {piq:?}");

    // it is still no here
    assert_eq!(piq.get_head_address(), addr(0x888));

    // not it is!
    piq.tick_piq(PIQShiftMode::CompleteBranch);
    assert_eq!(piq.get_head_address(), addr(0x42));
    assert_eq!(piq.total_slots_allocated(), 2);
    println!("Post-edge: {piq:?}");

    piq.reserve();
    piq.reserve();
    piq.push_back_bytes(0x1111_0000, false, addr(0x44));
    println!("new data {piq:?}");
    piq.tick_piq(PIQShiftMode::Populate);
    println!("populated {piq:?}");
    assert_eq!(piq.get_head_address(), addr(0x42));
    assert_eq!(piq.total_slots_allocated(), 5);
    assert_eq!(piq.peek_head().to_vec(), vec![0x1337, 0x0000]);

    piq.push_back_bytes(0x3333_2222, false, addr(0x48));
    println!("new data {piq:?}");
    piq.tick_piq(PIQShiftMode::ShiftFull);
    println!("fully shifted {piq:?}");
    assert_eq!(piq.get_head_address(), addr(0x46));
    assert_eq!(piq.peek_head().to_vec(), vec![0x1111, 0x2222]);

    piq.tick_piq(PIQShiftMode::ShiftFull);
    println!("fully shifted {piq:?}");

    // Branching, half in buffer
    piq.reserve();
    piq.tick_piq(PIQShiftMode::HoldBranch(true));
    assert_eq!(piq.total_slots_allocated(), 4);

    piq.branch(addr(0x10));
    println!("branched {piq:?}");
    assert_eq!(piq.get_head_address(), addr(0x4a));
    assert_eq!(piq.peek_head().to_vec(), vec![0x3333]);

    piq.reserve();
    piq.tick_piq(PIQShiftMode::HoldBranch(true));
    piq.push_back_bytes(0x5555_4444, false, addr(0x10));
    piq.tick_piq(PIQShiftMode::HoldBranch(false));
    println!("received {piq:?}");
    assert_eq!(piq.total_slots_allocated(), 4);

    // execute the branch
    piq.tick_piq(PIQShiftMode::CompleteBranch);
    println!("branch performed {piq:?}");
    assert_eq!(piq.get_head_address(), addr(0x10));
    assert_eq!(piq.peek_head().to_vec(), vec![0x4444, 0x5555]);
    assert_eq!(piq.total_slots_allocated(), 2);
}

#[test]
fn invalid_push() {
    // The accepted case: a reserved transfer whose data continues the queue.
    let mut piq = PrefetchInputQueue::new_at(addr(0xa0));
    piq.reserve();
    piq.push_back_bytes(0x42, false, addr(0xa0));
    piq.tick_piq(PIQShiftMode::Populate);
    assert_eq!(piq.peek_head().to_vec(), vec![0x42, 0x0]);
}

#[test]
fn overcommit_buffer() {
    let mut piq = PrefetchInputQueue::new_at(addr(0xa0));

    piq.reserve();
    piq.reserve();
    piq.push_back_bytes(0, false, addr(0xa0));
    piq.tick_piq(PIQShiftMode::Populate);
    piq.push_back_bytes(0, false, addr(0xa4));
    piq.tick_piq(PIQShiftMode::Populate);
    assert!(piq.speculated_would_fit(PIQShiftMode::ShiftFull));
    assert!(piq.speculated_would_fit(PIQShiftMode::ShiftHalf));
    assert!(piq.speculated_would_fit(PIQShiftMode::Populate));
    assert!(piq.speculated_would_fit(PIQShiftMode::HoldBranch(false)));
    piq.reserve();

    assert!(piq.speculated_would_fit(PIQShiftMode::ShiftFull));
    assert!(!piq.speculated_would_fit(PIQShiftMode::ShiftHalf));
    assert!(!piq.speculated_would_fit(PIQShiftMode::HoldBranch(false)));

    piq.push_back_bytes(0, false, addr(0xa8));
    piq.tick_piq(PIQShiftMode::Populate);
    println!("full: {piq:?}");
    assert_eq!(piq.total_slots_allocated(), 6);
    assert_eq!(piq.get_head_address(), addr(0xa0));
    assert_eq!(piq.get_queue_head_address(), addr(0xa4));

    assert!(piq.speculated_would_fit(PIQShiftMode::ShiftFull));
    assert!(!piq.speculated_would_fit(PIQShiftMode::ShiftHalf));
    assert!(!piq.speculated_would_fit(PIQShiftMode::Populate));
    assert!(!piq.speculated_would_fit(PIQShiftMode::HoldBranch(false)));
    piq.reserve();
    println!("overflow: {piq:?}");

    // Hypothetical late overflow -> the incoming data fit "just in time"
    piq.tick_piq(PIQShiftMode::Populate);
    assert!(piq.is_overcommit());
    piq.push_back_bytes(1, false, addr(0xac));
    println!("late overflow: {piq:?}");
    assert!(piq.is_overcommit());
    piq.tick_piq(PIQShiftMode::ShiftFull);
    println!("final: {piq:?}");
    assert!(!piq.is_overcommit());
}

#[test]
fn shadow_simple() {
    let mut piq = PrefetchInputQueue::new_at(addr(0xa0));

    fill_piq(&mut piq, &[0x2222_1111, 0x4444_3333, 0x6666_5555], false, 0xa0);

    assert_eq!(piq.peek_head().to_vec(), vec![0x1111, 0x2222]);
    assert_eq!(piq.peek_shadow_head().to_vec(), vec![0x1111, 0x2222]);
    piq.tick_piq(PIQShiftMode::ShiftHalf);
    assert_eq!(piq.peek_head().to_vec(), vec![0x2222, 0x3333]);
    assert_eq!(piq.peek_shadow_head().to_vec(), vec![0x2222, 0x3333]);
    piq.tick_piq(PIQShiftMode::ShiftFull);
    piq.tick_piq(PIQShiftMode::ShiftFull);
    println!("half left: {piq:?}");

    assert_eq!(piq.peek_head().to_vec(), vec![0x6666]);
    assert_eq!(piq.peek_shadow_head().to_vec(), vec![0x6666, 0x1111]);
    piq.tick_piq(PIQShiftMode::ShiftHalf);
    assert_eq!(piq.peek_head().to_vec(), Vec::<u16>::new());
    assert_eq!(piq.peek_shadow_head().to_vec(), vec![0x1111, 0x2222]);

    piq.reserve();
    piq.push_back_bytes(0x8888_7777, false, addr(0xac));
    // Not yet
    assert_eq!(piq.peek_shadow_head().to_vec(), vec![0x1111, 0x2222]);
    piq.tick_piq(PIQShiftMode::Populate);
    assert_eq!(piq.peek_head().to_vec(), vec![0x7777, 0x8888]);
    assert_eq!(piq.peek_shadow_head().to_vec(), vec![0x7777, 0x8888]);

    piq.tick_piq(PIQShiftMode::ShiftHalf);
    assert_eq!(piq.peek_head().to_vec(), vec![0x8888]);
    assert_eq!(piq.peek_shadow_head().to_vec(), vec![0x8888, 0x3333]);
    println!("final: {piq:?}");
}

#[test]
fn shadow_simple_branch() {
    // Simple aligned destination, no outstanding transfers
    let mut piq = PrefetchInputQueue::new_at(addr(0xa0));

    fill_piq(&mut piq, &[0x2222_1111, 0x4444_3333], false, 0xa0);
    piq.tick_piq(PIQShiftMode::ShiftFull);
    piq.tick_piq(PIQShiftMode::ShiftHalf);

    piq.branch(addr(0x40));
    assert_eq!(piq.peek_head().to_vec(), vec![0x4444]);
    assert_eq!(piq.peek_shadow_head().to_vec(), vec![0x4444, 0 /* uninit */]);

    piq.reserve();
    piq.tick_piq(PIQShiftMode::CompleteBranch);
    assert_eq!(piq.peek_head().to_vec(), Vec::<u16>::new());
    assert_eq!(piq.peek_shadow_head().to_vec(), vec![0x1111, 0x2222]);

    piq.push_back_bytes(0x8888_7777, false, addr(0x40));
    piq.tick_piq(PIQShiftMode::Populate);
    assert_eq!(piq.peek_head().to_vec(), vec![0x7777, 0x8888]);
    assert_eq!(piq.peek_shadow_head().to_vec(), vec![0x7777, 0x8888]);
    println!("half left: {piq:?}");

    piq.tick_piq(PIQShiftMode::ShiftHalf);
    assert_eq!(piq.peek_head().to_vec(), vec![0x8888]);
    assert_eq!(piq.peek_shadow_head().to_vec(), vec![0x8888, 0x3333]);
    println!("final: {piq:?}");

    // Branch to unaligned this time
    piq.branch(addr(0x2));
    piq.reserve();
    piq.tick_piq(PIQShiftMode::CompleteBranch);
    piq.push_back_bytes(0x1234_5678, true, addr(0x0));
    piq.tick_piq(PIQShiftMode::Populate);
    assert_eq!(piq.peek_head().to_vec(), vec![0x1234]);
    assert_eq!(piq.peek_shadow_head().to_vec(), vec![0x1234, 0x3333]);
}

#[test]
fn shadow_outstanding_branch() {
    // Outstanding transfers, but branch is not held under a multicycle.
    let mut piq = PrefetchInputQueue::new_at(addr(0xa2));

    fill_piq(&mut piq, &[0x0002_0001, 0x0004_0003, 0x0006_0005, 0x0008_0007], true, 0xa0);
    println!("start: {piq:?}");
    piq.reserve(); // T1:
    piq.tick_piq(PIQShiftMode::ShiftFull);

    assert!(piq.speculated_would_fit(PIQShiftMode::ShiftHalf));
    piq.reserve(); // T2: speculated (single cycle)

    piq.branch(addr(0x42)); // decode time: positioned at 7

    assert_eq!(piq.peek_head().to_vec(), vec![6, 7]);
    assert_eq!(piq.peek_shadow_head().to_vec(), vec![6, 7]);
    piq.reserve(); // new fetch

    // T1 Finishes in the same cycle as the branch decodes (under single-cycle instr)
    piq.ignored_data(0x1234_5678, addr(0xac));
    piq.tick_piq(PIQShiftMode::CompleteBranch);

    // T2 Finishes - ignored
    piq.ignored_data(0xaaaa_bbbb, addr(0xb0));
    // Nothing to decode
    piq.tick_piq(PIQShiftMode::Populate);

    println!("after branch: {piq:?}");
    assert_eq!(piq.peek_head().to_vec(), Vec::<u16>::new());
    assert_eq!(piq.peek_shadow_head().to_vec(), vec![7, 8]);

    // New data
    piq.push_back_bytes(0x000b_000a, true, addr(0x40));
    piq.tick_piq(PIQShiftMode::Populate);
    piq.reserve();

    assert_eq!(piq.peek_head().to_vec(), vec![0xb]);
    assert_eq!(piq.peek_shadow_head().to_vec(), vec![0xb, 0x5678]);
    println!("final: {piq:?}");

    piq.push_back_bytes(0x000d_000c, false, addr(0x44));
    piq.tick_piq(PIQShiftMode::Populate);
    piq.tick_piq(PIQShiftMode::ShiftFull);

    assert_eq!(piq.peek_head().to_vec(), vec![0x000d]);
    assert_eq!(piq.peek_shadow_head().to_vec(), vec![0x000d, 0x0005]);
}

fn run_multicycle_branch(steps_to_branch: usize) {
    // Outstanding transfers, branch is held under a multicycle.
    let mut piq = PrefetchInputQueue::new_at(addr(0xa2));

    fill_piq(&mut piq, &[0x0002_0001, 0x0004_0003, 0x0006_0005, 0x0008_0007], true, 0xa0);
    println!("start: {piq:?}");
    piq.reserve(); // T1:
    piq.tick_piq(PIQShiftMode::ShiftFull);

    // No place for speculated transfer
    piq.branch(addr(0x42)); // decode time: positioned at 6

    assert_eq!(piq.peek_head().to_vec(), vec![6, 7]);
    assert_eq!(piq.peek_shadow_head().to_vec(), vec![6, 7]);
    piq.reserve(); // new fetch

    // T1 Finishes in the same cycle as the branch decodes
    piq.ignored_data(0x1234_5678, addr(0xac));

    let modes_to_branch = [
        PIQShiftMode::CompleteBranch,
        PIQShiftMode::HoldBranch(false),
        PIQShiftMode::HoldBranch(true),
    ];
    let mut was_stalled = false;

    for step in modes_to_branch.into_iter().take(steps_to_branch).rev() {
        was_stalled |= matches!(step, PIQShiftMode::HoldBranch(true));
        piq.tick_piq(step);
    }

    println!("after branch: {piq:?}");
    assert_eq!(piq.peek_head().to_vec(), Vec::<u16>::new());
    assert_eq!(piq.peek_shadow_head().to_vec(), vec![7, 8]);

    // New data
    piq.push_back_bytes(0x000b_000a, true, addr(0x40));
    piq.tick_piq(PIQShiftMode::Populate);
    piq.reserve();

    assert_eq!(piq.peek_head().to_vec(), vec![0xb]);
    assert_eq!(piq.peek_shadow_head().to_vec(), vec![0xb, 0x5678]);
    println!("final: {piq:?}");

    piq.push_back_bytes(0x000d_000c, false, addr(0x44));
    piq.tick_piq(PIQShiftMode::Populate);
    piq.tick_piq(PIQShiftMode::ShiftFull);

    assert_eq!(piq.peek_head().to_vec(), vec![0x000d]);
    if was_stalled {
        // Here we see the branch moved to the last slot!
        assert_eq!(piq.peek_shadow_head().to_vec(), vec![0x000d, 0x0006]);
    } else {
        assert_eq!(piq.peek_shadow_head().to_vec(), vec![0x000d, 0x0005]);
    }
}

#[test]
fn shadow_outstanding_multicycle_branch() {
    // branch_stalled, branch_at_last, branch_after_normal
    run_multicycle_branch(3);
    run_multicycle_branch(2);
    run_multicycle_branch(1);
}

#[test]
fn shadow_off_shows_the_fd_register() {
    let mut piq = PrefetchInputQueue::new_configured(addr(0xa0), false, true);
    fill_piq(&mut piq, &[0x2222_1111, 0x4444_3333, 0x6666_5555], false, 0xa0);
    assert_eq!(piq.peek_shadow_head().to_vec(), vec![0x1111, 0x2222]);
    piq.tick_piq(PIQShiftMode::ShiftFull);
    piq.tick_piq(PIQShiftMode::ShiftFull);
    piq.tick_piq(PIQShiftMode::ShiftHalf);
    assert_eq!(piq.peek_head().to_vec(), vec![0x6666]);
    assert_eq!(piq.peek_shadow_head().to_vec(), vec![0x6666, 0]);
    piq.tick_piq(PIQShiftMode::ShiftHalf);
    assert_eq!(piq.peek_shadow_head().to_vec(), vec![0]);
    // A branch neither marks the ring nor lets stale data into it.
    piq.branch(addr(0x40));
    piq.ignored_data(0x1234_5678, addr(0xb0));
    assert_eq!(piq.peek_shadow_head().to_vec(), vec![0]);
}

#[test]
fn without_overcommit_nothing_fits() {
    let piq = PrefetchInputQueue::new_configured(addr(0xa0), true, false);
    assert!(!piq.speculated_would_fit(PIQShiftMode::Populate));
    assert!(!piq.speculated_would_fit(PIQShiftMode::HoldBranch(false)));
}

#[test]
fn hard_reset_keeps_the_incoming_latch() {
    let mut piq = PrefetchInputQueue::new_at(addr(0xa0));
    piq.reserve();
    piq.push_back_bytes(0x2222_1111, false, addr(0xa0));
    piq.hard_reset(addr(0xa0));
    assert_eq!(piq.get_head_address(), addr(0xa0));
    assert_eq!(piq.total_slots_allocated(), 0);
    // The latched data is still taken in on the next tick.
    piq.tick_piq(PIQShiftMode::Populate);
    assert_eq!(piq.peek_head().to_vec(), vec![0x1111, 0x2222]);
}

#[test]
fn shadow_ring_shows_the_held_branch_register() {
    let mut piq = PrefetchInputQueue::new_at(addr(0x100));
    piq.reserve();
    piq.push_back_bytes(0x2222_1111, false, addr(0x100));
    piq.tick_piq(PIQShiftMode::Populate);
    assert_eq!(piq.peek_head().to_vec(), vec![0x1111, 0x2222]);
    // Decode-time branch: the F/D register stays in view.
    piq.branch(addr(0x200));
    assert_eq!(piq.peek_shadow_head().to_vec(), vec![0x1111, 0x2222]);
    // The branch is held under a multi-cycle instruction while the target arrives.
    piq.reserve();
    piq.push_back_bytes(0x4444_3333, false, addr(0x200));
    piq.tick_piq(PIQShiftMode::HoldBranch(true));
    assert_eq!(piq.peek_head().to_vec(), vec![0x1111, 0x2222]);
    assert_eq!(piq.peek_shadow_head().to_vec(), vec![0x1111, 0x2222]);
    piq.reserve();
    piq.push_back_bytes(0x6666_5555, false, addr(0x204));
    piq.tick_piq(PIQShiftMode::HoldBranch(false));
    assert_eq!(piq.peek_shadow_head().to_vec(), vec![0x1111, 0x2222]);
    // Completing the branch shows the target in both views.
    piq.tick_piq(PIQShiftMode::CompleteBranch);
    assert_eq!(piq.get_head_address(), addr(0x200));
    assert_eq!(piq.peek_head().to_vec(), vec![0x3333, 0x4444]);
    assert_eq!(piq.peek_shadow_head().to_vec(), vec![0x3333, 0x4444]);
    piq.tick_piq(PIQShiftMode::ShiftFull);
    assert_eq!(piq.peek_head().to_vec(), vec![0x5555, 0x6666]);
    assert_eq!(piq.peek_shadow_head().to_vec(), vec![0x5555, 0x6666]);
}
