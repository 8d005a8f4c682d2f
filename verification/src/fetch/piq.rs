//! The prefetch input queue (PIQ) of the Cortex-M3 fetch unit.
//!
//! Fetch operates on halfwords, since each Thumb instruction is 16 or 32 bits long.
//! The queue is modelled with two dual views:
//!
//! * the *Train* view: an input latch ("incoming"), a queue of up to 4 halfwords and the
//!   Fetch/Decode register of up to 2 halfwords that is presented to the decoder;
//! * the *Shadow Ring* view: a ring of 6 halfword slots that keeps stale values around,
//!   which explains the (phantom) IT curse observed on the hardware.
//!
//! Within a cycle the queue is driven in three stages: `tick_piq` performs the shift
//! requested by decode and pulls in the data that arrived, then the contents are read and
//! reservations recorded, and late in the cycle `push_back_bytes` latches incoming data.
use vstd::prelude::*;

use crate::common::{Address, Word, lemma_plus_plus};
use crate::fetch::buffers::{FDReg, PrefetchQueue};

verus! {

/// The prefetch cache holds 3 words, that is 6 halfword entries.
pub const PREFETCH_CACHE_ENTRIES_COUNT: usize = 6;

/// Entries of the Fetch/Decode register.
pub const PREFETCH_HEAD_ENTRIES_COUNT: usize = 2;

/// Entries of the queue behind the Fetch/Decode register.
pub const PREFETCH_QUEUE_ENTRIES_COUNT: usize = PREFETCH_CACHE_ENTRIES_COUNT - PREFETCH_HEAD_ENTRIES_COUNT;

/// The shift of the PIQ requested for a cycle.
#[derive(Copy, Clone, PartialEq, Eq, Structural, Debug)]
pub enum PIQShiftMode {
    /// Fill the F/D register if it is not fully occupied.
    Populate,
    /// A decode-time branch is under a multi-cycle instruction (`true` unless this is
    /// its last cycle).
    HoldBranch(bool),
    /// A narrow instruction was consumed.
    ShiftHalf,
    /// A wide (or narrow and folded) instruction was consumed.
    ShiftFull,
    /// There was a branch going on: the target goes into the F/D register now.
    CompleteBranch,
}

/// The low halfword of a word (the one at the lower address, little-endian).
pub open spec fn low_half(w: Word) -> u16 {
    (w % 0x10000) as u16
}

/// The high halfword of a word (the one at the higher address, little-endian).
pub open spec fn high_half(w: Word) -> u16 {
    (w / 0x10000) as u16
}

/// Splits a word into its two halfwords, lower address first.
pub fn split_word(w: Word) -> (r: (u16, u16))
    ensures
        r.0 == low_half(w),
        r.1 == high_half(w),
{
    let lo = (w & 0xffff) as u16;
    let hi = (w >> 16) as u16;
    assert((w & 0xffff) as u16 == (w % 0x10000) as u16) by (bit_vector);
    assert((w >> 16) as u16 == (w / 0x10000) as u16) by (bit_vector);
    (lo, hi)
}

// ---------------------------------------------------------------------------
// Shadow ring
// ---------------------------------------------------------------------------

/// Abstract state of the shadow ring: its 6 slots, the head and tail positions, and
/// whether a potentially stalled decode-time branch is pending ("trick").
#[verifier::ext_equal]
pub struct ShadowRing {
    pub slots: Seq<u16>,
    pub head: nat,
    pub tail: nat,
    pub trick: bool,
}

impl ShadowRing {
    pub open spec fn wf(self) -> bool {
        &&& self.slots.len() == PREFETCH_CACHE_ENTRIES_COUNT
        &&& self.head < PREFETCH_CACHE_ENTRIES_COUNT
        &&& self.tail < PREFETCH_CACHE_ENTRIES_COUNT
    }

    /// The slot after `i`, wrapping around the ring.
    pub open spec fn next_slot(i: nat) -> nat {
        if i + 1 >= PREFETCH_CACHE_ENTRIES_COUNT {
            0
        } else {
            (i + 1) as nat
        }
    }

    /// A value is written at the tail, which moves on.
    pub open spec fn pushed(self, v: u16) -> ShadowRing {
        ShadowRing {
            slots: self.slots.update(self.tail as int, v),
            tail: Self::next_slot(self.tail),
            ..self
        }
    }

    /// The head moves on by one slot; nothing is erased.
    pub open spec fn popped(self) -> ShadowRing {
        ShadowRing { head: Self::next_slot(self.head), ..self }
    }

    /// After a branch the ring is refilled from slot 0.
    pub open spec fn rewound(self) -> ShadowRing {
        ShadowRing { head: 0, tail: 0, trick: false, ..self }
    }

    /// The head goes back to slot 0, the tail stays.
    pub open spec fn head_rewound(self) -> ShadowRing {
        ShadowRing { head: 0, ..self }
    }

    /// The two slots at the head.
    pub open spec fn front_pair(self) -> (u16, u16) {
        (self.slots[self.head as int], self.slots[Self::next_slot(self.head) as int])
    }

    /// A pending branch that is stalled under a multi-cycle instruction escapes to the
    /// last two slots, and the ring is refilled from slot 0.
    pub open spec fn branch_held(self) -> ShadowRing {
        if self.trick {
            ShadowRing {
                slots: self.slots.update(4, self.front_pair().0).update(5, self.front_pair().1),
                head: 4,
                tail: 0,
                trick: false,
            }
        } else {
            self
        }
    }
}

/// Ring buffer of the shadow view of the PIQ (see the module documentation).
///
/// It behaves as a ring of 6 slots whose empty slots keep their stale values. After a
/// branch, the buffer "rewinds" to the 0th position, yet data of a transfer already in its
/// data phase may still be written. A decode-time branch held under a multi-cycle
/// instruction is moved to the last two slots, so that two more words may be fetched
/// without overriding it. Capacity is not checked (head may equal tail).
#[derive(Clone, Copy, Debug)]
pub struct ShadowBuffer {
    arr: [u16; 6],
    tail: usize,
    head: usize,
    trick: bool,
}

impl View for ShadowBuffer {
    type V = ShadowRing;

    closed spec fn view(&self) -> ShadowRing {
        ShadowRing {
            slots: self.arr@,
            head: self.head as nat,
            tail: self.tail as nat,
            trick: self.trick,
        }
    }
}

/// The ring of a fresh shadow buffer: zeroed slots, head and tail at slot 0.
pub open spec fn initial_ring() -> ShadowRing {
    ShadowRing { slots: Seq::new(6, |i: int| 0u16), head: 0, tail: 0, trick: false }
}

impl ShadowBuffer {
    pub fn new() -> (r: ShadowBuffer)
        ensures
            r@ == initial_ring(),
    {
        let r = ShadowBuffer { arr: [0u16; 6], tail: 0, head: 0, trick: false };
        assert(r@.slots =~= initial_ring().slots);
        r
    }

    /// Point B: after a branch the ring is filled from the 0th slot.
    pub fn reset(&mut self)
        ensures
            final(self)@ == old(self)@.rewound(),
    {
        self.tail = 0;
        self.head = 0;
        self.trick = false;
    }

    pub fn reset_head(&mut self)
        ensures
            final(self)@ == old(self)@.head_rewound(),
    {
        self.head = 0;
    }

    /// Point E: a decode-time branch may stall; the tail is kept for the data of point D.
    pub fn reset_trick(&mut self)
        ensures
            final(self)@ == (ShadowRing { trick: true, ..old(self)@ }),
    {
        self.trick = true;
    }

    pub fn complete_branch(&mut self)
        ensures
            final(self)@ == old(self)@.head_rewound(),
    {
        self.reset_head();
    }

    /// Second part of point E.
    pub fn hold_branch(&mut self)
        requires
            old(self)@.wf(),
        ensures
            final(self)@ == old(self)@.branch_held(),
            final(self)@.wf(),
    {
        if self.trick {
            let (a, b) = self.peek2();
            self.arr[PREFETCH_CACHE_ENTRIES_COUNT - 2] = a;
            self.arr[PREFETCH_CACHE_ENTRIES_COUNT - 1] = b;
            self.head = PREFETCH_CACHE_ENTRIES_COUNT - 2;
            self.tail = 0;
            self.trick = false;
            assert(self@.slots =~= old(self)@.branch_held().slots);
        }
    }

    pub fn inc_tail(&mut self)
        requires
            old(self)@.wf(),
        ensures
            final(self)@ == (ShadowRing { tail: ShadowRing::next_slot(old(self)@.tail), ..old(self)@ }),
            final(self)@.wf(),
    {
        self.tail = Self::next_mod(self.tail);
    }

    pub fn inc_head(&mut self)
        requires
            old(self)@.wf(),
        ensures
            final(self)@ == old(self)@.popped(),
            final(self)@.wf(),
    {
        self.head = Self::next_mod(self.head);
    }

    /// The slot after `a`, wrapping around the ring.
    pub fn next_mod(a: usize) -> (r: usize)
        requires
            a < usize::MAX,
        ensures
            r == ShadowRing::next_slot(a as nat),
    {
        let mut a = a + 1;
        if a >= PREFETCH_CACHE_ENTRIES_COUNT {
            a = 0;
        }
        a
    }

    pub fn push(&mut self, val: u16)
        requires
            old(self)@.wf(),
        ensures
            final(self)@ == old(self)@.pushed(val),
            final(self)@.wf(),
    {
        self.arr[self.tail] = val;
        self.inc_tail();
        assert(self@.slots =~= old(self)@.pushed(val).slots);
    }

    pub fn pop(&mut self)
        requires
            old(self)@.wf(),
        ensures
            final(self)@ == old(self)@.popped(),
            final(self)@.wf(),
    {
        self.inc_head();
    }

    pub fn peek2(&self) -> (r: (u16, u16))
        requires
            self@.wf(),
        ensures
            r == self@.front_pair(),
    {
        (self.arr[self.head], self.arr[Self::next_mod(self.head)])
    }

    /// The slots of the ring, from slot 0.
    pub fn iter(&self) -> (r: [u16; 6])
        ensures
            r@ == self@.slots,
    {
        self.arr
    }

    /// Head position.
    pub fn head_position(&self) -> (r: usize)
        ensures
            r == self@.head,
    {
        self.head
    }

    /// Tail position.
    pub fn tail_position(&self) -> (r: usize)
        ensures
            r == self@.tail,
    {
        self.tail
    }
}

// ---------------------------------------------------------------------------
// Prefetch input queue
// ---------------------------------------------------------------------------

/// Abstract state of the prefetch input queue.
#[verifier::ext_equal]
pub struct PiqModel {
    /// Data phase of a fetch transfer, to be taken in on the next edge:
    /// (address of the first kept halfword, low halfword, high halfword, whether the low
    /// halfword is skipped because the target was unaligned).
    pub incoming: Option<(Address, u16, u16, bool)>,
    /// Prefetched halfwords behind the F/D register.
    pub queue: Seq<u16>,
    /// Address of the first halfword of `queue` (after a branch it need not follow `head`).
    pub queue_head_addr: Address,
    /// Address of the first halfword of the F/D register.
    pub head_addr: Address,
    /// The F/D register.
    pub head: Seq<u16>,
    pub shadow: ShadowRing,
    /// In the cycle of the decode of a branch, data of a finishing transfer still lands in
    /// the shadow ring.
    pub allow_stale: bool,
    /// The shadow ring holds the skipped lower half of an unaligned jump target.
    pub unaligned_head: bool,
    /// Everything was cleared, and the queue waits for the new stream.
    pub impact_pending: bool,
    /// Number of words requested on the instruction bus whose data has not arrived yet.
    pub in_flight: nat,
    /// The shadow ring is what decode sees (otherwise it sees the F/D register).
    pub shadow_enabled: bool,
    /// Speculation may over-commit the queue; without it nothing is speculated.
    pub overcommit_allowed: bool,
}

impl PiqModel {
    pub open spec fn wf(self) -> bool {
        &&& self.head.len() <= PREFETCH_HEAD_ENTRIES_COUNT
        &&& self.queue.len() <= PREFETCH_QUEUE_ENTRIES_COUNT
        &&& self.shadow.wf()
        &&& self.in_flight <= u8::MAX
    }

    /// Slots taken or reserved: the F/D register counts as one word once it holds anything,
    /// every in-flight transfer as a word, and each queued halfword as one.
    pub open spec fn total_slots(self) -> nat {
        2 * ((if self.head.len() == 0 { 0nat } else { 1nat }) + self.in_flight) + self.queue.len()
    }

    /// The halfwords that the incoming data adds to the stream.
    pub open spec fn incoming_halves(self) -> Seq<u16> {
        match self.incoming {
            None => Seq::empty(),
            Some((_, lo, hi, skip)) => if skip { seq![hi] } else { seq![lo, hi] },
        }
    }

    /// Halfwords that the given shift consumes from the F/D register
    /// (a completed branch discards what is left of the old stream).
    pub open spec fn consumed(self, shift: PIQShiftMode) -> nat {
        match shift {
            PIQShiftMode::ShiftHalf => 1,
            PIQShiftMode::ShiftFull => 2,
            PIQShiftMode::CompleteBranch => self.head.len(),
            _ => 0,
        }
    }

    /// Address of the F/D register once the shift took away the consumed halfwords.
    pub open spec fn head_addr_after_shift(self, shift: PIQShiftMode) -> Address {
        match shift {
            PIQShiftMode::ShiftHalf => self.head_addr.plus(2),
            PIQShiftMode::ShiftFull | PIQShiftMode::CompleteBranch => self.queue_head_addr,
            PIQShiftMode::Populate => if self.head.len() == 0 {
                self.queue_head_addr
            } else {
                self.head_addr
            },
            PIQShiftMode::HoldBranch(_) => self.head_addr,
        }
    }

    /// The whole stream after the shift: what is left of the F/D register, the queue and
    /// the incoming halfwords.
    pub open spec fn stream_after_shift(self, shift: PIQShiftMode) -> Seq<u16> {
        self.head.skip(self.consumed(shift) as int) + self.queue + self.incoming_halves()
    }

    /// The shadow ring after a tick: a pending branch is held or resets the ring, consumed
    /// halfwords pop the head, arrived data is pushed, and a skipped unaligned half is
    /// popped once the stream moves.
    pub open spec fn shadow_after_tick(self, shift: PIQShiftMode) -> ShadowRing {
        let s2 = self.shadow_after_shift(shift);
        let s3 = match self.incoming {
            Some((_, lo, hi, _)) => s2.pushed(lo).pushed(hi),
            None => s2,
        };
        if !(shift is HoldBranch) && self.unaligned_after_pull() {
            s3.popped()
        } else {
            s3
        }
    }

    /// The shadow ring once a pending branch was held (or reset the ring) and the consumed
    /// halfwords popped its head.
    pub open spec fn shadow_after_shift(self, shift: PIQShiftMode) -> ShadowRing {
        let s0 = self.shadow;
        let s1 = if s0.trick {
            if shift == PIQShiftMode::HoldBranch(true) {
                s0.branch_held()
            } else {
                s0.rewound()
            }
        } else {
            s0
        };
        match shift {
            PIQShiftMode::ShiftHalf => s1.popped(),
            PIQShiftMode::ShiftFull => s1.popped().popped(),
            PIQShiftMode::CompleteBranch => s1.head_rewound(),
            _ => s1,
        }
    }

    /// Whether the skipped unaligned half is pending once the incoming data is taken in.
    pub open spec fn unaligned_after_pull(self) -> bool {
        self.unaligned_head || (self.incoming matches Some((_, _, _, skip)) && skip)
    }

    /// Whether `tick_piq` may run with the given shift: the requested shift must be
    /// possible, the F/D register must precede the queue in the address space whenever it
    /// is refilled, and arriving data must fit and continue the queue.
    pub open spec fn can_tick(self, shift: PIQShiftMode) -> bool {
        &&& self.impact_pending ==> shift == PIQShiftMode::Populate
        &&& !self.impact_pending ==> {
            &&& shift == PIQShiftMode::ShiftHalf ==> self.head.len() > 0
            &&& shift == PIQShiftMode::ShiftFull ==> self.head.len() == 2
            &&& !(shift is HoldBranch) ==> self.head_addr_after_shift(shift).plus(
                2 * (self.head.len() - self.consumed(shift)),
            ) == self.queue_head_addr
            &&& self.incoming matches Some((addr, _, _, _)) ==> {
                &&& addr == self.queue_head_addr.plus(2 * self.queue.len() as int)
                &&& self.queue_room_before_pull(shift) >= 2
            }
        }
    }

    /// Free queue entries when the incoming data is pulled in: unless the branch is held,
    /// the F/D register has first been refilled from the queue.
    pub open spec fn queue_room_before_pull(self, shift: PIQShiftMode) -> int {
        if shift is HoldBranch {
            PREFETCH_QUEUE_ENTRIES_COUNT - self.queue.len()
        } else {
            let left = self.head.len() - self.consumed(shift);
            let moved = vstd::math::min(
                PREFETCH_HEAD_ENTRIES_COUNT - left,
                self.queue.len() as int,
            );
            PREFETCH_QUEUE_ENTRIES_COUNT - (self.queue.len() - moved)
        }
    }

    /// State after `tick_piq`. A held branch keeps the F/D register and only queues the
    /// arrived data; otherwise the F/D register takes the first (up to 2) halfwords of the
    /// stream and the queue the rest, right behind it in the address space.
    pub open spec fn after_tick(self, shift: PIQShiftMode) -> PiqModel {
        if self.impact_pending {
            self
        } else {
            let base = PiqModel {
                incoming: None,
                allow_stale: false,
                shadow: self.shadow_after_tick(shift),
                unaligned_head: if shift is HoldBranch {
                    self.unaligned_after_pull()
                } else {
                    false
                },
                ..self
            };
            if shift is HoldBranch {
                PiqModel { queue: self.queue + self.incoming_halves(), ..base }
            } else {
                let stream = self.stream_after_shift(shift);
                let k = vstd::math::min(PREFETCH_HEAD_ENTRIES_COUNT as int, stream.len() as int);
                let a = self.head_addr_after_shift(shift);
                PiqModel {
                    head: stream.take(k),
                    queue: stream.skip(k),
                    head_addr: a,
                    queue_head_addr: a.plus(2 * k),
                    ..base
                }
            }
        }
    }

    /// Step 1 of a tick: the consumed halfwords leave the F/D register.
    pub open spec fn shifted(self, shift: PIQShiftMode) -> PiqModel {
        PiqModel {
            head: self.head.skip(self.consumed(shift) as int),
            head_addr: self.head_addr_after_shift(shift),
            shadow: self.shadow_after_shift(shift),
            ..self
        }
    }

    /// The F/D register takes halfwords from the queue while it has room.
    pub open spec fn filled(self) -> PiqModel {
        let s = self.head + self.queue;
        let k = vstd::math::min(PREFETCH_HEAD_ENTRIES_COUNT as int, s.len() as int);
        PiqModel {
            head: s.take(k),
            queue: s.skip(k),
            queue_head_addr: self.head_addr.plus(2 * k),
            ..self
        }
    }

    /// The incoming data joins the queue, and both its halves the shadow ring.
    pub open spec fn pulled(self) -> PiqModel {
        PiqModel {
            incoming: None,
            queue: self.queue + self.incoming_halves(),
            shadow: match self.incoming {
                Some((_, lo, hi, _)) => self.shadow.pushed(lo).pushed(hi),
                None => self.shadow,
            },
            unaligned_head: self.unaligned_after_pull(),
            ..self
        }
    }

    /// Whether a speculated shift keeps the queue within its entries: never when
    /// over-committing is not allowed, otherwise when the slots left fit in the queue.
    pub open spec fn would_fit(self, shift: PIQShiftMode) -> bool {
        self.overcommit_allowed && self.slots_after(shift) <= PREFETCH_QUEUE_ENTRIES_COUNT
    }

    /// Slots that stay taken if decode makes the given shift.
    pub open spec fn slots_after(self, shift: PIQShiftMode) -> int {
        let freed: int = match shift {
            PIQShiftMode::ShiftHalf => if self.head.len() == 1 {
                2
            } else {
                1
            },
            PIQShiftMode::ShiftFull | PIQShiftMode::CompleteBranch => 2,
            PIQShiftMode::Populate => 2 - self.head.len(),
            PIQShiftMode::HoldBranch(_) => 0,
        };
        if self.total_slots() >= freed {
            self.total_slots() - freed
        } else {
            0
        }
    }

    /// When the shadow ring is used, the F/D register agrees with the two halfwords at
    /// its head.
    pub open spec fn shadow_head_consistent(self) -> bool {
        self.shadow_enabled ==> {
            &&& self.head.len() >= 1 ==> self.head[0] == self.shadow.front_pair().0
            &&& self.head.len() >= 2 ==> self.head[1] == self.shadow.front_pair().1
        }
    }

    /// What decode sees as the head of the queue: the two halfwords at the head of the
    /// shadow ring, or, without the shadow ring, the F/D register followed by a zero
    /// halfword when it has room for it.
    pub open spec fn shadow_head_view(self) -> Seq<u16> {
        if self.shadow_enabled {
            seq![self.shadow.front_pair().0, self.shadow.front_pair().1]
        } else if self.head.len() < PREFETCH_HEAD_ENTRIES_COUNT {
            self.head.push(0)
        } else {
            self.head
        }
    }

    /// The queue is cut off at a branch: its contents and the outstanding transfers are
    /// dropped and it continues at the target.
    pub open spec fn branched(self, target: Address) -> PiqModel {
        PiqModel {
            shadow: if self.shadow_enabled && !self.impact_pending {
                ShadowRing { trick: true, ..self.shadow }
            } else {
                self.shadow
            },
            allow_stale: if self.shadow_enabled {
                !self.impact_pending
            } else {
                self.allow_stale
            },
            queue: Seq::empty(),
            queue_head_addr: target,
            in_flight: 0,
            impact_pending: false,
            ..self
        }
    }

    /// Fresh state at the given address, with the shadow ring in use.
    pub open spec fn initial(address: Address) -> PiqModel {
        Self::initial_with(address, true, true)
    }

    /// Fresh state at the given address, with the shadow ring in use or not.
    pub open spec fn initial_with(
        address: Address,
        shadow_enabled: bool,
        overcommit_allowed: bool,
    ) -> PiqModel {
        PiqModel {
            incoming: None,
            queue: Seq::empty(),
            queue_head_addr: address,
            head_addr: address,
            head: Seq::empty(),
            shadow: initial_ring(),
            allow_stale: false,
            unaligned_head: false,
            impact_pending: false,
            in_flight: 0,
            shadow_enabled,
            overcommit_allowed,
        }
    }
}

/// Refilling the F/D register, appending to the queue and refilling it again keeps the
/// stream of halfwords in order.
proof fn lemma_refill_stream(h: Seq<u16>, q: Seq<u16>, inc: Seq<u16>)
    ensures
        ({
            let s = h + q;
            let k = vstd::math::min(PREFETCH_HEAD_ENTRIES_COUNT as int, s.len() as int);
            s.take(k) + (s.skip(k) + inc) == h + q + inc
        }),
{
    let s = h + q;
    let k = vstd::math::min(PREFETCH_HEAD_ENTRIES_COUNT as int, s.len() as int);
    assert(s.take(k) + (s.skip(k) + inc) =~= h + q + inc);
}

/// The four steps of a tick compose to `after_tick`.
proof fn lemma_tick_steps(m: PiqModel, shift: PIQShiftMode)
    requires
        m.wf(),
        !m.impact_pending,
    ensures
        ({
            let hold = shift is HoldBranch;
            let m1 = m.shifted(shift);
            let m2 = if hold { m1 } else { m1.filled() };
            let m3 = m2.pulled();
            let m4 = if hold { m3 } else { m3.filled() };
            let m5 = PiqModel { incoming: None, allow_stale: false, ..m4 };
            let m6 = if !hold && m5.unaligned_head {
                PiqModel { unaligned_head: false, shadow: m5.shadow.popped(), ..m5 }
            } else {
                m5
            };
            m6 == m.after_tick(shift)
        }),
{
    let hold = shift is HoldBranch;
    let m1 = m.shifted(shift);
    let m2 = if hold { m1 } else { m1.filled() };
    let m3 = m2.pulled();
    let m4 = if hold { m3 } else { m3.filled() };
    let m5 = PiqModel { incoming: None, allow_stale: false, ..m4 };
    let m6 = if !hold && m5.unaligned_head {
        PiqModel { unaligned_head: false, shadow: m5.shadow.popped(), ..m5 }
    } else {
        m5
    };
    let f = m.after_tick(shift);
    if !hold {
        let h1 = m.head.skip(m.consumed(shift) as int);
        lemma_refill_stream(h1, m.queue, m.incoming_halves());
        assert(m2.incoming == m.incoming);
        assert(m2.incoming_halves() == m.incoming_halves());
        assert(m3.head + m3.queue =~= m.stream_after_shift(shift));
        assert(m6.head =~= f.head);
        assert(m6.queue =~= f.queue);
        assert(m6.head_addr == f.head_addr);
        assert(m6.queue_head_addr == f.queue_head_addr);
    } else {
        assert(m6.queue =~= f.queue);
    }
    assert(m6.shadow == f.shadow);
    assert(m6.unaligned_head == f.unaligned_head);
    assert(m6.incoming == f.incoming);
    assert(m6.allow_stale == f.allow_stale);
    assert(m6.in_flight == f.in_flight);
    assert(m6.impact_pending == f.impact_pending);
    assert(m6 =~= f);
}

/// Stores subsequent prefetched halfwords, consumed by Decode when needed.
///
/// Two dual views are kept: the Train view (incoming latch, queue, F/D register), which
/// explains when further instructions are prefetched, and the Shadow Ring view, which
/// explains the IT curse. The queue may hold data of addresses not subsequent to the F/D
/// register (after a jump).
#[derive(Debug)]
pub struct PrefetchInputQueue {
    incoming: Option<(Address, [u16; 2], bool)>,
    queue: PrefetchQueue,
    queue_head_addr: Address,
    head_addr: Address,
    head_reg: FDReg,
    shadow: ShadowBuffer,
    allow_stale_data_this_cycle: bool,
    shadow_unaligned_head: bool,
    prepare_for_impact: bool,
    in_flight: u8,
    shadow_enabled: bool,
    overcommit_allowed: bool,
}

impl View for PrefetchInputQueue {
    type V = PiqModel;

    closed spec fn view(&self) -> PiqModel {
        PiqModel {
            incoming: match self.incoming {
                None => None,
                Some((a, d, s)) => Some((a, d[0], d[1], s)),
            },
            queue: self.queue@,
            queue_head_addr: self.queue_head_addr,
            head_addr: self.head_addr,
            head: self.head_reg@,
            shadow: self.shadow@,
            allow_stale: self.allow_stale_data_this_cycle,
            unaligned_head: self.shadow_unaligned_head,
            impact_pending: self.prepare_for_impact,
            in_flight: self.in_flight as nat,
            shadow_enabled: self.shadow_enabled,
            overcommit_allowed: self.overcommit_allowed,
        }
    }
}

impl PrefetchInputQueue {
    pub open spec fn wf(&self) -> bool {
        self@.wf()
    }

    pub fn new() -> (r: PrefetchInputQueue)
        ensures
            r@ == PiqModel::initial(Address(0)),
            r.wf(),
    {
        Self::new_at(Address::from_const(0))
    }

    pub fn new_at(address: Address) -> (r: PrefetchInputQueue)
        ensures
            r@ == PiqModel::initial(address),
            r.wf(),
    {
        Self::new_configured(address, true, true)
    }

    /// A fresh queue at the given address, with the shadow ring in use or not, and with
    /// speculation allowed to over-commit it or not.
    pub fn new_configured(address: Address, shadow_enabled: bool, overcommit_allowed: bool) -> (r:
        PrefetchInputQueue)
        ensures
            r@ == PiqModel::initial_with(address, shadow_enabled, overcommit_allowed),
            r.wf(),
    {
        PrefetchInputQueue {
            incoming: None,
            queue: PrefetchQueue::new(),
            head_addr: address,
            queue_head_addr: address,
            head_reg: FDReg::new(),
            shadow: ShadowBuffer::new(),
            allow_stale_data_this_cycle: false,
            shadow_unaligned_head: false,
            prepare_for_impact: false,
            in_flight: 0,
            shadow_enabled,
            overcommit_allowed,
        }
    }

    /// Whether the queue would not be over-committed if decode made the given shift.
    pub fn speculated_would_fit(&self, speculated_shift: PIQShiftMode) -> (r: bool)
        requires
            self.wf(),
            self@.incoming.is_none(),
        ensures
            r == self@.would_fit(speculated_shift),
    {
        if !self.overcommit_allowed {
            return false;
        }
        let q_slots: usize = self.total_slots_allocated();
        let q_slots = match speculated_shift {
            PIQShiftMode::ShiftHalf => q_slots.saturating_sub(
                if self.head_reg.len() == 1 {
                    2
                } else {
                    1
                },
            ),
            PIQShiftMode::ShiftFull | PIQShiftMode::CompleteBranch => q_slots.saturating_sub(2),
            PIQShiftMode::Populate => q_slots.saturating_sub(2 - self.head_reg.len()),
            PIQShiftMode::HoldBranch(..) => q_slots,
        };
        q_slots <= PREFETCH_QUEUE_ENTRIES_COUNT
    }

    /// Whether more slots are taken (including the incoming data) than the cache has.
    pub fn is_overcommit(&self) -> (r: bool)
        requires
            self.wf(),
        ensures
            r == (self@.total_slots() + self@.incoming_halves().len() > PREFETCH_CACHE_ENTRIES_COUNT),
    {
        let incoming_width: usize = match &self.incoming {
            None => 0,
            Some((_, _, s)) => 2 - if *s {
                1
            } else {
                0
            },
        };
        self.total_slots_allocated() + incoming_width > PREFETCH_CACHE_ENTRIES_COUNT
    }

    /// Performs the shift requested by decode and takes in the data that arrived:
    /// 1. the consumed halfwords leave the F/D register,
    /// 2. the F/D register is refilled from the queue,
    /// 3. the incoming data is pulled into the queue,
    /// 4. the F/D register is refilled again.
    /// A held branch keeps the F/D register as it is.
    pub fn tick_piq(&mut self, shift: PIQShiftMode)
        requires
            old(self).wf(),
            old(self)@.can_tick(shift),
        ensures
            final(self).wf(),
            final(self)@ == old(self)@.after_tick(shift),
    {
        if self.prepare_for_impact {
            return;
        }
        let ghost m = self@;
        // 1. Empty "head".
        self.shift_head(shift);
        let hold = matches!(shift, PIQShiftMode::HoldBranch(..));
        let ghost m1 = self@;
        // 2. Move data from "queue" to "head" to make space for incoming data.
        if !hold {
            self.fill_head_from_queue();
        }
        let ghost m2 = self@;
        // 3.
        self.pull_incoming_into_queue();
        let ghost m3 = self@;
        // 4. Pull more from the queue if we get new stuff.
        if !hold {
            self.fill_head_from_queue();
        }
        self.incoming = None;
        self.allow_stale_data_this_cycle = false;
        if !hold && self.shadow_unaligned_head {
            // We may need to virtually jump 3 slots
            self.shadow_unaligned_head = false;
            self.shadow.pop();
        }
        proof {
            lemma_tick_steps(m, shift);
        }
    }

    /// Step 1 of a tick: a pending branch is held or resets the shadow ring, and the
    /// consumed halfwords leave the F/D register.
    fn shift_head(&mut self, shift: PIQShiftMode)
        requires
            old(self).wf(),
            !old(self)@.impact_pending,
            shift == PIQShiftMode::ShiftHalf ==> old(self)@.head.len() > 0,
            shift == PIQShiftMode::ShiftFull ==> old(self)@.head.len() == 2,
        ensures
            final(self).wf(),
            final(self)@ == old(self)@.shifted(shift),
    {
        let ghost m = self@;
        if self.shadow.trick {
            match shift {
                PIQShiftMode::HoldBranch(true) => {
                    self.shadow.hold_branch();
                },
                _ => {
                    self.shadow.reset();
                },
            }
        }
        match shift {
            PIQShiftMode::ShiftHalf => {
                self.shadow.pop();
                self.head_reg.pop_front();
                self.head_addr = self.head_addr.offset(2);
            },
            PIQShiftMode::ShiftFull => {
                self.shadow.pop();
                self.shadow.pop();
                self.head_reg.clear();
                self.head_addr = self.queue_head_addr;
            },
            PIQShiftMode::CompleteBranch => {
                self.shadow.complete_branch();
                self.head_reg.clear();
                self.head_addr = self.queue_head_addr;
            },
            PIQShiftMode::Populate => {
                if self.head_reg.len() == 0 {
                    self.head_addr = self.queue_head_addr;
                }
            },
            PIQShiftMode::HoldBranch(..) => {},
        }
        assert(self@.head =~= m.head.skip(m.consumed(shift) as int));
    }

    /// Moves halfwords from the queue into the F/D register while it has room.
    fn fill_head_from_queue(&mut self)
        requires
            old(self).wf(),
            old(self)@.head_addr.plus(2 * old(self)@.head.len() as int) == old(self)@.queue_head_addr,
        ensures
            final(self).wf(),
            final(self)@ == old(self)@.filled(),
    {
        let ghost m = self@;
        let ghost s = m.head + m.queue;
        while self.head_reg.len() < PREFETCH_HEAD_ENTRIES_COUNT && self.queue.len() > 0
            invariant
                self.wf(),
                self@.head + self@.queue == s,
                self@.head_addr.plus(2 * self@.head.len() as int) == self@.queue_head_addr,
                self@ == (PiqModel {
                    head: self@.head,
                    queue: self@.queue,
                    queue_head_addr: self@.queue_head_addr,
                    ..m
                }),
            decreases self@.queue.len(),
        {
            let ghost h = self@.head;
            let ghost q = self@.queue;
            let item = self.queue.pop_front();
            if let Some(v) = item {
                let _ = self.head_reg.push_back(v);
            }
            proof {
                lemma_plus_plus(self@.head_addr, 2 * h.len() as int, 2);
                assert(self@.head + self@.queue =~= h + q);
            }
            self.queue_head_addr = self.queue_head_addr.offset(2);
        }
        proof {
            let k = vstd::math::min(PREFETCH_HEAD_ENTRIES_COUNT as int, s.len() as int);
            assert(self@.head.len() == k);
            assert(self@.head =~= s.take(k));
            assert(self@.queue =~= s.skip(k));
        }
    }

    /// Appends the incoming data to the queue (the shadow ring receives both halves).
    fn pull_incoming_into_queue(&mut self)
        requires
            old(self).wf(),
            old(self)@.incoming is Some ==> old(self)@.queue.len() + 2 <= PREFETCH_QUEUE_ENTRIES_COUNT,
        ensures
            final(self).wf(),
            final(self)@ == old(self)@.pulled(),
    {
        let ghost m = self@;
        if let Some((_address, data, skip_half)) = self.incoming.take() {
            self.shadow.push(data[0]);
            self.shadow.push(data[1]);
            if skip_half {
                self.shadow_unaligned_head = true;
                let kept = [data[1]];
                self.queue.extend_from(&kept);
                assert(kept@ =~= seq![data[1]]);
            } else {
                self.queue.extend_from(&data);
                assert(data@ =~= seq![data[0], data[1]]);
            }
        }
        assert(self@.queue =~= m.queue + m.incoming_halves());
    }

    /// Slots taken or reserved (see `PiqModel::total_slots`).
    pub fn total_slots_allocated(&self) -> (r: usize)
        requires
            self.wf(),
        ensures
            r == self@.total_slots(),
    {
        2 * ((if self.head_reg.len() == 0 {
            0
        } else {
            1
        }) + self.in_flight as usize) + self.queue.len()
    }

    /// The F/D register. The shadow ring must agree with it.
    pub fn peek_head(&self) -> (r: FDReg)
        requires
            self.wf(),
            self@.shadow_head_consistent(),
        ensures
            r@ == self@.head,
    {
        self.head_reg.duplicate()
    }

    /// The two halfwords at the head of the shadow ring.
    pub fn peek_shadow_head(&self) -> (r: FDReg)
        requires
            self.wf(),
        ensures
            r@ == self@.shadow_head_view(),
    {
        if !self.shadow_enabled {
            let mut x = self.head_reg.duplicate();
            let _ = x.push_back(0);
            return x;
        }
        let (a, b) = self.shadow.peek2();
        let mut buf = FDReg::new();
        let _ = buf.push_back(a);
        let _ = buf.push_back(b);
        buf
    }

    /// A word was requested on the instruction bus: its data will need a slot.
    pub fn reserve(&mut self)
        requires
            old(self).wf(),
            old(self)@.total_slots() + 2 <= PREFETCH_CACHE_ENTRIES_COUNT + 4,
        ensures
            final(self).wf(),
            final(self)@ == (PiqModel { in_flight: old(self)@.in_flight + 1, ..old(self)@ }),
    {
        self.in_flight = self.in_flight + 1;
    }

    /// A requested transfer was cancelled.
    pub fn abort(&mut self)
        requires
            old(self).wf(),
            old(self)@.in_flight > 0,
        ensures
            final(self).wf(),
            final(self)@ == (PiqModel { in_flight: (old(self)@.in_flight - 1) as nat, ..old(self)@ }),
    {
        self.in_flight = self.in_flight - 1;
    }

    /// Latches the data of a finished fetch transfer, to be taken in on the next tick.
    /// For an unaligned target, the lower halfword is skipped.
    pub fn push_back_bytes(&mut self, data: Word, skip_half: bool, address: Address)
        requires
            old(self).wf(),
            !old(self)@.impact_pending,
            old(self)@.in_flight > 0,
            old(self)@.incoming.is_none(),
        ensures
            final(self).wf(),
            final(self)@ == (PiqModel {
                in_flight: (old(self)@.in_flight - 1) as nat,
                incoming: Some(
                    (
                        if skip_half {
                            address.plus(2)
                        } else {
                            address
                        },
                        low_half(data),
                        high_half(data),
                        skip_half,
                    ),
                ),
                ..old(self)@
            }),
    {
        self.in_flight = self.in_flight - 1;
        let address = if skip_half {
            address.offset(2)
        } else {
            address
        };
        let (first, second) = split_word(data);
        self.incoming = Some((address, [first, second], skip_half));
    }

    /// Point D of the shadow ring: data of a transfer ignored in the cycle of a branch
    /// still lands in the shadow ring.
    pub fn ignored_data(&mut self, data: Word, _address: Address)
        requires
            old(self).wf(),
        ensures
            final(self).wf(),
            final(self)@ == (PiqModel {
                shadow: if old(self)@.allow_stale {
                    old(self)@.shadow.pushed(low_half(data)).pushed(high_half(data))
                } else {
                    old(self)@.shadow
                },
                ..old(self)@
            }),
    {
        if self.allow_stale_data_this_cycle {
            let (first, second) = split_word(data);
            self.shadow.push(first);
            self.shadow.push(second);
        }
    }

    pub fn get_head_address(&self) -> (r: Address)
        ensures
            r == self@.head_addr,
    {
        self.head_addr
    }

    /// Address of the first halfword of the queue.
    pub fn get_queue_head_address(&self) -> (r: Address)
        ensures
            r == self@.queue_head_addr,
    {
        self.queue_head_addr
    }

    /// Flushes the queue, while retaining the Fetch/Decode register.
    pub fn branch(&mut self, new_head_addr: Address)
        requires
            old(self).wf(),
        ensures
            final(self).wf(),
            final(self)@ == old(self)@.branched(new_head_addr),
    {
        // The F/D register of this cycle is prior to the branch and stays, but anything
        // next may be from before the branch (ignored) or after it (to the new tail).
        if self.shadow_enabled {
            if !self.prepare_for_impact {
                self.shadow.reset_trick();
                self.allow_stale_data_this_cycle = true;
            } else {
                self.allow_stale_data_this_cycle = false;
            }
        }
        self.queue.clear();
        self.queue_head_addr = new_head_addr;
        self.in_flight = 0;
        self.prepare_for_impact = false;
    }

    /// A speculative branch turned out taken; if it is held under a multi-cycle
    /// instruction, the shadow ring keeps it in its last slots.
    pub fn confirm_speculated_branch(&mut self, new_head_addr: Address, held: bool)
        requires
            old(self).wf(),
        ensures
            final(self).wf(),
            final(self)@ == (PiqModel {
                shadow: if held {
                    old(self)@.branched(new_head_addr).shadow.branch_held()
                } else {
                    old(self)@.branched(new_head_addr).shadow
                },
                allow_stale: false,
                ..old(self)@.branched(new_head_addr)
            }),
    {
        self.branch(new_head_addr);
        if held {
            self.shadow.hold_branch();
        }
        self.allow_stale_data_this_cycle = false;
    }

    /// Clears all managed data, including the F/D register.
    pub fn prepare_for_impact(&mut self, new_head_addr: Address)
        requires
            old(self).wf(),
        ensures
            final(self).wf(),
            final(self)@ == (PiqModel {
                impact_pending: true,
                head: Seq::empty(),
                head_addr: new_head_addr,
                ..old(self)@.branched(new_head_addr)
            }),
    {
        self.branch(new_head_addr);
        self.prepare_for_impact = true;
        self.head_reg.clear();
        self.head_addr = new_head_addr;
    }

    /// Returns to the state of a fresh queue at the given address, keeping the stale
    /// contents of the shadow ring.
    pub fn hard_reset(&mut self, new_head_addr: Address)
        requires
            old(self).wf(),
        ensures
            final(self).wf(),
            final(self)@ == (PiqModel {
                shadow: old(self)@.shadow.rewound(),
                incoming: old(self)@.incoming,
                ..PiqModel::initial_with(
                    new_head_addr,
                    old(self)@.shadow_enabled,
                    old(self)@.overcommit_allowed,
                )
            }),
    {
        self.queue.clear();
        self.queue_head_addr = new_head_addr;
        self.head_reg.clear();
        self.head_addr = new_head_addr;
        self.in_flight = 0;
        self.shadow.reset();
        self.shadow_unaligned_head = false;
        self.allow_stale_data_this_cycle = false;
        self.prepare_for_impact = false;
    }

    /// Entries of the cache that are neither taken nor reserved.
    pub fn available_slots_for_new_entries(&self) -> (r: u8)
        requires
            self.wf(),
        ensures
            r == (if self@.total_slots() >= PREFETCH_CACHE_ENTRIES_COUNT {
                0
            } else {
                PREFETCH_CACHE_ENTRIES_COUNT - self@.total_slots()
            }),
    {
        let free = PREFETCH_CACHE_ENTRIES_COUNT.saturating_sub(self.total_slots_allocated());
        free as u8
    }
}

// ---------------------------------------------------------------------------
// The shadow ring replicates the Train view
// ---------------------------------------------------------------------------

/// The halfwords `t` lie in the ring in order from its head, and the tail follows them.
pub open spec fn ring_holds(s: ShadowRing, t: Seq<u16>) -> bool {
    &&& s.wf()
    &&& t.len() <= PREFETCH_CACHE_ENTRIES_COUNT
    &&& s.tail == ((s.head + t.len()) as int) % (PREFETCH_CACHE_ENTRIES_COUNT as int)
    &&& forall|i: int|
        0 <= i < t.len() ==> #[trigger] s.slots[(s.head + i) % (PREFETCH_CACHE_ENTRIES_COUNT as int)]
            == t[i]
}

impl PiqModel {
    /// Steady streaming: no branch and no skipped unaligned half is pending, and the shadow
    /// ring holds the F/D register followed by the queue.
    pub open spec fn steady(self) -> bool {
        &&& !self.impact_pending
        &&& !self.shadow.trick
        &&& !self.unaligned_head
        &&& ring_holds(self.shadow, self.head + self.queue)
    }
}

pub(crate) proof fn lemma_ring_pop(s: ShadowRing, t: Seq<u16>)
    requires
        ring_holds(s, t),
        t.len() > 0,
    ensures
        ring_holds(s.popped(), t.drop_first()),
{
    let p = s.popped();
    assert forall|i: int| 0 <= i < t.drop_first().len() implies #[trigger] p.slots[(p.head + i)
        % (PREFETCH_CACHE_ENTRIES_COUNT as int)] == t.drop_first()[i] by {
        assert((p.head + i) % 6 == (s.head + (i + 1)) % 6);
        assert(s.slots[(s.head + (i + 1)) % 6] == t[i + 1]);
    }
}

pub(crate) proof fn lemma_ring_push(s: ShadowRing, t: Seq<u16>, v: u16)
    requires
        ring_holds(s, t),
        t.len() < PREFETCH_CACHE_ENTRIES_COUNT,
    ensures
        ring_holds(s.pushed(v), t.push(v)),
{
    let p = s.pushed(v);
    assert forall|i: int| 0 <= i < t.push(v).len() implies #[trigger] p.slots[(p.head + i)
        % (PREFETCH_CACHE_ENTRIES_COUNT as int)] == t.push(v)[i] by {
        if i < t.len() {
            assert((s.head + i) % 6 != ((s.head + t.len()) as int) % 6);
            assert(s.slots[(s.head + i) % 6] == t[i]);
        }
    }
}

pub(crate) proof fn lemma_ring_push_all(s: ShadowRing, t: Seq<u16>, inc: Seq<u16>, lo: u16, hi: u16, skip: bool)
    requires
        ring_holds(s, t),
        !skip,
        inc == seq![lo, hi],
        t.len() + 2 <= PREFETCH_CACHE_ENTRIES_COUNT,
    ensures
        ring_holds(s.pushed(lo).pushed(hi), t + inc),
{
    lemma_ring_push(s, t, lo);
    lemma_ring_push(s.pushed(lo), t.push(lo), hi);
    assert(t.push(lo).push(hi) =~= t + inc);
}

/// In steady streaming the head of the shadow ring shows the F/D register, which is
/// what `peek_head` checks.
pub proof fn lemma_steady_head_consistent(m: PiqModel)
    requires
        m.wf(),
        m.steady(),
    ensures
        m.shadow_head_consistent(),
{
    let t = m.head + m.queue;
    if m.head.len() >= 1 {
        assert(m.shadow.slots[(m.shadow.head + 0int) % 6] == t[0]);
    }
    if m.head.len() >= 2 {
        assert(m.shadow.slots[(m.shadow.head + 1int) % 6] == t[1]);
        assert(ShadowRing::next_slot(m.shadow.head) == (m.shadow.head + 1) % 6);
    }
}

/// A fresh queue is in steady streaming.
pub proof fn lemma_initial_steady(address: Address)
    ensures
        PiqModel::initial(address).wf(),
        PiqModel::initial(address).steady(),
{
    let m = PiqModel::initial(address);
    assert(m.head + m.queue =~= Seq::<u16>::empty());
}

/// In steady streaming, a tick that refills or consumes at most one full instruction
/// and takes in aligned data keeps the shadow ring a replica of the Train view, as long as
/// the stream fits in the ring.
pub proof fn lemma_tick_keeps_steady(m: PiqModel, shift: PIQShiftMode)
    requires
        m.wf(),
        m.can_tick(shift),
        m.steady(),
        shift is Populate || shift is ShiftHalf || shift is ShiftFull,
        !(m.incoming matches Some((_, _, _, skip)) && skip),
        m.stream_after_shift(shift).len() <= PREFETCH_CACHE_ENTRIES_COUNT,
    ensures
        m.after_tick(shift).wf(),
        m.after_tick(shift).steady(),
        m.after_tick(shift).shadow_head_consistent(),
{
    let t = m.head + m.queue;
    let c = m.consumed(shift) as int;
    let f = m.after_tick(shift);
    // Step 1: the consumed halfwords are popped from both views.
    let s1 = m.shadow_after_shift(shift);
    if shift is ShiftHalf {
        lemma_ring_pop(m.shadow, t);
        assert(t.drop_first() =~= m.head.skip(c) + m.queue);
    } else if shift is ShiftFull {
        lemma_ring_pop(m.shadow, t);
        lemma_ring_pop(m.shadow.popped(), t.drop_first());
        assert(t.drop_first().drop_first() =~= m.head.skip(c) + m.queue);
    } else {
        assert(m.head.skip(c) =~= m.head);
    }
    assert(ring_holds(s1, m.head.skip(c) + m.queue));
    // Step 2: arrived data is pushed to both views.
    match m.incoming {
        Some((_, lo, hi, skip)) => {
            lemma_ring_push_all(s1, m.head.skip(c) + m.queue, m.incoming_halves(), lo, hi, skip);
        },
        None => {
            assert(m.head.skip(c) + m.queue + m.incoming_halves() =~= m.head.skip(c) + m.queue);
        },
    }
    let stream = m.stream_after_shift(shift);
    assert(ring_holds(f.shadow, stream));
    let k = vstd::math::min(PREFETCH_HEAD_ENTRIES_COUNT as int, stream.len() as int);
    assert(f.head + f.queue =~= stream);
    lemma_steady_head_consistent(f);
}

/// Reserving a transfer, latching its data and cancelling a reservation do not touch
/// the F/D register, the queue or the shadow ring, so steady streaming is kept.
pub proof fn lemma_bookkeeping_keeps_steady(m: PiqModel, data: Word, skip_half: bool, address: Address)
    requires
        m.steady(),
    ensures
        (PiqModel { in_flight: m.in_flight + 1, ..m }).steady(),
        m.in_flight > 0 ==> (PiqModel { in_flight: (m.in_flight - 1) as nat, ..m }).steady(),
        (PiqModel {
            in_flight: (m.in_flight - 1) as nat,
            incoming: Some(
                (
                    if skip_half {
                        address.plus(2)
                    } else {
                        address
                    },
                    low_half(data),
                    high_half(data),
                    skip_half,
                ),
            ),
            ..m
        }).steady(),
{
}

/// Cancelling a transfer undoes its reservation.
pub proof fn lemma_abort_undoes_reserve(m: PiqModel)
    ensures
        ({
            let reserved = PiqModel { in_flight: m.in_flight + 1, ..m };
            (PiqModel { in_flight: (reserved.in_flight - 1) as nat, ..reserved }) == m
        }),
{
}

/// A branch drops the queue and the outstanding transfers but keeps the F/D register
/// (the instruction in decode precedes the branch); preparing for an impact drops it too.
pub proof fn lemma_branch_keeps_head(m: PiqModel, target: Address)
    ensures
        m.branched(target).head == m.head,
        m.branched(target).head_addr == m.head_addr,
        m.branched(target).queue.len() == 0,
        m.branched(target).in_flight == 0,
        m.branched(target).total_slots() == (if m.head.len() == 0 { 0nat } else { 2nat }),
{
}

/// The two latched halfwords of a transfer make up the fetched word (little-endian).
pub proof fn lemma_split_word_roundtrip(data: Word)
    ensures
        low_half(data) as int + 0x10000 * (high_half(data) as int) == data as int,
{
}


// ---------------------------------------------------------------------------
// The shadow ring keeps showing the F/D register
// ---------------------------------------------------------------------------

impl PiqModel {
    /// The shadow ring holds, from its head, a sequence of halfwords that starts with the
    /// F/D register.
    pub open spec fn ring_tracks(self, t: Seq<u16>) -> bool {
        &&& ring_holds(self.shadow, t)
        &&& self.head.len() <= t.len()
        &&& t.take(self.head.len() as int) == self.head
    }
}

/// Where the ring holds a sequence that starts with the F/D register, the two halfwords at
/// its head show the F/D register.
pub proof fn lemma_ring_tracks_consistent(m: PiqModel, t: Seq<u16>)
    requires
        m.ring_tracks(t),
    ensures
        m.shadow_head_consistent(),
{
    let h = m.shadow.head;
    if m.head.len() >= 1 {
        assert(m.head[0] == t.take(m.head.len() as int)[0]);
        assert(m.shadow.slots[(h + 0int) % 6] == t[0]);
    }
    if m.head.len() >= 2 {
        assert(m.head[1] == t.take(m.head.len() as int)[1]);
        assert(m.shadow.slots[(h + 1int) % 6] == t[1]);
        assert(ShadowRing::next_slot(h) == (h + 1) % 6);
    }
}

/// Reserving, cancelling and latching a transfer, and a branch, leave the F/D register
/// and the slots of the shadow ring as they are, so whatever the ring tracks stays
/// tracked (a branch only marks the ring).
pub proof fn lemma_bookkeeping_and_branch_keep_tracking(
    m: PiqModel,
    t: Seq<u16>,
    data: Word,
    skip_half: bool,
    address: Address,
    target: Address,
)
    requires
        m.ring_tracks(t),
    ensures
        (PiqModel { in_flight: m.in_flight + 1, ..m }).ring_tracks(t),
        (PiqModel { in_flight: (m.in_flight - 1) as nat, ..m }).ring_tracks(t),
        (PiqModel {
            in_flight: (m.in_flight - 1) as nat,
            incoming: Some(
                (
                    if skip_half {
                        address.plus(2)
                    } else {
                        address
                    },
                    low_half(data),
                    high_half(data),
                    skip_half,
                ),
            ),
            ..m
        }).ring_tracks(t),
        m.branched(target).ring_tracks(t),
        m.branched(target).shadow_head_consistent(),
{
    lemma_ring_tracks_consistent(m.branched(target), t);
}

/// Stale data let into the shadow ring after a branch is written behind what the ring
/// tracks, so the F/D register stays in view, provided the ring has room for both
/// halfwords.
pub proof fn lemma_ignored_data_keeps_tracking(m: PiqModel, t: Seq<u16>, data: Word)
    requires
        m.ring_tracks(t),
        t.len() + 2 <= PREFETCH_CACHE_ENTRIES_COUNT,
    ensures
        ({
            let after = PiqModel {
                shadow: if m.allow_stale {
                    m.shadow.pushed(low_half(data)).pushed(high_half(data))
                } else {
                    m.shadow
                },
                ..m
            };
            let t2 = if m.allow_stale {
                t.push(low_half(data)).push(high_half(data))
            } else {
                t
            };
            &&& after.ring_tracks(t2)
            &&& after.shadow_head_consistent()
        }),
{
    let lo = low_half(data);
    let hi = high_half(data);
    if m.allow_stale {
        lemma_ring_push(m.shadow, t, lo);
        lemma_ring_push(m.shadow.pushed(lo), t.push(lo), hi);
        let t2 = t.push(lo).push(hi);
        assert(t2.take(m.head.len() as int) =~= t.take(m.head.len() as int));
        lemma_ring_tracks_consistent(
            PiqModel { shadow: m.shadow.pushed(lo).pushed(hi), ..m },
            t2,
        );
    } else {
        lemma_ring_tracks_consistent(m, t);
    }
}

/// The tick that completes a branch (the queue was cut off by the branch) restarts the
/// shadow ring from its first slot with the data of the target, so streaming is steady
/// again and the ring shows the new F/D register.
pub proof fn lemma_complete_branch_restores_steady(m: PiqModel)
    requires
        m.wf(),
        m.can_tick(PIQShiftMode::CompleteBranch),
        !m.impact_pending,
        m.shadow.trick,
        m.queue.len() == 0,
        !m.unaligned_head,
    ensures
        m.after_tick(PIQShiftMode::CompleteBranch).steady(),
        m.after_tick(PIQShiftMode::CompleteBranch).shadow_head_consistent(),
{
    let shift = PIQShiftMode::CompleteBranch;
    let f = m.after_tick(shift);
    let s1 = m.shadow_after_shift(shift);
    assert(s1.head == 0 && s1.tail == 0 && !s1.trick);
    let stream = m.stream_after_shift(shift);
    assert(m.head.skip(m.head.len() as int) =~= Seq::<u16>::empty());
    match m.incoming {
        Some((_, lo, hi, skip)) => {
            let s3 = s1.pushed(lo).pushed(hi);
            assert(ring_holds(s1, Seq::<u16>::empty()));
            lemma_ring_push_all(s1, Seq::<u16>::empty(), seq![lo, hi], lo, hi, false);
            assert(Seq::<u16>::empty() + seq![lo, hi] =~= seq![lo, hi]);
            if skip {
                lemma_ring_pop(s3, seq![lo, hi]);
                assert(seq![lo, hi].drop_first() =~= seq![hi]);
                assert(stream =~= seq![hi]);
            } else {
                assert(stream =~= seq![lo, hi]);
            }
        },
        None => {
            assert(stream =~= Seq::<u16>::empty());
        },
    }
    assert(ring_holds(f.shadow, stream));
    assert(f.head + f.queue =~= stream);
    lemma_steady_head_consistent(f);
}

/// A branch held under a multi-cycle instruction moves the two halfwords at the head of
/// the shadow ring to its last slots, so the held F/D register stays in view while the
/// data of the target fills the ring from its first slot.
pub proof fn lemma_held_branch_keeps_head_in_view(m: PiqModel)
    requires
        m.wf(),
        m.can_tick(PIQShiftMode::HoldBranch(true)),
        !m.impact_pending,
        m.shadow.trick,
        m.shadow_head_consistent(),
    ensures
        m.after_tick(PIQShiftMode::HoldBranch(true)).shadow_head_consistent(),
        m.after_tick(PIQShiftMode::HoldBranch(true)).head == m.head,
{
    let shift = PIQShiftMode::HoldBranch(true);
    let s1 = m.shadow_after_shift(shift);
    assert(s1.head == 4 && s1.tail == 0);
    assert(s1.front_pair() == m.shadow.front_pair());
    match m.incoming {
        Some((_, lo, hi, _)) => {
            let s3 = s1.pushed(lo).pushed(hi);
            assert(s3.head == 4 && s3.slots[4] == s1.slots[4] && s3.slots[5] == s1.slots[5]);
        },
        None => {},
    }
}

/// A branch held while streaming steadily only queues the arrived data behind the F/D
/// register, in the shadow ring as in the queue, provided the ring has room for it.
pub proof fn lemma_steady_hold_keeps_steady(m: PiqModel, last: bool)
    requires
        m.wf(),
        m.can_tick(PIQShiftMode::HoldBranch(last)),
        m.steady(),
        !(m.incoming matches Some((_, _, _, skip)) && skip),
        m.head.len() + m.queue.len() + m.incoming_halves().len() <= PREFETCH_CACHE_ENTRIES_COUNT,
    ensures
        m.after_tick(PIQShiftMode::HoldBranch(last)).steady(),
        m.after_tick(PIQShiftMode::HoldBranch(last)).shadow_head_consistent(),
{
    let shift = PIQShiftMode::HoldBranch(last);
    let f = m.after_tick(shift);
    let t = m.head + m.queue;
    assert(m.shadow_after_shift(shift) == m.shadow);
    match m.incoming {
        Some((_, lo, hi, skip)) => {
            lemma_ring_push_all(m.shadow, t, m.incoming_halves(), lo, hi, skip);
        },
        None => {
            assert(t + m.incoming_halves() =~= t);
        },
    }
    assert(f.head + f.queue =~= t + m.incoming_halves());
    lemma_steady_head_consistent(f);
}


/// A held decode-time branch neither consumes nor refills the F/D register: arriving data
/// only joins the queue.
pub proof fn lemma_hold_keeps_head(m: PiqModel, last: bool)
    ensures
        m.after_tick(PIQShiftMode::HoldBranch(last)).head == m.head,
        m.after_tick(PIQShiftMode::HoldBranch(last)).head_addr == m.head_addr,
{
}

} // verus!
