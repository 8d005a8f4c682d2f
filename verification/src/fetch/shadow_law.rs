//! The shadow ring keeps showing the Fetch/Decode register over whole runs of the queue.
//!
//! A run is a sequence of calls on a fresh queue with the shadow ring in use, each made
//! where its `requires` holds. Around a decode-time branch the queue goes through three
//! phases: it streams, a branch is pending (decoded, not yet taken), or the branch is
//! held under a multi-cycle instruction. Each phase has a shape that the calls keep,
//! and in each shape the two halfwords at the head of the shadow ring show the F/D
//! register.
//!
//! The agreement does not hold of every run that meets the `requires` of the calls. It
//! fails where stale data of a transfer ignored after a branch is written over the slots
//! that show the F/D register, where a tick other than completing or holding the branch
//! follows a pending branch (the ring is rewound under the old F/D register), where data
//! of an unaligned target arrives behind other halfwords, and where a branch is taken
//! while the skipped half of an unaligned target is still in the ring. The law below
//! leaves out the runs that make such a call; `keeps_shadow_in_step` lists, phase by
//! phase, the calls that it admits. Besides those, it leaves out ticks that shift the F/D
//! register while a branch is held, and ticks that complete a branch while none is
//! pending.
use vstd::prelude::*;

use crate::common::{Address, Word};
use crate::fetch::piq::{
    PiqModel,
    PIQShiftMode,
    ShadowRing,
    ring_holds,
    low_half,
    high_half,
    PREFETCH_CACHE_ENTRIES_COUNT,
    PREFETCH_HEAD_ENTRIES_COUNT,
    PREFETCH_QUEUE_ENTRIES_COUNT,
    lemma_ring_push,
    lemma_ring_pop,
    lemma_steady_head_consistent,
    lemma_tick_keeps_steady,
    lemma_steady_hold_keeps_steady,
    lemma_complete_branch_restores_steady,
    lemma_held_branch_keeps_head_in_view,
};

verus! {

/// One call on the queue.
pub enum PiqOp {
    /// `reserve`
    Reserve,
    /// `push_back_bytes`
    PushBack { data: Word, skip_half: bool, address: Address },
    /// `tick_piq`
    Tick(PIQShiftMode),
    /// `branch`
    Branch(Address),
    /// `ignored_data`
    IgnoredData(Word),
}

/// Where the queue stands with respect to a decode-time branch.
pub enum BranchPhase {
    /// No branch is pending.
    Streaming,
    /// A branch was decoded and not taken yet.
    Pending,
    /// The branch is held under a multi-cycle instruction.
    Held,
}

impl PiqModel {
    /// The state after the call, as the call's contract states it.
    pub open spec fn applied(self, op: PiqOp) -> PiqModel {
        match op {
            PiqOp::Reserve => PiqModel { in_flight: self.in_flight + 1, ..self },
            PiqOp::PushBack { data, skip_half, address } => PiqModel {
                in_flight: (self.in_flight - 1) as nat,
                incoming: Some(
                    (
                        if skip_half {
                            address.plus(2)
                        } else {
                            address
                        },
                        low_half(data),
                        high_half(data),
                        skip_half,
                    ),
                ),
                ..self
            },
            PiqOp::Tick(shift) => self.after_tick(shift),
            PiqOp::Branch(target) => self.branched(target),
            PiqOp::IgnoredData(data) => PiqModel {
                shadow: if self.allow_stale {
                    self.shadow.pushed(low_half(data)).pushed(high_half(data))
                } else {
                    self.shadow
                },
                ..self
            },
        }
    }

    /// The `requires` of the call holds.
    pub open spec fn admits(self, op: PiqOp) -> bool {
        &&& self.wf()
        &&& match op {
            PiqOp::Reserve => self.total_slots() + 2 <= PREFETCH_CACHE_ENTRIES_COUNT + 4,
            PiqOp::PushBack { .. } => {
                &&& !self.impact_pending
                &&& self.in_flight > 0
                &&& self.incoming.is_none()
            },
            PiqOp::Tick(shift) => self.can_tick(shift),
            _ => true,
        }
    }

    /// Stale data is written at the tail of the shadow ring and the slot after it; neither
    /// is a slot that shows the F/D register.
    pub open spec fn stale_data_misses_head(self) -> bool {
        let s = self.shadow;
        let w0 = s.tail;
        let w1 = ShadowRing::next_slot(s.tail);
        &&& self.head.len() >= 1 ==> w0 != s.head && w1 != s.head
        &&& self.head.len() >= 2 ==> w0 != ShadowRing::next_slot(s.head) && w1
            != ShadowRing::next_slot(s.head)
    }

    /// The call is one that keeps the shadow ring showing the F/D register in the phase:
    /// * streaming: data of an unaligned target arrives only into an empty queue, and no
    ///   tick completes a branch or holds one with such data;
    /// * branch pending: the next tick completes or holds the branch, and stale data does
    ///   not land on the slots that show the F/D register;
    /// * branch held: data of an unaligned target arrives only into an empty queue, ticks
    ///   hold or complete the branch, and a new branch comes only once the skipped half
    ///   of an unaligned target has left the ring.
    pub open spec fn keeps_shadow_in_step(self, phase: BranchPhase, op: PiqOp) -> bool {
        match phase {
            BranchPhase::Streaming => match op {
                PiqOp::PushBack { skip_half, .. } => skip_half ==> self.head.len() == 0
                    && self.queue.len() == 0,
                PiqOp::Tick(shift) => !(shift is CompleteBranch) && (shift is HoldBranch
                    ==> !self.unaligned_after_pull()),
                _ => true,
            },
            BranchPhase::Pending => match op {
                PiqOp::Tick(shift) => shift is CompleteBranch || shift == PIQShiftMode::HoldBranch(
                    true,
                ),
                PiqOp::IgnoredData(_) => self.stale_data_misses_head(),
                _ => true,
            },
            BranchPhase::Held => match op {
                PiqOp::PushBack { skip_half, .. } => skip_half ==> self.queue.len() == 0
                    && !self.unaligned_head,
                PiqOp::Tick(shift) => shift is HoldBranch || shift is CompleteBranch,
                PiqOp::Branch(_) => !self.unaligned_head,
                _ => true,
            },
        }
    }

    /// The shape of the queue while a branch is held: the F/D register is shown by the
    /// last two slots of the ring, and the data of the target fills the ring from its first
    /// slot (behind the skipped half of an unaligned target, if it is still there).
    pub open spec fn held_shape(self) -> bool {
        let p: int = if self.unaligned_head {
            1
        } else {
            0
        };
        let n = p + self.queue.len();
        &&& !self.shadow.trick
        &&& !self.allow_stale
        &&& self.shadow.head == 4
        &&& self.shadow_head_consistent()
        &&& self.shadow.tail == n
        &&& n % 2 == 0
        &&& n <= 4
        &&& forall|i: int|
            0 <= i < self.queue.len() ==> self.shadow.slots[p + i] == #[trigger] self.queue[i]
        &&& (self.incoming matches Some((_, _, _, skip)) && skip) ==> self.queue.len() == 0
            && !self.unaligned_head
    }

    /// The shape of the queue in each phase.
    pub open spec fn phase_shape(self, phase: BranchPhase) -> bool {
        &&& self.wf()
        &&& !self.impact_pending
        &&& self.shadow_enabled
        &&& match phase {
            BranchPhase::Streaming => {
                &&& self.steady()
                &&& !self.allow_stale
                &&& self.unaligned_after_pull() ==> self.head.len() == 0 && self.queue.len() == 0
            },
            BranchPhase::Pending => {
                &&& self.shadow.trick
                &&& self.allow_stale
                &&& self.queue.len() == 0
                &&& !self.unaligned_head
                &&& self.shadow_head_consistent()
            },
            BranchPhase::Held => self.held_shape(),
        }
    }
}

/// The phase after the call.
pub open spec fn next_phase(phase: BranchPhase, op: PiqOp) -> BranchPhase {
    match op {
        PiqOp::Branch(_) => BranchPhase::Pending,
        PiqOp::Tick(PIQShiftMode::CompleteBranch) => BranchPhase::Streaming,
        PiqOp::Tick(PIQShiftMode::HoldBranch(_)) => match phase {
            BranchPhase::Pending => BranchPhase::Held,
            _ => phase,
        },
        _ => phase,
    }
}

/// The state and phase after the calls, made one after the other.
pub open spec fn run(m: PiqModel, phase: BranchPhase, ops: Seq<PiqOp>) -> (PiqModel, BranchPhase)
    decreases ops.len(),
{
    if ops.len() == 0 {
        (m, phase)
    } else {
        run(m.applied(ops[0]), next_phase(phase, ops[0]), ops.drop_first())
    }
}

/// Each call of the run is made where its `requires` holds, and keeps the shadow ring
/// showing the F/D register in its phase.
pub open spec fn run_admitted(m: PiqModel, phase: BranchPhase, ops: Seq<PiqOp>) -> bool
    decreases ops.len(),
{
    ops.len() == 0 || {
        &&& m.admits(ops[0])
        &&& m.keeps_shadow_in_step(phase, ops[0])
        &&& run_admitted(m.applied(ops[0]), next_phase(phase, ops[0]), ops.drop_first())
    }
}

/// A tick keeps the queue well formed; unless it holds a branch, the stream fits in the
/// ring, and when it holds one, the queue takes the arrived data.
proof fn lemma_after_tick_wf(m: PiqModel, shift: PIQShiftMode)
    requires
        m.wf(),
        !m.impact_pending,
        m.can_tick(shift),
    ensures
        m.after_tick(shift).wf(),
        !(shift is HoldBranch) ==> m.stream_after_shift(shift).len()
            <= PREFETCH_CACHE_ENTRIES_COUNT,
        shift is HoldBranch ==> m.queue.len() + m.incoming_halves().len()
            <= PREFETCH_QUEUE_ENTRIES_COUNT,
{
    let c = m.consumed(shift) as int;
    assert(c <= m.head.len());
    assert(m.head.skip(c).len() == m.head.len() - c);
    assert(m.incoming_halves().len() <= 2);
    assert(m.incoming is None ==> m.incoming_halves().len() == 0);
    let s0 = m.shadow;
    assert(s0.branch_held().wf());
    assert(s0.rewound().wf());
    let s1 = m.shadow_after_shift(shift);
    assert(s1.wf());
    let s2 = match m.incoming {
        Some((_, lo, hi, _)) => s1.pushed(lo).pushed(hi),
        None => s1,
    };
    assert(s2.wf());
    assert(m.shadow_after_tick(shift).wf());
    if !(shift is HoldBranch) {
        let stream = m.stream_after_shift(shift);
        assert(stream.len() == m.head.len() - c + m.queue.len() + m.incoming_halves().len());
        let k = vstd::math::min(PREFETCH_HEAD_ENTRIES_COUNT as int, stream.len() as int);
        assert(stream.skip(k).len() == stream.len() - k);
    }
}

/// In steady streaming with nothing queued, the first data of an unaligned target is taken
/// in with its lower half skipped, in the shadow ring as in the F/D register.
proof fn lemma_unaligned_data_into_empty_queue(m: PiqModel)
    requires
        m.wf(),
        !m.impact_pending,
        m.steady(),
        m.head.len() == 0,
        m.queue.len() == 0,
        m.incoming matches Some((_, _, _, skip)) && skip,
        m.can_tick(PIQShiftMode::Populate),
    ensures
        m.after_tick(PIQShiftMode::Populate).steady(),
{
    let shift = PIQShiftMode::Populate;
    let f = m.after_tick(shift);
    let s1 = m.shadow_after_shift(shift);
    assert(s1 == m.shadow);
    assert(m.head + m.queue =~= Seq::<u16>::empty());
    match m.incoming {
        Some((_, lo, hi, _)) => {
            lemma_ring_push(s1, Seq::<u16>::empty(), lo);
            assert(Seq::<u16>::empty().push(lo) =~= seq![lo]);
            lemma_ring_push(s1.pushed(lo), seq![lo], hi);
            assert(seq![lo].push(hi) =~= seq![lo, hi]);
            lemma_ring_pop(s1.pushed(lo).pushed(hi), seq![lo, hi]);
            assert(seq![lo, hi].drop_first() =~= seq![hi]);
            let stream = m.stream_after_shift(shift);
            assert(stream =~= seq![hi]);
            assert(f.head + f.queue =~= stream);
        },
        None => {},
    }
}

/// Holding a pending branch moves the halfwords that show the F/D register to the last two
/// slots and starts the data of the target from the first slot: the held shape.
proof fn lemma_pending_hold_gives_held(m: PiqModel)
    requires
        m.phase_shape(BranchPhase::Pending),
        m.can_tick(PIQShiftMode::HoldBranch(true)),
    ensures
        m.after_tick(PIQShiftMode::HoldBranch(true)).held_shape(),
{
    let shift = PIQShiftMode::HoldBranch(true);
    let f = m.after_tick(shift);
    lemma_held_branch_keeps_head_in_view(m);
    let s1 = m.shadow_after_shift(shift);
    assert(s1.head == 4 && s1.tail == 0 && !s1.trick);
    match m.incoming {
        Some((_, lo, hi, skip)) => {
            let s3 = s1.pushed(lo).pushed(hi);
            assert(s3.slots[0] == lo && s3.slots[1] == hi && s3.tail == 2);
            if skip {
                assert(f.queue =~= seq![hi]);
            } else {
                assert(f.queue =~= seq![lo, hi]);
            }
        },
        None => {
            assert(f.queue =~= Seq::<u16>::empty());
        },
    }
}

/// While a branch is held, arrived data joins the queue and the ring behind what the
/// target already brought, short of the slots that show the F/D register.
proof fn lemma_held_hold_keeps_held(m: PiqModel, last: bool)
    requires
        m.phase_shape(BranchPhase::Held),
        m.can_tick(PIQShiftMode::HoldBranch(last)),
    ensures
        m.after_tick(PIQShiftMode::HoldBranch(last)).held_shape(),
{
    let shift = PIQShiftMode::HoldBranch(last);
    let f = m.after_tick(shift);
    let p: int = if m.unaligned_head {
        1
    } else {
        0
    };
    let n = p + m.queue.len();
    let s1 = m.shadow_after_shift(shift);
    assert(s1 == m.shadow);
    lemma_after_tick_wf(m, shift);
    match m.incoming {
        Some((_, lo, hi, skip)) => {
            let s3 = s1.pushed(lo).pushed(hi);
            if skip {
                assert(n == 0);
                assert(s3.slots[0] == lo && s3.slots[1] == hi && s3.tail == 2);
                assert(f.queue =~= seq![hi]);
            } else {
                assert(n <= 2);
                assert(ShadowRing::next_slot(n as nat) == n + 1);
                assert(s3.tail == n + 2);
                assert(s3.slots[n] == lo && s3.slots[n + 1] == hi);
                assert(s3.slots[4] == s1.slots[4] && s3.slots[5] == s1.slots[5]);
                assert(f.queue =~= m.queue + seq![lo, hi]);
                assert forall|i: int| 0 <= i < f.queue.len() implies f.shadow.slots[p + i]
                    == #[trigger] f.queue[i] by {
                    if i < m.queue.len() {
                        assert(f.queue[i] == m.queue[i]);
                        assert(s3.slots[p + i] == s1.slots[p + i]);
                    }
                }
            }
        },
        None => {
            assert(f.queue =~= m.queue);
        },
    }
}

/// Completing a held branch drops the F/D register and restarts the ring from its first
/// slot, where the data of the target lies: streaming is steady again.
proof fn lemma_held_complete_gives_steady(m: PiqModel)
    requires
        m.phase_shape(BranchPhase::Held),
        m.can_tick(PIQShiftMode::CompleteBranch),
    ensures
        m.after_tick(PIQShiftMode::CompleteBranch).steady(),
{
    let shift = PIQShiftMode::CompleteBranch;
    let f = m.after_tick(shift);
    let p: int = if m.unaligned_head {
        1
    } else {
        0
    };
    let s1 = m.shadow_after_shift(shift);
    assert(s1 == m.shadow.head_rewound());
    let pre: Seq<u16> = if m.unaligned_head {
        seq![m.shadow.slots[0]]
    } else {
        Seq::<u16>::empty()
    };
    let u = pre + m.queue;
    assert forall|i: int| 0 <= i < u.len() implies #[trigger] s1.slots[(s1.head + i) % (
    PREFETCH_CACHE_ENTRIES_COUNT as int)] == u[i] by {
        assert((s1.head + i) % 6 == i);
        if i >= p {
            assert(u[i] == m.queue[i - p]);
            assert(m.shadow.slots[p + (i - p)] == m.queue[i - p]);
        }
    }
    assert(ring_holds(s1, u));
    let stream = m.stream_after_shift(shift);
    assert(m.head.skip(m.head.len() as int) =~= Seq::<u16>::empty());
    match m.incoming {
        Some((_, lo, hi, skip)) => {
            lemma_ring_push(s1, u, lo);
            lemma_ring_push(s1.pushed(lo), u.push(lo), hi);
            let s3 = s1.pushed(lo).pushed(hi);
            let w = u.push(lo).push(hi);
            if m.unaligned_head {
                lemma_ring_pop(s3, w);
                assert(w.drop_first() =~= m.queue + seq![lo, hi]);
                assert(stream =~= m.queue + seq![lo, hi]);
            } else if skip {
                lemma_ring_pop(s3, w);
                assert(w.drop_first() =~= seq![hi]);
                assert(stream =~= seq![hi]);
            } else {
                assert(w =~= m.queue + seq![lo, hi]);
                assert(stream =~= w);
            }
            assert(ring_holds(f.shadow, stream));
        },
        None => {
            if m.unaligned_head {
                lemma_ring_pop(s1, u);
                assert(u.drop_first() =~= m.queue);
            } else {
                assert(u =~= m.queue);
            }
            assert(stream =~= m.queue);
            assert(ring_holds(f.shadow, stream));
        },
    }
    assert(f.head + f.queue =~= stream);
}

/// Stale data that misses the slots showing the F/D register leaves them as they are.
proof fn lemma_stale_data_keeps_head(m: PiqModel, data: Word)
    requires
        m.wf(),
        m.stale_data_misses_head(),
        m.shadow_head_consistent(),
    ensures
        (PiqModel {
            shadow: m.shadow.pushed(low_half(data)).pushed(high_half(data)),
            ..m
        }).shadow_head_consistent(),
        m.shadow.pushed(low_half(data)).pushed(high_half(data)).wf(),
{
}

/// In every phase shape the shadow ring shows the F/D register.
proof fn lemma_shape_shows_head(m: PiqModel, phase: BranchPhase)
    requires
        m.phase_shape(phase),
    ensures
        m.shadow_head_consistent(),
{
    if phase is Streaming {
        lemma_steady_head_consistent(m);
    }
}

/// A call made where its `requires` holds, and that keeps the shadow ring showing the F/D
/// register in its phase, leaves the queue in the shape of the next phase.
proof fn lemma_step_keeps_shape(m: PiqModel, phase: BranchPhase, op: PiqOp)
    requires
        m.phase_shape(phase),
        m.admits(op),
        m.keeps_shadow_in_step(phase, op),
    ensures
        m.applied(op).phase_shape(next_phase(phase, op)),
{
    let f = m.applied(op);
    lemma_shape_shows_head(m, phase);
    match op {
        PiqOp::Tick(shift) => {
            lemma_after_tick_wf(m, shift);
            match phase {
                BranchPhase::Streaming => {
                    if m.unaligned_after_pull() {
                        assert(shift is Populate);
                        lemma_unaligned_data_into_empty_queue(m);
                    } else if shift is HoldBranch {
                        let last = shift->0;
                        assert(shift == PIQShiftMode::HoldBranch(last));
                        lemma_steady_hold_keeps_steady(m, last);
                    } else {
                        lemma_tick_keeps_steady(m, shift);
                    }
                },
                BranchPhase::Pending => {
                    if shift is CompleteBranch {
                        lemma_complete_branch_restores_steady(m);
                    } else {
                        lemma_pending_hold_gives_held(m);
                    }
                },
                BranchPhase::Held => {
                    if shift is CompleteBranch {
                        lemma_held_complete_gives_steady(m);
                    } else {
                        let last = shift->0;
                        assert(shift == PIQShiftMode::HoldBranch(last));
                        lemma_held_hold_keeps_held(m, last);
                    }
                },
            }
        },
        PiqOp::IgnoredData(data) => {
            if phase is Pending {
                lemma_stale_data_keeps_head(m, data);
            }
        },
        _ => {},
    }
}

/// Runs keep the queue in the shape of their phase.
proof fn lemma_run_keeps_shape(m: PiqModel, phase: BranchPhase, ops: Seq<PiqOp>)
    requires
        m.phase_shape(phase),
        run_admitted(m, phase, ops),
    ensures
        run(m, phase, ops).0.phase_shape(run(m, phase, ops).1),
    decreases ops.len(),
{
    if ops.len() > 0 {
        lemma_step_keeps_shape(m, phase, ops[0]);
        lemma_run_keeps_shape(m.applied(ops[0]), next_phase(phase, ops[0]), ops.drop_first());
    }
}

/// Law: a fresh queue with the shadow ring in use, driven by any run of `reserve`,
/// `push_back_bytes`, `tick_piq`, `branch` and `ignored_data` in which each call is made
/// where its `requires` holds and keeps the shadow ring showing the F/D register in its
/// phase (see `keeps_shadow_in_step`), ends with `peek_shadow_head` giving two halfwords
/// that agree with the F/D register wherever it holds one.
pub proof fn lemma_run_shows_head_in_shadow(
    address: Address,
    overcommit_allowed: bool,
    ops: Seq<PiqOp>,
)
    requires
        run_admitted(
            PiqModel::initial_with(address, true, overcommit_allowed),
            BranchPhase::Streaming,
            ops,
        ),
    ensures
        ({
            let m = run(
                PiqModel::initial_with(address, true, overcommit_allowed),
                BranchPhase::Streaming,
                ops,
            ).0;
            &&& m.shadow_head_view().len() == 2
            &&& forall|i: int| 0 <= i < m.head.len() ==> m.shadow_head_view()[i] == m.head[i]
        }),
{
    let m0 = PiqModel::initial_with(address, true, overcommit_allowed);
    assert(m0.head + m0.queue =~= Seq::<u16>::empty());
    assert(m0.phase_shape(BranchPhase::Streaming));
    lemma_run_keeps_shape(m0, BranchPhase::Streaming, ops);
    let r = run(m0, BranchPhase::Streaming, ops);
    lemma_shape_shows_head(r.0, r.1);
    let m = r.0;
    assert(m.shadow_enabled);
    assert forall|i: int| 0 <= i < m.head.len() implies m.shadow_head_view()[i] == m.head[i] by {
        assert(i == 0 || i == 1);
    }
}

} // verus!
