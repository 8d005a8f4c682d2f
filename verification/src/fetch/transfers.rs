//! The reads fetch makes on the instruction bus, from the moment they are requested until
//! their data is handled.
//!
//! The bus master driver pipelines reads: a read presents its address in one cycle (the
//! address phase) and delivers its data in a later one (the data phase). Fetch keeps, with
//! each read, what to do with its data ([`DataReadCallback`]); a read fetch no longer wants
//! is not withdrawn from the bus but marked as ignored.
use vstd::prelude::*;

use crate::common::{Address, Word};

verus! {

/// The phase a read was in when fetch stopped wanting its data.
#[derive(Clone, Copy, Debug, PartialEq, Eq, Structural)]
pub enum TransferState {
    AddrPhase,
    DataPhase,
}

/// What to do with the data of a read.
#[derive(Clone, Copy, Debug, PartialEq, Eq, Structural)]
pub enum DataReadCallback {
    /// The initial stack pointer was read: set SP and fetch the reset vector.
    SetStackPointerAndFetchResetVector,
    /// A vector table entry was read: branch to it, after running the handler callback
    /// with the given token, if any.
    BranchToAddressAfterVectorCall { callback: Option<u32> },
    /// Instruction halfwords: add them to the prefetch queue, all or the upper one only.
    AddToPiq { skip_half: bool },
    /// Nobody wants the data any more.
    Ignore { in_state: TransferState },
}

/// A read on the instruction bus and what to do with its data.
#[derive(Clone, Copy, Debug, PartialEq, Eq, Structural)]
pub struct BusRead {
    pub address: Address,
    pub callback: DataReadCallback,
}

/// The instruction-bus master driver as fetch sees it: the read in the address phase, the
/// read in the data phase, whether the bus pipeline advanced in this cycle (the read of the
/// previous address phase is now in the data phase), and whether a new read can be
/// presented.
#[derive(Clone, Copy, Debug)]
pub struct BusPipeline {
    pub addr_phase: Option<BusRead>,
    pub data_phase: Option<BusRead>,
    pub pipeline_advanced: bool,
    pub can_pipeline: bool,
}

/// The reads of fetch: those on the bus, and the one whose data arrived in the previous
/// cycle and waits to be handled in this one.
#[derive(Clone, Copy, Debug)]
pub struct Transfers {
    pub delayed_transfer: Option<(Word, Address, DataReadCallback)>,
    pub driver: BusPipeline,
}

/// Whether a read on the bus still has someone wanting its data.
pub open spec fn live(read: Option<BusRead>) -> bool {
    match read {
        Some(r) => !(r.callback is Ignore),
        None => false,
    }
}

/// The read, marked as ignored in the given phase unless it already is.
pub open spec fn ignored_in(read: Option<BusRead>, in_state: TransferState) -> Option<BusRead> {
    match read {
        Some(r) => if r.callback is Ignore {
            read
        } else {
            Some(BusRead { address: r.address, callback: DataReadCallback::Ignore { in_state } })
        },
        None => None,
    }
}

impl Transfers {
    /// No read in flight and nothing waiting; the bus accepts a read.
    pub fn new() -> (r: Transfers)
        ensures
            r.delayed_transfer is None,
            r.driver.addr_phase is None,
            r.driver.data_phase is None,
            !r.driver.pipeline_advanced,
            r.driver.can_pipeline,
    {
        Transfers {
            delayed_transfer: None,
            driver: BusPipeline {
                addr_phase: None,
                data_phase: None,
                pipeline_advanced: false,
                can_pipeline: true,
            },
        }
    }

    /// Hands out the read whose data waits to be handled, leaving none.
    pub fn take_delayed_transfer(&mut self) -> (r: Option<(Word, Address, DataReadCallback)>)
        ensures
            r == old(self).delayed_transfer,
            final(self).delayed_transfer is None,
            final(self).driver == old(self).driver,
    {
        let r = self.delayed_transfer;
        self.delayed_transfer = None;
        r
    }

    /// Whether nobody wants the data of a read.
    pub fn is_ignored(callback: &DataReadCallback) -> (r: bool)
        ensures
            r == (*callback is Ignore),
    {
        matches!(callback, DataReadCallback::Ignore { .. })
    }

    /// Nobody wants the data of any read in flight, nor of the one waiting.
    pub fn ignore(&mut self)
        ensures
            final(self).driver.addr_phase == ignored_in(old(self).driver.addr_phase, TransferState::AddrPhase),
            final(self).driver.data_phase == ignored_in(old(self).driver.data_phase, TransferState::DataPhase),
            final(self).driver.pipeline_advanced == old(self).driver.pipeline_advanced,
            final(self).driver.can_pipeline == old(self).driver.can_pipeline,
            final(self).delayed_transfer is None,
    {
        if let Some(read) = self.driver.addr_phase {
            if !Self::is_ignored(&read.callback) {
                self.driver.addr_phase = Some(
                    BusRead {
                        address: read.address,
                        callback: DataReadCallback::Ignore { in_state: TransferState::AddrPhase },
                    },
                );
            }
        }
        if let Some(read) = self.driver.data_phase {
            if !Self::is_ignored(&read.callback) {
                self.driver.data_phase = Some(
                    BusRead {
                        address: read.address,
                        callback: DataReadCallback::Ignore { in_state: TransferState::DataPhase },
                    },
                );
            }
        }
        self.delayed_transfer = None;
    }

    /// A wanted read stuck in the data phase (the bus did not advance) is ignored; whether
    /// one was.
    pub fn ignore_data_if_stalled(&mut self) -> (r: bool)
        ensures
            r == (live(old(self).driver.data_phase) && !old(self).driver.pipeline_advanced),
            final(self).driver.data_phase == (if r {
                ignored_in(old(self).driver.data_phase, TransferState::DataPhase)
            } else {
                old(self).driver.data_phase
            }),
            final(self).driver.addr_phase == old(self).driver.addr_phase,
            final(self).driver.pipeline_advanced == old(self).driver.pipeline_advanced,
            final(self).driver.can_pipeline == old(self).driver.can_pipeline,
            final(self).delayed_transfer == old(self).delayed_transfer,
    {
        if let Some(read) = self.driver.data_phase {
            if !self.driver.pipeline_advanced && !Self::is_ignored(&read.callback) {
                self.driver.data_phase = Some(
                    BusRead {
                        address: read.address,
                        callback: DataReadCallback::Ignore { in_state: TransferState::DataPhase },
                    },
                );
                return true;
            }
        }
        false
    }

    /// The read requested in the previous cycle is ignored: now in the data phase if the bus
    /// advanced, else still in the address phase.
    pub fn ignore_prev_cycle(&mut self)
        requires
            old(self).driver.pipeline_advanced ==> old(self).driver.data_phase is Some,
            !old(self).driver.pipeline_advanced ==> old(self).driver.addr_phase is Some,
        ensures
            old(self).driver.pipeline_advanced ==> final(self).driver.data_phase == ignored_in(
                old(self).driver.data_phase,
                TransferState::DataPhase,
            ) && final(self).driver.addr_phase == old(self).driver.addr_phase,
            !old(self).driver.pipeline_advanced ==> final(self).driver.addr_phase == ignored_in(
                old(self).driver.addr_phase,
                TransferState::AddrPhase,
            ) && final(self).driver.data_phase == old(self).driver.data_phase,
            final(self).driver.pipeline_advanced == old(self).driver.pipeline_advanced,
            final(self).driver.can_pipeline == old(self).driver.can_pipeline,
            final(self).delayed_transfer == old(self).delayed_transfer,
    {
        if self.driver.pipeline_advanced {
            if let Some(read) = self.driver.data_phase {
                if !Self::is_ignored(&read.callback) {
                    self.driver.data_phase = Some(
                        BusRead {
                            address: read.address,
                            callback: DataReadCallback::Ignore { in_state: TransferState::DataPhase },
                        },
                    );
                }
            }
        } else if let Some(read) = self.driver.addr_phase {
            if !Self::is_ignored(&read.callback) {
                self.driver.addr_phase = Some(
                    BusRead {
                        address: read.address,
                        callback: DataReadCallback::Ignore { in_state: TransferState::AddrPhase },
                    },
                );
            }
        }
    }

    /// A wanted read in the address phase is cancelled: its address and callback are handed
    /// back and the read, which stays on the bus, is ignored.
    pub fn cancel_addr_phase(&mut self) -> (r: Option<(Address, DataReadCallback)>)
        ensures
            live(old(self).driver.addr_phase) ==> r == Some(
                (old(self).driver.addr_phase->0.address, old(self).driver.addr_phase->0.callback),
            ),
            !live(old(self).driver.addr_phase) ==> r is None,
            final(self).driver.addr_phase == ignored_in(old(self).driver.addr_phase, TransferState::AddrPhase),
            final(self).driver.data_phase == old(self).driver.data_phase,
            final(self).driver.pipeline_advanced == old(self).driver.pipeline_advanced,
            final(self).driver.can_pipeline == old(self).driver.can_pipeline,
            final(self).delayed_transfer == old(self).delayed_transfer,
    {
        if let Some(read) = self.driver.addr_phase {
            if !Self::is_ignored(&read.callback) {
                self.driver.addr_phase = Some(
                    BusRead {
                        address: read.address,
                        callback: DataReadCallback::Ignore { in_state: TransferState::AddrPhase },
                    },
                );
                return Some((read.address, read.callback));
            }
        }
        None
    }

    /// Whether a new read can be presented.
    pub fn can_request(&self) -> (r: bool)
        ensures
            r == self.driver.can_pipeline,
    {
        self.driver.can_pipeline
    }

    /// Presents a word-aligned read with what to do with its data.
    pub fn request(&mut self, address: Address, callback: DataReadCallback)
        requires
            old(self).driver.can_pipeline,
            address.0 % 4 == 0,
        ensures
            final(self).driver.addr_phase == Some(BusRead { address, callback }),
            !final(self).driver.can_pipeline,
            final(self).driver.data_phase == old(self).driver.data_phase,
            final(self).driver.pipeline_advanced == old(self).driver.pipeline_advanced,
            final(self).delayed_transfer == old(self).delayed_transfer,
    {
        self.driver.addr_phase = Some(BusRead { address, callback });
        self.driver.can_pipeline = false;
    }

    /// A read still in the address phase, ignored there, at `address`, is wanted again with
    /// `callback`; whether it was.
    pub fn try_reuse_ignored_requested(&mut self, address: Address, callback: DataReadCallback) -> (r: bool)
        ensures
            r == (old(self).driver.addr_phase matches Some(read) && read.address == address
                && read.callback == (DataReadCallback::Ignore { in_state: TransferState::AddrPhase })),
            final(self).driver.addr_phase == (if r {
                Some(BusRead { address, callback })
            } else {
                old(self).driver.addr_phase
            }),
            final(self).driver.data_phase == old(self).driver.data_phase,
            final(self).driver.pipeline_advanced == old(self).driver.pipeline_advanced,
            final(self).driver.can_pipeline == old(self).driver.can_pipeline,
            final(self).delayed_transfer == old(self).delayed_transfer,
    {
        if let Some(read) = self.driver.addr_phase {
            if read.address == address && matches!(
                read.callback,
                DataReadCallback::Ignore { in_state: TransferState::AddrPhase }
            ) {
                self.driver.addr_phase = Some(BusRead { address, callback });
                return true;
            }
        }
        false
    }

    /// The data of a read arrived: it is handled in the next cycle.
    pub fn read_done(&mut self, address: Address, data: Word, callback: DataReadCallback)
        requires
            old(self).delayed_transfer is None,
        ensures
            final(self).delayed_transfer == Some((data, address, callback)),
            final(self).driver == old(self).driver,
    {
        self.delayed_transfer = Some((data, address, callback));
    }
}

/// After `ignore`, no read in flight is wanted and nothing waits to be handled.
pub proof fn lemma_ignore_leaves_nothing_live(before: Transfers, after: Transfers)
    requires
        after.driver.addr_phase == ignored_in(before.driver.addr_phase, TransferState::AddrPhase),
        after.driver.data_phase == ignored_in(before.driver.data_phase, TransferState::DataPhase),
        after.delayed_transfer is None,
    ensures
        !live(after.driver.addr_phase),
        !live(after.driver.data_phase),
{
}

/// Cancelling the address phase and then reusing the ignored read at the same address
/// with the callback handed back restores the read as it was.
pub proof fn lemma_reuse_undoes_cancel(read: BusRead)
    requires
        !(read.callback is Ignore),
    ensures
        ignored_in(Some(read), TransferState::AddrPhase) matches Some(ignored) && ignored.address
            == read.address && ignored.callback == (DataReadCallback::Ignore {
            in_state: TransferState::AddrPhase,
        }) && (BusRead { address: read.address, callback: read.callback }) == read,
{
}

/// Marking a read as ignored keeps its address, and marking it again changes nothing.
pub proof fn lemma_ignore_idempotent(read: Option<BusRead>, in_state: TransferState, again: TransferState)
    ensures
        ignored_in(ignored_in(read, in_state), again) == ignored_in(read, in_state),
        read is Some ==> ignored_in(read, in_state)->0.address == read->0.address,
        !live(ignored_in(read, in_state)),
{
}

} // verus!
