//! Fixed-capacity halfword queues of the prefetch unit, kept in `heapless` deques.
use vstd::prelude::*;

verus! {

/// The Fetch/Decode register: up to two halfwords presented to the decoder.
#[verifier::external_body]
#[derive(Debug)]
pub struct FDReg {
    deque: heapless::Deque<u16, 2>,
}

/// The halfwords held by a Fetch/Decode register, front first.
pub uninterp spec fn fd_reg_items(reg: FDReg) -> Seq<u16>;

impl View for FDReg {
    type V = Seq<u16>;

    open spec fn view(&self) -> Seq<u16> {
        fd_reg_items(*self)
    }
}

impl FDReg {
    /// `heapless::Deque::new`: an empty deque.
    #[verifier::external_body]
    pub(crate) fn new() -> (r: FDReg)
        ensures
            fd_reg_items(r) == Seq::<u16>::empty(),
    {
        FDReg { deque: heapless::Deque::new() }
    }

    /// `heapless::Deque::len`: the number of held items.
    #[verifier::external_body]
    pub(crate) fn len(&self) -> (r: usize)
        ensures
            r == fd_reg_items(*self).len(),
    {
        self.deque.len()
    }

    /// `heapless::Deque::get`: the item at a position counted from the front, if there is one.
    #[verifier::external_body]
    pub(crate) fn get(&self, index: usize) -> (r: Option<u16>)
        ensures
            index < fd_reg_items(*self).len() ==> r == Some(fd_reg_items(*self)[index as int]),
            index >= fd_reg_items(*self).len() ==> r.is_none(),
    {
        self.deque.get(index).copied()
    }

    /// `heapless::Deque::push_back`: appends at the back unless the deque is full
    /// (holds 2 items), in which case the item is handed back and nothing changes.
    #[verifier::external_body]
    pub(crate) fn push_back(&mut self, item: u16) -> (r: Result<(), u16>)
        ensures
            fd_reg_items(*old(self)).len() < 2 ==> r is Ok && fd_reg_items(*final(self)) == fd_reg_items(*old(self)).push(item),
            fd_reg_items(*old(self)).len() >= 2 ==> (r matches Err(returned) && returned == item) && fd_reg_items(*final(self)) == fd_reg_items(*old(self)),
    {
        self.deque.push_back(item)
    }

    /// `heapless::Deque::pop_front`: removes and returns the front item, if any.
    #[verifier::external_body]
    pub(crate) fn pop_front(&mut self) -> (r: Option<u16>)
        ensures
            fd_reg_items(*old(self)).len() == 0 ==> r.is_none() && fd_reg_items(*final(self)) == fd_reg_items(*old(self)),
            fd_reg_items(*old(self)).len() > 0 ==> r == Some(fd_reg_items(*old(self))[0]) && fd_reg_items(*final(self)) == fd_reg_items(*old(self)).drop_first(),
    {
        self.deque.pop_front()
    }

    /// `heapless::Deque::clear`: removes every item.
    #[verifier::external_body]
    pub(crate) fn clear(&mut self)
        ensures
            fd_reg_items(*final(self)) == Seq::<u16>::empty(),
    {
        self.deque.clear()
    }

    /// `Clone::clone` of `heapless::Deque`: a deque with the same items.
    #[verifier::external_body]
    pub(crate) fn duplicate(&self) -> (r: FDReg)
        ensures
            fd_reg_items(r) == fd_reg_items(*self),
    {
        FDReg { deque: self.deque.clone() }
    }

    /// A register holding the given halfwords (at most two), the first at the front.
    pub fn from_halfwords(halfwords: &[u16]) -> (r: FDReg)
        requires
            halfwords@.len() <= 2,
        ensures
            r@ == halfwords@,
    {
        let mut r = FDReg::new();
        let mut i: usize = 0;
        while i < halfwords.len()
            invariant
                i <= halfwords@.len(),
                halfwords@.len() <= 2,
                r@ == halfwords@.subrange(0, i as int),
            decreases halfwords@.len() - i,
        {
            let pushed = r.push_back(halfwords[i]);
            assert(r@ =~= halfwords@.subrange(0, i + 1));
            i = i + 1;
        }
        assert(r@ =~= halfwords@);
        r
    }

    /// The held halfwords, front first.
    pub fn to_vec(&self) -> (r: Vec<u16>)
        ensures
            r@ == self@,
    {
        let n = self.len();
        let mut r: Vec<u16> = Vec::new();
        let mut i: usize = 0;
        while i < n
            invariant
                n == self@.len(),
                i <= n,
                r@ == self@.subrange(0, i as int),
            decreases n - i,
        {
            match self.get(i) {
                Some(v) => {
                    r.push(v);
                    assert(r@ =~= self@.subrange(0, i + 1));
                },
                None => {},
            }
            i = i + 1;
        }
        r
    }
}

/// The queue of prefetched halfwords that wait behind the Fetch/Decode register.
#[verifier::external_body]
#[derive(Debug)]
pub struct PrefetchQueue {
    deque: heapless::Deque<u16, 4>,
}

/// The halfwords held by a prefetch queue, front first.
pub uninterp spec fn prefetch_queue_items(queue: PrefetchQueue) -> Seq<u16>;

impl View for PrefetchQueue {
    type V = Seq<u16>;

    open spec fn view(&self) -> Seq<u16> {
        prefetch_queue_items(*self)
    }
}

impl PrefetchQueue {
    /// `heapless::Deque::new`: an empty deque.
    #[verifier::external_body]
    pub(crate) fn new() -> (r: PrefetchQueue)
        ensures
            prefetch_queue_items(r) == Seq::<u16>::empty(),
    {
        PrefetchQueue { deque: heapless::Deque::new() }
    }

    /// `heapless::Deque::len`: the number of held items.
    #[verifier::external_body]
    pub(crate) fn len(&self) -> (r: usize)
        ensures
            r == prefetch_queue_items(*self).len(),
    {
        self.deque.len()
    }

    /// `heapless::Deque::pop_front`: removes and returns the front item, if any.
    #[verifier::external_body]
    pub(crate) fn pop_front(&mut self) -> (r: Option<u16>)
        ensures
            prefetch_queue_items(*old(self)).len() == 0 ==> r.is_none() && prefetch_queue_items(*final(self)) == prefetch_queue_items(*old(self)),
            prefetch_queue_items(*old(self)).len() > 0 ==> r == Some(prefetch_queue_items(*old(self))[0]) && prefetch_queue_items(*final(self)) == prefetch_queue_items(*old(self)).drop_first(),
    {
        self.deque.pop_front()
    }

    /// `heapless::Deque::clear`: removes every item.
    #[verifier::external_body]
    pub(crate) fn clear(&mut self)
        ensures
            prefetch_queue_items(*final(self)) == Seq::<u16>::empty(),
    {
        self.deque.clear()
    }

    /// `Extend<&u16>::extend` of `heapless::Deque`: appends the items in order.
    /// Each item goes through `push_back(..).ok().unwrap()`, which panics on a full
    /// deque (capacity 4), so the items must fit.
    #[verifier::external_body]
    pub(crate) fn extend_from(&mut self, items: &[u16])
        requires
            prefetch_queue_items(*old(self)).len() + items@.len() <= 4,
        ensures
            prefetch_queue_items(*final(self)) == prefetch_queue_items(*old(self)) + items@,
    {
        self.deque.extend(items)
    }
}

} // verus!
