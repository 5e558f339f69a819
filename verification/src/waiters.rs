//! Bounded per-pin storage for pending wait registrations.
//!
//! The storage itself is a fixed-capacity `heapless::Vec`, so registering a
//! waiter never allocates.  Verification sees the list through its sequence
//! view `waiter_list_view`; the handful of operations below are the only ways
//! the rest of the crate touches the list.

use crate::pin_async::PinWaiter;
use vstd::prelude::*;

verus! {

/// Maximum number of tasks that can wait on a single pin's events.
/// Increase this if you expect more concurrency.
pub const MAX_WAKERS_PER_PIN: usize = 4;

/// A bounded list of pending wait registrations for one pin.
#[verifier::external_body]
pub struct WaiterList {
    inner: heapless::Vec<PinWaiter, MAX_WAKERS_PER_PIN>,
}

/// The registrations a list holds, in insertion order.
pub uninterp spec fn waiter_list_view(l: WaiterList) -> Seq<PinWaiter>;

impl View for WaiterList {
    type V = Seq<PinWaiter>;

    open spec fn view(&self) -> Seq<PinWaiter> {
        waiter_list_view(*self)
    }
}

impl WaiterList {
    /// Relies on `heapless::Vec::new`: an empty fixed-capacity vector.
    #[verifier::external_body]
    pub fn new() -> (r: WaiterList)
        ensures
            waiter_list_view(r) == Seq::<PinWaiter>::empty(),
    {
        WaiterList { inner: heapless::Vec::new() }
    }

    /// Relies on `heapless::Vec::len`.
    #[verifier::external_body]
    pub fn len(&self) -> (r: usize)
        ensures
            r == self@.len(),
    {
        self.inner.len()
    }

    /// Relies on `heapless::Vec::push`: appends while below the capacity the
    /// vector was declared with, and hands the item back once it is full.
    #[verifier::external_body]
    pub fn push(&mut self, w: PinWaiter) -> (r: Result<(), PinWaiter>)
        ensures
            r is Ok <==> old(self)@.len() < MAX_WAKERS_PER_PIN,
            r is Err ==> r->Err_0 == w,
            final(self)@ == (if old(self)@.len() < MAX_WAKERS_PER_PIN {
                old(self)@.push(w)
            } else {
                old(self)@
            }),
    {
        self.inner.push(w)
    }

    /// Relies on `heapless::Vec::remove`: removes and returns the element at
    /// `index`, shifting everything behind it down by one.
    #[verifier::external_body]
    pub fn remove(&mut self, index: usize) -> (r: PinWaiter)
        requires
            index < old(self)@.len(),
        ensures
            r == old(self)@[index as int],
            final(self)@ == old(self)@.remove(index as int),
    {
        self.inner.remove(index)
    }

    /// Relies on the slice indexing of `heapless::Vec`.
    #[verifier::external_body]
    pub fn get(&self, index: usize) -> (r: &PinWaiter)
        requires
            index < self@.len(),
        ensures
            *r == self@[index as int],
    {
        &self.inner[index]
    }

    /// Relies on the mutable slice indexing of `heapless::Vec`: replaces the
    /// element at `index`.
    #[verifier::external_body]
    pub fn set(&mut self, index: usize, w: PinWaiter)
        requires
            index < old(self)@.len(),
        ensures
            final(self)@ == old(self)@.update(index as int, w),
    {
        self.inner[index] = w;
    }
}

#[verifier::external_type_specification]
#[verifier::external_body]
pub struct ExWaker(core::task::Waker);

/// Relies on `core::task::Waker::wake`: resumes the task the handle belongs
/// to.  The effect is on the embedding executor; nothing about this crate's
/// state changes.
pub assume_specification [ core::task::Waker::wake ](w: core::task::Waker);

} // verus!
