//! The interrupt-driven asynchronous pin-notification engine.
//!
//! A shared [`AsyncPortState`] tracks the last known level of every pin of
//! one chip and holds, per pin, a bounded list of pending wait registrations.
//! [`AsyncPortState::handle_interrupts`] samples the chip, diffs the sample
//! against the last known state and resolves exactly the registrations whose
//! condition matches the transition.  [`WaitForCondition`] is the state
//! machine a suspended wait goes through; the embedding system drives it from
//! its future type and calls [`WaitForCondition::cancel`] when a wait is
//! dropped early.
//!
//! All accesses to one `AsyncPortState` must be mutually exclusive; the
//! methods take `&mut self`, so the embedding system supplies that guarantee
//! (a critical section, a lock, or a single execution context).

use crate::common::PortDriver;
use crate::waiters::WaiterList;
use crate::waiters::waiter_list_view;
use core::task::Waker;
use vstd::prelude::*;

verus! {

pub use crate::waiters::MAX_WAKERS_PER_PIN;

/// Number of pin slots a port state tracks (one `u32` sample).
pub const NUM_PINS: usize = 32;

/// Conditions for which a pending wait may be registered.
#[derive(Clone, Copy, Debug, PartialEq, Eq, Structural)]
pub enum WaitCondition {
    High,
    Low,
    RisingEdge,
    FallingEdge,
    AnyEdge,
}

impl WaitCondition {
    /// For levels (High/Low): is the condition satisfied by the current known
    /// state of the pin?  Edge conditions are about a *future* transition and
    /// are never satisfied up front.
    pub open spec fn spec_satisfied_immediately(self, current_pin_state: bool) -> bool {
        match self {
            WaitCondition::High => current_pin_state,
            WaitCondition::Low => !current_pin_state,
            WaitCondition::RisingEdge => false,
            WaitCondition::FallingEdge => false,
            WaitCondition::AnyEdge => false,
        }
    }

    /// Does this condition match a transition from `was_high` to `is_high`?
    pub open spec fn spec_matches_edge(self, was_high: bool, is_high: bool) -> bool {
        match self {
            WaitCondition::High => is_high,
            WaitCondition::Low => !is_high,
            WaitCondition::RisingEdge => !was_high && is_high,
            WaitCondition::FallingEdge => was_high && !is_high,
            WaitCondition::AnyEdge => was_high != is_high,
        }
    }

    /// For levels (High/Low), is it satisfied by the current known state of
    /// the pin?  For edge conditions, we never say "yes" up front.
    pub fn is_satisfied_immediately(self, current_pin_state: bool) -> (r: bool)
        ensures
            r == self.spec_satisfied_immediately(current_pin_state),
    {
        match self {
            WaitCondition::High => current_pin_state,
            WaitCondition::Low => !current_pin_state,
            WaitCondition::RisingEdge => false,
            WaitCondition::FallingEdge => false,
            WaitCondition::AnyEdge => false,
        }
    }

    /// Does this condition match a transition from `was_high` to `is_high`?
    pub fn matches_edge(self, was_high: bool, is_high: bool) -> (r: bool)
        ensures
            r == self.spec_matches_edge(was_high, is_high),
    {
        let rising = !was_high && is_high;
        let falling = was_high && !is_high;
        match self {
            WaitCondition::High => is_high,
            WaitCondition::Low => !is_high,
            WaitCondition::RisingEdge => rising,
            WaitCondition::FallingEdge => falling,
            WaitCondition::AnyEdge => rising || falling,
        }
    }
}

/// A wait registration for one task: which condition is awaited and the
/// task's resumption handle.
#[derive(Debug)]
pub struct PinWaiter {
    pub id: u64,
    pub condition: WaitCondition,
    pub waker: Waker,
}

/// Whether bit `pin` is set in `word`.
pub open spec fn bit_set(word: u32, pin: int) -> bool {
    word & (1u32 << (pin as u32)) != 0
}

/// Whether bit `pin` differs between the two samples.
pub open spec fn bit_changed(old_word: u32, new_word: u32, pin: int) -> bool {
    bit_set(old_word, pin) != bit_set(new_word, pin)
}

/// A single-bit mask isolates exactly the xor of the two words at that bit.
proof fn lemma_changed_bit(old_word: u32, new_word: u32, sh: u32)
    requires
        sh < 32,
    ensures
        ((old_word ^ new_word) & (1u32 << sh) != 0) == bit_changed(old_word, new_word, sh as int),
        (old_word & (1u32 << sh) != 0) == bit_set(old_word, sh as int),
        (new_word & (1u32 << sh) != 0) == bit_set(new_word, sh as int),
{
    assert(((old_word ^ new_word) & (1u32 << sh) != 0) == ((old_word & (1u32 << sh) != 0) != (
    new_word & (1u32 << sh) != 0))) by (bit_vector);
}

/// The ids in a waiter list are pairwise distinct and below `bound`.
pub open spec fn ids_ok(s: Seq<PinWaiter>, bound: u64) -> bool {
    &&& forall|i: int| 0 <= i < s.len() ==> #[trigger] s[i].id < bound
    &&& forall|i: int, j: int| 0 <= i < j < s.len() ==> #[trigger] s[i].id != #[trigger] s[j].id
}

/// Shared, interrupt-driven async state for a single port-expander chip.
/// Tracks the last-known state (bitmask) of up to 32 pins and maintains a
/// bounded waiter list for each pin.
pub struct AsyncPortState {
    last_state: u32,
    waiters: Vec<WaiterList>,
    next_id: u64,
}

impl AsyncPortState {
    /// Level of every pin as of the most recent sample.
    pub closed spec fn last_known(&self) -> u32 {
        self.last_state
    }

    /// The pending registrations for pin `pin`, in registration order.
    pub closed spec fn waiters_at(&self, pin: int) -> Seq<PinWaiter> {
        waiter_list_view(self.waiters@[pin])
    }

    /// The id that the next registration will take.
    pub closed spec fn id_supply(&self) -> u64 {
        self.next_id
    }

    /// Well-formedness: one waiter list per pin, and ids unique per list and
    /// always below the id supply.
    pub closed spec fn wf(&self) -> bool {
        &&& self.waiters@.len() == NUM_PINS
        &&& forall|p: int| 0 <= p < NUM_PINS ==> ids_ok(#[trigger] self.waiters_at(p), self.next_id)
    }

    /// Construct a port state with a zeroed sample and no pending waiters.
    pub fn new() -> (r: AsyncPortState)
        ensures
            r.wf(),
            r.last_known() == 0,
            forall|p: int| 0 <= p < NUM_PINS ==> #[trigger] r.waiters_at(p) =~= Seq::<
                PinWaiter,
            >::empty(),
    {
        let mut waiters: Vec<WaiterList> = Vec::new();
        let mut i: usize = 0;
        while i < NUM_PINS
            invariant
                i == waiters@.len(),
                i <= NUM_PINS,
                forall|p: int|
                    0 <= p < i ==> waiter_list_view(#[trigger] waiters@[p]) =~= Seq::<
                        PinWaiter,
                    >::empty(),
            decreases NUM_PINS - i,
        {
            waiters.push(WaiterList::new());
            i += 1;
        }
        AsyncPortState { last_state: 0, waiters, next_id: 1 }
    }

    /// Level of every pin as of the most recent sample.
    pub fn last_known_state(&self) -> (r: u32)
        ensures
            r == self.last_known(),
    {
        self.last_state
    }

    /// Overwrite the last-known sample without touching any waiter list.
    ///
    /// Construction requires an initial synchronous sample of the chip to
    /// seed the last-known state before any waits are issued, to avoid
    /// spurious immediate resolution of level waits.
    pub fn seed_state(&mut self, bits: u32)
        ensures
            final(self).last_known() == bits,
            old(self).wf() ==> final(self).wf(),
            final(self).id_supply() == old(self).id_supply(),
            forall|p: int| #[trigger] final(self).waiters_at(p) == old(self).waiters_at(p),
    {
        self.last_state = bits;
        proof {
            assert(forall|p: int| #[trigger] self.waiters_at(p) == old(self).waiters_at(p));
            if old(self).wf() {
                assert forall|p: int| 0 <= p < NUM_PINS implies ids_ok(
                    #[trigger] self.waiters_at(p),
                    self.next_id,
                ) by {
                    assert(ids_ok(old(self).waiters_at(p), old(self).next_id));
                }
            }
        }
    }

    /// How many registrations are currently pending on pin `pin`.
    pub fn waiter_count(&self, pin: u8) -> (r: usize)
        requires
            self.wf(),
            pin < 32,
        ensures
            r == self.waiters_at(pin as int).len(),
    {
        self.waiters[pin as usize].len()
    }

    /// The id and condition of the pending registration at position `index`
    /// of pin `pin`'s list.
    pub fn waiter_info(&self, pin: u8, index: usize) -> (r: (u64, WaitCondition))
        requires
            self.wf(),
            pin < 32,
            index < self.waiters_at(pin as int).len(),
        ensures
            r.0 == self.waiters_at(pin as int)[index as int].id,
            r.1 == self.waiters_at(pin as int)[index as int].condition,
    {
        let w = self.waiters[pin as usize].get(index);
        (w.id, w.condition)
    }
}

/// The waiters of one pin's list that a transition from `was_high` to
/// `is_high` leaves pending, in their original order.
pub open spec fn survivors(s: Seq<PinWaiter>, was_high: bool, is_high: bool) -> Seq<PinWaiter> {
    s.filter(|w: PinWaiter| !w.condition.spec_matches_edge(was_high, is_high))
}

/// The waiters of one pin's list that a transition from `was_high` to
/// `is_high` resolves, in their original order.
pub open spec fn woken_of(s: Seq<PinWaiter>, was_high: bool, is_high: bool) -> Seq<PinWaiter> {
    s.filter(|w: PinWaiter| w.condition.spec_matches_edge(was_high, is_high))
}

/// What one pin's waiter list must be after the sample moves from `old_word`
/// to `new_word`: untouched if the pin's bit did not change, else only the
/// non-matching waiters remain.
pub open spec fn post_waiters(pre: Seq<PinWaiter>, old_word: u32, new_word: u32, pin: int) -> Seq<
    PinWaiter,
> {
    if bit_changed(old_word, new_word, pin) {
        survivors(pre, bit_set(old_word, pin), bit_set(new_word, pin))
    } else {
        pre
    }
}

/// The waiters the diff from `old_word` to `new_word` resolves on pin `pin`.
pub open spec fn woken_at(pre: Seq<PinWaiter>, old_word: u32, new_word: u32, pin: int) -> Seq<
    PinWaiter,
> {
    if bit_changed(old_word, new_word, pin) {
        woken_of(pre, bit_set(old_word, pin), bit_set(new_word, pin))
    } else {
        Seq::empty()
    }
}

/// All waiters the diff from `pre`'s sample to `new_word` resolves on pins
/// below `upto`, in pin order and, within one pin, in registration order.
pub open spec fn woken_upto(pre: AsyncPortState, new_word: u32, upto: int) -> Seq<PinWaiter>
    decreases upto,
{
    if upto <= 0 {
        Seq::empty()
    } else {
        woken_upto(pre, new_word, upto - 1) + woken_at(
            pre.waiters_at(upto - 1),
            pre.last_known(),
            new_word,
            upto - 1,
        )
    }
}

/// The relation between a port state before and after one interrupt-handler
/// pass that observed the sample `new_word`.
pub open spec fn diff_applied(pre: AsyncPortState, post: AsyncPortState, new_word: u32) -> bool {
    &&& post.last_known() == new_word
    &&& post.id_supply() == pre.id_supply()
    &&& forall|p: int|
        0 <= p < NUM_PINS ==> #[trigger] post.waiters_at(p) == post_waiters(
            pre.waiters_at(p),
            pre.last_known(),
            new_word,
            p,
        )
}

/// Filtering a sequence extended by one element keeps the filtered prefix and
/// appends the element exactly if it passes the predicate.
proof fn lemma_filter_push<A>(s: Seq<A>, pred: spec_fn(A) -> bool, x: A)
    ensures
        s.push(x).filter(pred) == (if pred(x) {
            s.filter(pred).push(x)
        } else {
            s.filter(pred)
        }),
{
    reveal(Seq::filter);
    assert(s.push(x).drop_last() =~= s);
    assert(s.push(x).last() == x);
}

/// Removing an element keeps the remaining ids distinct and bounded.
proof fn lemma_ids_ok_remove(s: Seq<PinWaiter>, bound: u64, i: int)
    requires
        ids_ok(s, bound),
        0 <= i < s.len(),
    ensures
        ids_ok(s.remove(i), bound),
{
    s.remove_ensures(i);
}

/// When the sample did not change at all, no pin wakes anybody.
proof fn lemma_woken_upto_no_change(pre: AsyncPortState, new_word: u32, upto: int)
    requires
        pre.last_known() == new_word,
    ensures
        woken_upto(pre, new_word, upto) =~= Seq::<PinWaiter>::empty(),
    decreases upto,
{
    if upto > 0 {
        lemma_woken_upto_no_change(pre, new_word, upto - 1);
    }
}

impl AsyncPortState {
    /// One interrupt-handler pass over an already-read sample `new_state`:
    /// diffs it against the last known state, removes every matching waiter
    /// (preserving the order of the remaining ones), stores the sample, and
    /// returns the removed waiters so the caller can wake them.
    pub fn apply_new_state(&mut self, new_state: u32) -> (woken: Vec<PinWaiter>)
        requires
            old(self).wf(),
        ensures
            final(self).wf(),
            diff_applied(*old(self), *final(self), new_state),
            woken@ == woken_upto(*old(self), new_state, NUM_PINS as int),
    {
        let mut woken: Vec<PinWaiter> = Vec::new();
        let old_state = self.last_state;
        let changed = old_state ^ new_state;
        if changed == 0 {
            // Nothing changed; no tasks to wake and no list to touch.
            proof {
                assert(old_state == new_state) by {
                    assert(old_state ^ new_state == 0 ==> old_state == new_state) by (bit_vector);
                }
                lemma_woken_upto_no_change(*old(self), new_state, NUM_PINS as int);
            }
            self.last_state = new_state;
            return woken;
        }
        self.last_state = new_state;
        proof {
            assert forall|p: int|
                0 <= p < NUM_PINS implies ids_ok(
                #[trigger] self.waiters_at(p),
                self.next_id,
            ) by {
                assert(self.waiters@[p] == old(self).waiters@[p]);
                assert(ids_ok(old(self).waiters_at(p), old(self).next_id));
            }
        }
        let mut pin_idx: usize = 0;
        while pin_idx < NUM_PINS
            invariant
                old(self).wf(),
                self.waiters@.len() == NUM_PINS,
                pin_idx <= NUM_PINS,
                old_state == old(self).last_known(),
                changed == old_state ^ new_state,
                self.last_state == new_state,
                self.next_id == old(self).next_id,
                forall|p: int|
                    0 <= p < pin_idx ==> #[trigger] self.waiters_at(p) == post_waiters(
                        old(self).waiters_at(p),
                        old_state,
                        new_state,
                        p,
                    ),
                forall|p: int|
                    pin_idx <= p < NUM_PINS ==> #[trigger] self.waiters_at(p) == old(
                        self,
                    ).waiters_at(p),
                forall|p: int|
                    0 <= p < NUM_PINS ==> ids_ok(#[trigger] self.waiters_at(p), self.next_id),
                woken@ == woken_upto(*old(self), new_state, pin_idx as int),
            decreases NUM_PINS - pin_idx,
        {
            let ghost snap = *self;
            let sh: u32 = pin_idx as u32;
            let mask: u32 = 1u32 << sh;
            proof {
                lemma_changed_bit(old_state, new_state, sh);
            }
            if changed & mask != 0 {
                let was_high = old_state & mask != 0;
                let is_high = new_state & mask != 0;
                proof {
                    assert(was_high == bit_set(old_state, pin_idx as int));
                    assert(is_high == bit_set(new_state, pin_idx as int));
                }
                proof {
                    assert(self.waiters_at(pin_idx as int) == old(self).waiters_at(
                        pin_idx as int,
                    ));
                    assert(ids_ok(self.waiters_at(pin_idx as int), self.next_id));
                }
                let mut lst = WaiterList::new();
                core::mem::swap(&mut lst, &mut self.waiters[pin_idx]);
                let ghost orig = lst@;
                let ghost base = woken@;
                let ghost bound = self.next_id;
                let ghost mut k: int = 0;
                proof {
                    assert(orig == old(self).waiters_at(pin_idx as int));
                    assert(ids_ok(orig, bound));
                }
                let mut i: usize = 0;
                while i < lst.len()
                    invariant
                        0 <= k <= orig.len(),
                        lst@ == survivors(orig.take(k), was_high, is_high) + orig.skip(k),
                        i == survivors(orig.take(k), was_high, is_high).len(),
                        woken@ == base + woken_of(orig.take(k), was_high, is_high),
                        ids_ok(lst@, bound),
                    decreases orig.len() - k,
                {
                    proof {
                        assert(k < orig.len());
                        assert(lst@[i as int] == orig[k]);
                        assert(orig.take(k + 1) =~= orig.take(k).push(orig[k]));
                    }
                    let cond = lst.get(i).condition;
                    if cond.matches_edge(was_high, is_high) {
                        proof {
                            lemma_filter_push(
                                orig.take(k),
                                |w: PinWaiter| !w.condition.spec_matches_edge(was_high, is_high),
                                orig[k],
                            );
                            lemma_filter_push(
                                orig.take(k),
                                |w: PinWaiter| w.condition.spec_matches_edge(was_high, is_high),
                                orig[k],
                            );
                        }
                        proof {
                            lemma_ids_ok_remove(lst@, bound, i as int);
                        }
                        let w = lst.remove(i);
                        woken.push(w);
                        proof {
                            assert(lst@ =~= survivors(orig.take(k + 1), was_high, is_high)
                                + orig.skip(k + 1));
                            assert(woken@ =~= base + woken_of(
                                orig.take(k + 1),
                                was_high,
                                is_high,
                            ));
                            k = k + 1;
                        }
                    } else {
                        proof {
                            lemma_filter_push(
                                orig.take(k),
                                |w: PinWaiter| !w.condition.spec_matches_edge(was_high, is_high),
                                orig[k],
                            );
                            lemma_filter_push(
                                orig.take(k),
                                |w: PinWaiter| w.condition.spec_matches_edge(was_high, is_high),
                                orig[k],
                            );
                        }
                        i += 1;
                        proof {
                            assert(lst@ =~= survivors(orig.take(k + 1), was_high, is_high)
                                + orig.skip(k + 1));
                            assert(woken@ =~= base + woken_of(
                                orig.take(k + 1),
                                was_high,
                                is_high,
                            ));
                            k = k + 1;
                        }
                    }
                }
                proof {
                    assert(k == orig.len());
                    assert(orig.take(k) =~= orig);
                    assert(orig.skip(k) =~= Seq::<PinWaiter>::empty());
                    assert(lst@ =~= survivors(orig, was_high, is_high));
                }
                self.waiters[pin_idx] = lst;
                proof {
                    let pi = pin_idx as int;
                    assert(self.waiters_at(pi) == survivors(
                        old(self).waiters_at(pi),
                        was_high,
                        is_high,
                    ));
                    assert(woken_upto(*old(self), new_state, pi + 1) == woken_upto(
                        *old(self),
                        new_state,
                        pi,
                    ) + woken_at(old(self).waiters_at(pi), old_state, new_state, pi));
                    assert(woken@ == woken_upto(*old(self), new_state, pi + 1));
                }
            } else {
                proof {
                    let pi = pin_idx as int;
                    assert(!bit_changed(old_state, new_state, pi));
                    assert(woken_upto(*old(self), new_state, pi + 1) == woken_upto(
                        *old(self),
                        new_state,
                        pi,
                    ) + woken_at(old(self).waiters_at(pi), old_state, new_state, pi));
                    assert(woken@ =~= woken@ + Seq::<PinWaiter>::empty());
                    assert(woken@ == woken_upto(*old(self), new_state, pi + 1));
                }
            }
            proof {
                assert forall|p: int|
                    0 <= p < NUM_PINS && p != pin_idx as int implies #[trigger] self.waiters_at(p)
                    == snap.waiters_at(p) by {
                    assert(self.waiters@[p] == snap.waiters@[p]);
                }
                assert(self.waiters_at(pin_idx as int) == post_waiters(
                    old(self).waiters_at(pin_idx as int),
                    old_state,
                    new_state,
                    pin_idx as int,
                ));
            }
            pin_idx += 1;
        }
        woken
    }
}

/// Whether some registration in `s` carries the id `id`.
pub open spec fn contains_id(s: Seq<PinWaiter>, id: u64) -> bool {
    exists|i: int| 0 <= i < s.len() && s[i].id == id
}

/// The position of the registration carrying `id` (unique when ids are
/// distinct).
pub open spec fn index_of_id(s: Seq<PinWaiter>, id: u64) -> int {
    choose|i: int| 0 <= i < s.len() && s[i].id == id
}

impl AsyncPortState {
    /// Called from the hardware ISR or a periodic poll loop: reads the new
    /// pin states in one bus transaction, compares them with the old, wakes
    /// every task whose condition matches the change, and stores the sample
    /// as the new last-known state.
    ///
    /// A bus error aborts the whole call: no waiter is resolved and the
    /// last-known state stays as it was.
    pub fn handle_interrupts<PD: PortDriver>(&mut self, port: &mut PD) -> (r: Result<
        (),
        PD::Error,
    >)
        requires
            old(self).wf(),
        ensures
            final(self).wf(),
            r is Err ==> *final(self) == *old(self),
            r is Ok ==> exists|ns: u32| diff_applied(*old(self), *final(self), ns),
            final(port).out_known() == old(port).out_known(),
            final(port).out_state() == old(port).out_state(),
    {
        let new_state = port.get(0xFFFF_FFFFu32, 0)?;
        let mut woken = self.apply_new_state(new_state);
        proof {
            assert(diff_applied(*old(self), *self, new_state));
        }
        while woken.len() > 0
            decreases woken.len(),
        {
            let w = woken.remove(0);
            w.waker.wake();
        }
        Ok(())
    }
}

impl AsyncPortState {
    /// Read the chip once and store the sample as the last-known state, so
    /// that no wait issued afterwards sees a spurious edge.  Call this once
    /// before handing out async pins.
    pub fn sample_and_seed<PD: PortDriver>(&mut self, port: &mut PD) -> (r: Result<
        (),
        PD::Error,
    >)
        requires
            old(self).wf(),
        ensures
            final(self).wf(),
            final(self).id_supply() == old(self).id_supply(),
            forall|p: int| #[trigger] final(self).waiters_at(p) == old(self).waiters_at(p),
            r is Err ==> *final(self) == *old(self),
            final(port).out_known() == old(port).out_known(),
            final(port).out_state() == old(port).out_state(),
    {
        let bits = port.get(0xFFFF_FFFFu32, 0)?;
        self.seed_state(bits);
        Ok(())
    }
}

/// Returned when a wait cannot register because the pin's waiter list is
/// already at capacity (or the id supply is exhausted, which a real system
/// never reaches).
#[derive(Clone, Copy, Debug, PartialEq, Eq, Structural)]
pub struct TooManyWaiters;

/// What one poll of a pending wait observed.
#[derive(Clone, Copy, Debug, PartialEq, Eq, Structural)]
pub enum PollStatus {
    /// The wait has resolved.
    Ready,
    /// The wait stays suspended until the interrupt handler resolves it.
    Pending,
}

/// The full transition relation of [`WaitForCondition::poll_step`]: given
/// the wait and port state before the poll, the pair after it, the handle
/// the task polled with, and the poll's outcome.
pub open spec fn poll_spec(
    pre_w: WaitForCondition,
    pre: AsyncPortState,
    post_w: WaitForCondition,
    post: AsyncPortState,
    waker: Waker,
    r: Result<PollStatus, TooManyWaiters>,
) -> bool {
    let pin = pre_w.pin_index as int;
    let lvl = bit_set(pre.last_known(), pin);
    let s = pre.waiters_at(pin);
    &&& post_w.pin_index == pre_w.pin_index
    &&& post_w.condition == pre_w.condition
    &&& post.last_known() == pre.last_known()
    &&& forall|p: int|
        0 <= p < NUM_PINS && p != pin ==> #[trigger] post.waiters_at(p) == pre.waiters_at(p)
    &&& (pre_w.done ==> {
        &&& r == Ok::<PollStatus, TooManyWaiters>(PollStatus::Ready)
        &&& post == pre
        &&& post_w == pre_w
    })
    &&& (!pre_w.done && !pre_w.registered ==> {
        if pre_w.condition.spec_satisfied_immediately(lvl) {
            // Level already correct: resolve without ever inserting a waiter.
            &&& r == Ok::<PollStatus, TooManyWaiters>(PollStatus::Ready)
            &&& post == pre
            &&& post_w.done
            &&& !post_w.registered
        } else if s.len() < MAX_WAKERS_PER_PIN && pre.id_supply() < u64::MAX {
            // Insert a fresh registration and stay suspended.
            &&& r == Ok::<PollStatus, TooManyWaiters>(PollStatus::Pending)
            &&& post_w.registered
            &&& !post_w.done
            &&& post_w.id == pre.id_supply()
            &&& post.id_supply() == pre.id_supply() + 1
            &&& post.waiters_at(pin) == s.push(
                PinWaiter { id: pre.id_supply(), condition: pre_w.condition, waker: waker },
            )
        } else {
            // The pin's waiter list is out of capacity.
            &&& r == Err::<PollStatus, TooManyWaiters>(TooManyWaiters)
            &&& post == pre
            &&& post_w == pre_w
        }
    })
    &&& (!pre_w.done && pre_w.registered ==> {
        if !contains_id(s, pre_w.id) {
            // The interrupt handler removed the entry: the wait resolved.
            &&& r == Ok::<PollStatus, TooManyWaiters>(PollStatus::Ready)
            &&& post == pre
            &&& post_w.done
        } else {
            // Still pending: only the stored handle is refreshed.
            let j = index_of_id(s, pre_w.id);
            &&& r == Ok::<PollStatus, TooManyWaiters>(PollStatus::Pending)
            &&& post_w == pre_w
            &&& post.id_supply() == pre.id_supply()
            &&& post.waiters_at(pin) == s.update(
                j,
                PinWaiter { id: pre_w.id, condition: s[j].condition, waker: waker },
            )
        }
    })
}

/// The full transition relation of [`WaitForCondition::cancel`]: the own
/// registration, if still present, is removed; nothing else changes.
pub open spec fn cancel_spec(
    pre_w: WaitForCondition,
    pre: AsyncPortState,
    post_w: WaitForCondition,
    post: AsyncPortState,
) -> bool {
    let pin = pre_w.pin_index as int;
    let s = pre.waiters_at(pin);
    &&& post_w.done
    &&& post.last_known() == pre.last_known()
    &&& post.id_supply() == pre.id_supply()
    &&& forall|p: int|
        0 <= p < NUM_PINS && p != pin ==> #[trigger] post.waiters_at(p) == pre.waiters_at(p)
    &&& (if pre_w.registered && !pre_w.done && contains_id(s, pre_w.id) {
        post.waiters_at(pin) == s.remove(index_of_id(s, pre_w.id))
    } else {
        post == pre
    })
}

/// The state machine of one outstanding wait: `Unregistered` (neither flag)
/// to `Registered` to `Done`.  The embedding system's future type drives it
/// on every poll and calls [`WaitForCondition::cancel`] when the wait is
/// dropped before resolution.
pub struct WaitForCondition {
    pub pin_index: u8,
    pub condition: WaitCondition,
    pub id: u64,
    pub registered: bool,
    pub done: bool,
}

impl WaitForCondition {
    /// What must hold between a wait and the port state it registered in.
    pub open spec fn inv(&self, st: AsyncPortState) -> bool {
        &&& self.pin_index < 32
        &&& self.registered && !self.done ==> self.id < st.id_supply()
    }

    /// A fresh, not yet registered wait for `condition` on pin `pin_index`.
    pub fn new(pin_index: u8, condition: WaitCondition) -> (r: WaitForCondition)
        requires
            pin_index < 32,
        ensures
            r.pin_index == pin_index,
            r.condition == condition,
            !r.registered,
            !r.done,
    {
        WaitForCondition { pin_index, condition, id: 0, registered: false, done: false }
    }

    /// One poll of the wait, under the port state's access discipline.
    /// `waker` is the current resumption handle of the polling task.
    /// The full transition relation is [`poll_spec`].
    pub fn poll_step(&mut self, state: &mut AsyncPortState, waker: Waker) -> (r: Result<
        PollStatus,
        TooManyWaiters,
    >)
        requires
            old(state).wf(),
            old(self).inv(*old(state)),
        ensures
            final(state).wf(),
            final(self).inv(*final(state)),
            poll_spec(*old(self), *old(state), *final(self), *final(state), waker, r),
    {
        if self.done {
            return Ok(PollStatus::Ready);
        }
        let pin = self.pin_index as usize;
        let mask: u32 = 1u32 << (self.pin_index as u32);
        let current_pin_state = state.last_state & mask != 0;
        proof {
            assert(current_pin_state == bit_set(state.last_known(), pin as int));
        }
        let ghost snap = *state;
        if !self.registered {
            if self.condition.is_satisfied_immediately(current_pin_state) {
                self.done = true;
                return Ok(PollStatus::Ready);
            }
            // Register a fresh waiter so the interrupt that sees the next
            // matching transition can wake the task.
            if state.next_id == u64::MAX {
                return Err(TooManyWaiters);
            }
            if state.waiters[pin].len() >= MAX_WAKERS_PER_PIN {
                return Err(TooManyWaiters);
            }
            let id = state.next_id;
            state.next_id = id + 1;
            proof {
                assert forall|p: int|
                    0 <= p < NUM_PINS implies ids_ok(
                    #[trigger] state.waiters_at(p),
                    state.next_id,
                ) by {
                    assert(state.waiters@[p] == snap.waiters@[p]);
                    assert(ids_ok(snap.waiters_at(p), snap.next_id));
                }
            }
            let ghost snap2 = *state;
            let push_r = state.waiters[pin].push(
                PinWaiter { id, condition: self.condition, waker },
            );
            proof {
                assert(push_r is Ok);
                assert forall|p: int|
                    0 <= p < NUM_PINS && p != pin as int implies #[trigger] state.waiters_at(p)
                    == snap.waiters_at(p) by {
                    assert(state.waiters@[p] == snap.waiters@[p]);
                }
                assert(state.waiters_at(pin as int) == snap.waiters_at(pin as int).push(
                    PinWaiter { id: id, condition: self.condition, waker: waker },
                ));
                assert forall|p: int|
                    0 <= p < NUM_PINS implies ids_ok(
                    #[trigger] state.waiters_at(p),
                    state.next_id,
                ) by {
                    assert(ids_ok(snap2.waiters_at(p), snap2.next_id));
                    if p == pin as int {
                        let s = state.waiters_at(p);
                        assert(forall|i: int|
                            0 <= i < s.len() - 1 ==> #[trigger] s[i] == snap2.waiters_at(p)[i]);
                    }
                }
            }
            self.registered = true;
            self.id = id;
            return Ok(PollStatus::Pending);
        }
        // Registered: look our entry up by id.
        match find_waiter(&state.waiters[pin], self.id) {
            None => {
                // The interrupt handler removed us, so the condition fired.
                proof {
                    assert(!contains_id(snap.waiters_at(pin as int), self.id));
                }
                self.done = true;
                Ok(PollStatus::Ready)
            },
            Some(idx) => {
                // Still pending; refresh the stored resumption handle.
                proof {
                    let s = snap.waiters_at(pin as int);
                    assert(contains_id(s, self.id));
                    let j = index_of_id(s, self.id);
                    assert(0 <= j < s.len() && s[j].id == self.id);
                    assert(ids_ok(s, snap.next_id));
                    assert(j == idx as int);
                }
                let cond = state.waiters[pin].get(idx).condition;
                let ghost snap2 = *state;
                state.waiters[pin].set(idx, PinWaiter { id: self.id, condition: cond, waker });
                proof {
                    assert forall|p: int|
                        0 <= p < NUM_PINS && p != pin as int implies #[trigger] state.waiters_at(p)
                        == snap.waiters_at(p) by {
                        assert(state.waiters@[p] == snap.waiters@[p]);
                    }
                    assert forall|p: int|
                        0 <= p < NUM_PINS implies ids_ok(
                        #[trigger] state.waiters_at(p),
                        state.next_id,
                    ) by {
                        assert(ids_ok(snap2.waiters_at(p), snap2.next_id));
                        if p == pin as int {
                            let s = state.waiters_at(p);
                            let pre = snap2.waiters_at(p);
                            assert(forall|i: int|
                                0 <= i < s.len() && i != idx as int ==> #[trigger] s[i] == pre[i]);
                        }
                    }
                }
                Ok(PollStatus::Pending)
            },
        }
    }

    /// Cancellation: a wait discarded before resolution removes its own
    /// registration (by id) from the pin's waiter list if still present, so
    /// it neither leaks a capacity slot nor leaves a stale resumption handle
    /// behind.
    pub fn cancel(&mut self, state: &mut AsyncPortState)
        requires
            old(state).wf(),
            old(self).inv(*old(state)),
        ensures
            final(state).wf(),
            cancel_spec(*old(self), *old(state), *final(self), *final(state)),
    {
        if self.done || !self.registered {
            self.done = true;
            return ;
        }
        let pin = self.pin_index as usize;
        let ghost snap = *state;
        match find_waiter(&state.waiters[pin], self.id) {
            None => {
                proof {
                    assert(!contains_id(snap.waiters_at(pin as int), self.id));
                }
                self.done = true;
            },
            Some(idx) => {
                proof {
                    let s = snap.waiters_at(pin as int);
                    assert(contains_id(s, self.id));
                    let j = index_of_id(s, self.id);
                    assert(0 <= j < s.len() && s[j].id == self.id);
                    assert(ids_ok(s, snap.next_id));
                    assert(j == idx as int);
                    lemma_ids_ok_remove(s, snap.next_id, idx as int);
                }
                let _removed = state.waiters[pin].remove(idx);
                proof {
                    assert forall|p: int|
                        0 <= p < NUM_PINS && p != pin as int implies #[trigger] state.waiters_at(p)
                        == snap.waiters_at(p) by {
                        assert(state.waiters@[p] == snap.waiters@[p]);
                    }
                    assert forall|p: int|
                        0 <= p < NUM_PINS implies ids_ok(
                        #[trigger] state.waiters_at(p),
                        state.next_id,
                    ) by {
                        assert(ids_ok(snap.waiters_at(p), snap.next_id));
                    }
                }
                self.done = true;
            },
        }
    }
}

/// Any waiter a changed pin matches is in the diff's woken sequence.
proof fn lemma_woken_upto_contains(
    pre: AsyncPortState,
    new_word: u32,
    pin: int,
    upto: int,
    w: PinWaiter,
)
    requires
        0 <= pin < upto,
        woken_at(pre.waiters_at(pin), pre.last_known(), new_word, pin).contains(w),
    ensures
        woken_upto(pre, new_word, upto).contains(w),
    decreases upto,
{
    let head = woken_upto(pre, new_word, upto - 1);
    let tail = woken_at(pre.waiters_at(upto - 1), pre.last_known(), new_word, upto - 1);
    if pin == upto - 1 {
        let j = choose|j: int| 0 <= j < tail.len() && tail[j] == w;
        assert((head + tail)[head.len() + j] == w);
    } else {
        lemma_woken_upto_contains(pre, new_word, pin, upto - 1, w);
        let j = choose|j: int| 0 <= j < head.len() && head[j] == w;
        assert((head + tail)[j] == w);
    }
}

/// No missed wake: when one interrupt-handler pass observes a transition on
/// `pin` and a pending registration's condition matches that transition, that
/// very pass resolves it — the waiter is among the woken, and afterwards no
/// waiter matching the transition remains in the pin's list.
pub proof fn lemma_no_missed_wake(
    pre: AsyncPortState,
    post: AsyncPortState,
    new_word: u32,
    woken: Seq<PinWaiter>,
    pin: int,
    i: int,
)
    requires
        diff_applied(pre, post, new_word),
        woken == woken_upto(pre, new_word, NUM_PINS as int),
        0 <= pin < NUM_PINS,
        0 <= i < pre.waiters_at(pin).len(),
        bit_changed(pre.last_known(), new_word, pin),
        pre.waiters_at(pin)[i].condition.spec_matches_edge(
            bit_set(pre.last_known(), pin),
            bit_set(new_word, pin),
        ),
    ensures
        woken.contains(pre.waiters_at(pin)[i]),
        forall|j: int|
            0 <= j < post.waiters_at(pin).len()
                ==> !(#[trigger] post.waiters_at(pin)[j]).condition.spec_matches_edge(
                bit_set(pre.last_known(), pin),
                bit_set(new_word, pin),
            ),
{
    let was = bit_set(pre.last_known(), pin);
    let is = bit_set(new_word, pin);
    let s = pre.waiters_at(pin);
    let w = s[i];
    s.lemma_filter_contains(|x: PinWaiter| x.condition.spec_matches_edge(was, is), i);
    lemma_woken_upto_contains(pre, new_word, pin, NUM_PINS as int, w);
    assert forall|j: int|
        0 <= j < post.waiters_at(pin).len()
            implies !(#[trigger] post.waiters_at(pin)[j]).condition.spec_matches_edge(
            was,
            is,
        ) by {
        s.lemma_filter_pred(|x: PinWaiter| !x.condition.spec_matches_edge(was, is), j);
    }
}

/// No spurious wake: a waiter whose condition does not match the transition
/// a pass observed on its pin is neither woken by that pin's transition nor
/// removed from the pin's list.
pub proof fn lemma_no_spurious_wake(
    pre: AsyncPortState,
    post: AsyncPortState,
    new_word: u32,
    pin: int,
    i: int,
)
    requires
        diff_applied(pre, post, new_word),
        0 <= pin < NUM_PINS,
        0 <= i < pre.waiters_at(pin).len(),
        !pre.waiters_at(pin)[i].condition.spec_matches_edge(
            bit_set(pre.last_known(), pin),
            bit_set(new_word, pin),
        ),
    ensures
        post.waiters_at(pin).contains(pre.waiters_at(pin)[i]),
        !woken_at(pre.waiters_at(pin), pre.last_known(), new_word, pin).contains(
            pre.waiters_at(pin)[i],
        ),
{
    let was = bit_set(pre.last_known(), pin);
    let is = bit_set(new_word, pin);
    let s = pre.waiters_at(pin);
    let w = s[i];
    if bit_changed(pre.last_known(), new_word, pin) {
        s.lemma_filter_contains(|x: PinWaiter| !x.condition.spec_matches_edge(was, is), i);
    } else {
        assert(post.waiters_at(pin)[i] == w);
    }
    let wk = woken_at(s, pre.last_known(), new_word, pin);
    if wk.contains(w) {
        let j = choose|j: int| 0 <= j < wk.len() && wk[j] == w;
        s.lemma_filter_pred(|x: PinWaiter| x.condition.spec_matches_edge(was, is), j);
    }
}

/// Idempotent no-op diff: a pass that observes the very sample already known
/// wakes nobody and leaves every waiter list untouched, so running the
/// handler again without a level change is a no-op.
pub proof fn lemma_noop_diff(pre: AsyncPortState, post: AsyncPortState, woken: Seq<PinWaiter>)
    requires
        diff_applied(pre, post, pre.last_known()),
        woken == woken_upto(pre, pre.last_known(), NUM_PINS as int),
    ensures
        woken =~= Seq::<PinWaiter>::empty(),
        forall|p: int| 0 <= p < NUM_PINS ==> #[trigger] post.waiters_at(p) == pre.waiters_at(p),
        post.last_known() == pre.last_known(),
{
    lemma_woken_upto_no_change(pre, pre.last_known(), NUM_PINS as int);
}

/// Level short-circuit: polling a fresh level wait whose level already holds
/// in the last-known state resolves it immediately, without inserting a
/// waiter — every list, the own pin's included, is exactly as before.
pub proof fn lemma_level_short_circuit(
    pre_w: WaitForCondition,
    pre: AsyncPortState,
    post_w: WaitForCondition,
    post: AsyncPortState,
    waker: Waker,
    r: Result<PollStatus, TooManyWaiters>,
)
    requires
        poll_spec(pre_w, pre, post_w, post, waker, r),
        !pre_w.done,
        !pre_w.registered,
        pre_w.condition.spec_satisfied_immediately(bit_set(pre.last_known(), pre_w.pin_index as int)),
    ensures
        r == Ok::<PollStatus, TooManyWaiters>(PollStatus::Ready),
        post == pre,
        post.waiters_at(pre_w.pin_index as int).len() == pre.waiters_at(
            pre_w.pin_index as int,
        ).len(),
{
}

/// Edge waits never short-circuit: polling a fresh edge wait suspends it (or
/// reports exhausted capacity); it never resolves from the current level
/// alone.
pub proof fn lemma_edge_never_short_circuits(
    pre_w: WaitForCondition,
    pre: AsyncPortState,
    post_w: WaitForCondition,
    post: AsyncPortState,
    waker: Waker,
    r: Result<PollStatus, TooManyWaiters>,
)
    requires
        poll_spec(pre_w, pre, post_w, post, waker, r),
        !pre_w.done,
        !pre_w.registered,
        pre_w.condition is RisingEdge || pre_w.condition is FallingEdge || pre_w.condition
            is AnyEdge,
    ensures
        r != Ok::<PollStatus, TooManyWaiters>(PollStatus::Ready),
        r is Ok ==> post_w.registered && !post_w.done && post.waiters_at(pre_w.pin_index as int)
            == pre.waiters_at(pre_w.pin_index as int).push(
            PinWaiter { id: pre.id_supply(), condition: pre_w.condition, waker: waker },
        ),
{
}

/// Cancellation frees capacity: dropping one registered wait from a full
/// list leaves room, so the next registration on that pin succeeds.
pub proof fn lemma_cancel_frees_capacity(
    pre_w: WaitForCondition,
    pre: AsyncPortState,
    post_w: WaitForCondition,
    post: AsyncPortState,
)
    requires
        cancel_spec(pre_w, pre, post_w, post),
        pre_w.registered,
        !pre_w.done,
        contains_id(pre.waiters_at(pre_w.pin_index as int), pre_w.id),
        pre.waiters_at(pre_w.pin_index as int).len() == MAX_WAKERS_PER_PIN,
    ensures
        post.waiters_at(pre_w.pin_index as int).len() == MAX_WAKERS_PER_PIN - 1,
{
    let s = pre.waiters_at(pre_w.pin_index as int);
    let j = index_of_id(s, pre_w.id);
    assert(0 <= j < s.len());
    s.remove_ensures(j);
}

/// Look a registration up by id; reports its position, or that no entry
/// carries the id.
fn find_waiter(lst: &WaiterList, id: u64) -> (r: Option<usize>)
    ensures
        r is Some ==> r->0 < lst@.len() && lst@[r->0 as int].id == id,
        r is None ==> !contains_id(lst@, id),
{
    let n = lst.len();
    let mut i: usize = 0;
    while i < n
        invariant
            n == lst@.len(),
            i <= n,
            forall|j: int| 0 <= j < i ==> #[trigger] lst@[j].id != id,
        decreases n - i,
    {
        if lst.get(i).id == id {
            return Some(i);
        }
        i += 1;
    }
    None
}

impl Default for AsyncPortState {
    fn default() -> (r: Self)
        ensures
            r.wf(),
            r.last_known() == 0,
    {
        Self::new()
    }
}

} // verus!
