//! Tests for the interrupt-driven asynchronous pin-notification engine:
//! registration, the diff/wake pass, short-circuiting, cancellation and the
//! bounded waiter lists.

use port_expander::pin_async::PollStatus;
use port_expander::pin_async::TooManyWaiters;
use port_expander::pin_async::WaitForCondition;
use port_expander::pin_async::MAX_WAKERS_PER_PIN;
use port_expander::AsyncPortState;
use port_expander::PortDriver;
use port_expander::WaitCondition;
use std::sync::atomic::AtomicUsize;
use std::sync::atomic::Ordering;
use std::sync::Arc;
use std::task::Wake;
use std::task::Waker;

struct CountingWake {
    count: AtomicUsize,
}

impl Wake for CountingWake {
    fn wake(self: Arc<Self>) {
        self.count.fetch_add(1, Ordering::SeqCst);
    }
}

fn counting_waker() -> (Arc<CountingWake>, Waker) {
    let inner = Arc::new(CountingWake {
        count: AtomicUsize::new(0),
    });
    let waker = Waker::from(inner.clone());
    (inner, waker)
}

/// A port whose sampling read hands out a scripted sequence of pin states.
struct FakePort {
    samples: Vec<Result<u32, ()>>,
    idx: usize,
}

impl FakePort {
    fn new(samples: &[Result<u32, ()>]) -> FakePort {
        FakePort {
            samples: samples.to_vec(),
            idx: 0,
        }
    }
}

impl PortDriver for FakePort {
    type Error = ();

    fn pins_mask() -> u32 {
        0xFFFF_FFFF
    }

    fn supports_output() -> bool {
        false
    }

    fn out_known(&self) -> bool {
        false
    }

    fn out_state(&self) -> u32 {
        0
    }

    fn set(&mut self, _mask_high: u32, _mask_low: u32) -> Result<(), ()> {
        Ok(())
    }

    fn is_set(&mut self, _mask_high: u32, _mask_low: u32) -> Result<u32, ()> {
        Ok(0)
    }

    fn get(&mut self, mask_high: u32, _mask_low: u32) -> Result<u32, ()> {
        let r = self.samples[self.idx];
        self.idx += 1;
        r.map(|bits| bits & mask_high)
    }
}

#[test]
fn matches_edge_table() {
    // transition (was_high, is_high): ff, ft (rising), tf (falling), tt
    assert_eq!(WaitCondition::High.matches_edge(false, false), false);
    assert_eq!(WaitCondition::High.matches_edge(false, true), true);
    assert_eq!(WaitCondition::High.matches_edge(true, false), false);
    assert_eq!(WaitCondition::High.matches_edge(true, true), true);

    assert_eq!(WaitCondition::Low.matches_edge(false, false), true);
    assert_eq!(WaitCondition::Low.matches_edge(false, true), false);
    assert_eq!(WaitCondition::Low.matches_edge(true, false), true);
    assert_eq!(WaitCondition::Low.matches_edge(true, true), false);

    assert_eq!(WaitCondition::RisingEdge.matches_edge(false, false), false);
    assert_eq!(WaitCondition::RisingEdge.matches_edge(false, true), true);
    assert_eq!(WaitCondition::RisingEdge.matches_edge(true, false), false);
    assert_eq!(WaitCondition::RisingEdge.matches_edge(true, true), false);

    assert_eq!(WaitCondition::FallingEdge.matches_edge(false, false), false);
    assert_eq!(WaitCondition::FallingEdge.matches_edge(false, true), false);
    assert_eq!(WaitCondition::FallingEdge.matches_edge(true, false), true);
    assert_eq!(WaitCondition::FallingEdge.matches_edge(true, true), false);

    assert_eq!(WaitCondition::AnyEdge.matches_edge(false, false), false);
    assert_eq!(WaitCondition::AnyEdge.matches_edge(false, true), true);
    assert_eq!(WaitCondition::AnyEdge.matches_edge(true, false), true);
    assert_eq!(WaitCondition::AnyEdge.matches_edge(true, true), false);
}

#[test]
fn satisfied_immediately_only_for_levels() {
    assert_eq!(WaitCondition::High.is_satisfied_immediately(true), true);
    assert_eq!(WaitCondition::High.is_satisfied_immediately(false), false);
    assert_eq!(WaitCondition::Low.is_satisfied_immediately(false), true);
    assert_eq!(WaitCondition::Low.is_satisfied_immediately(true), false);
    assert_eq!(WaitCondition::RisingEdge.is_satisfied_immediately(true), false);
    assert_eq!(WaitCondition::RisingEdge.is_satisfied_immediately(false), false);
    assert_eq!(WaitCondition::FallingEdge.is_satisfied_immediately(true), false);
    assert_eq!(WaitCondition::FallingEdge.is_satisfied_immediately(false), false);
    assert_eq!(WaitCondition::AnyEdge.is_satisfied_immediately(true), false);
    assert_eq!(WaitCondition::AnyEdge.is_satisfied_immediately(false), false);
}

#[test]
fn level_wait_short_circuits_without_registering() {
    let (_h, waker) = counting_waker();
    let mut state = AsyncPortState::new();
    state.seed_state(1 << 3);

    let mut wait = WaitForCondition::new(3, WaitCondition::High);
    let r = wait.poll_step(&mut state, waker.clone());
    assert_eq!(r, Ok(PollStatus::Ready));
    // no waiter was ever inserted: the list length is unchanged
    assert_eq!(state.waiter_count(3), 0);

    // ... and a Low wait on a low pin likewise
    let mut wait_low = WaitForCondition::new(4, WaitCondition::Low);
    let r = wait_low.poll_step(&mut state, waker);
    assert_eq!(r, Ok(PollStatus::Ready));
    assert_eq!(state.waiter_count(4), 0);
}

#[test]
fn edge_wait_never_short_circuits() {
    let (handle, waker) = counting_waker();
    let mut state = AsyncPortState::new();
    // pin 2 is already high
    state.seed_state(1 << 2);

    let mut wait = WaitForCondition::new(2, WaitCondition::RisingEdge);
    assert_eq!(wait.poll_step(&mut state, waker.clone()), Ok(PollStatus::Pending));
    assert_eq!(state.waiter_count(2), 1);

    // a sample with no change wakes nothing
    let mut port = FakePort::new(&[Ok(1 << 2)]);
    state.handle_interrupts(&mut port).unwrap();
    assert_eq!(state.waiter_count(2), 1);
    assert_eq!(handle.count.load(Ordering::SeqCst), 0);

    // a falling transition is not a rising one
    let mut port = FakePort::new(&[Ok(0)]);
    state.handle_interrupts(&mut port).unwrap();
    assert_eq!(state.waiter_count(2), 1);
    assert_eq!(handle.count.load(Ordering::SeqCst), 0);
    assert_eq!(wait.poll_step(&mut state, waker.clone()), Ok(PollStatus::Pending));

    // only an actual low-to-high transition resolves the wait
    let mut port = FakePort::new(&[Ok(1 << 2)]);
    state.handle_interrupts(&mut port).unwrap();
    assert_eq!(state.waiter_count(2), 0);
    assert_eq!(handle.count.load(Ordering::SeqCst), 1);
    assert_eq!(wait.poll_step(&mut state, waker), Ok(PollStatus::Ready));
}

#[test]
fn noop_diff_is_idempotent() {
    let (handle, waker) = counting_waker();
    let mut state = AsyncPortState::new();
    state.seed_state(0b1010);

    let mut w1 = WaitForCondition::new(1, WaitCondition::FallingEdge);
    let mut w2 = WaitForCondition::new(6, WaitCondition::High);
    assert_eq!(w1.poll_step(&mut state, waker.clone()), Ok(PollStatus::Pending));
    assert_eq!(w2.poll_step(&mut state, waker.clone()), Ok(PollStatus::Pending));

    // two passes with no level change wake nobody and change no list
    let mut port = FakePort::new(&[Ok(0b1010), Ok(0b1010)]);
    state.handle_interrupts(&mut port).unwrap();
    state.handle_interrupts(&mut port).unwrap();
    assert_eq!(state.waiter_count(1), 1);
    assert_eq!(state.waiter_count(6), 1);
    assert_eq!(handle.count.load(Ordering::SeqCst), 0);
    assert_eq!(state.last_known_state(), 0b1010);
    assert_eq!(w1.poll_step(&mut state, waker.clone()), Ok(PollStatus::Pending));
    assert_eq!(w2.poll_step(&mut state, waker), Ok(PollStatus::Pending));
}

#[test]
fn cancellation_frees_a_capacity_slot() {
    let (_h, waker) = counting_waker();
    let mut state = AsyncPortState::new();

    let mut waits: Vec<WaitForCondition> = Vec::new();
    for _ in 0..MAX_WAKERS_PER_PIN {
        let mut w = WaitForCondition::new(0, WaitCondition::RisingEdge);
        assert_eq!(w.poll_step(&mut state, waker.clone()), Ok(PollStatus::Pending));
        waits.push(w);
    }
    assert_eq!(state.waiter_count(0), MAX_WAKERS_PER_PIN);

    // the list is full: one more registration is rejected
    let mut extra = WaitForCondition::new(0, WaitCondition::AnyEdge);
    assert_eq!(extra.poll_step(&mut state, waker.clone()), Err(TooManyWaiters));
    assert_eq!(state.waiter_count(0), MAX_WAKERS_PER_PIN);

    // dropping one pending wait frees exactly one slot
    let mut dropped = waits.remove(1);
    dropped.cancel(&mut state);
    assert_eq!(state.waiter_count(0), MAX_WAKERS_PER_PIN - 1);

    assert_eq!(extra.poll_step(&mut state, waker.clone()), Ok(PollStatus::Pending));
    assert_eq!(state.waiter_count(0), MAX_WAKERS_PER_PIN);

    // and now the list is full again
    let mut extra2 = WaitForCondition::new(0, WaitCondition::AnyEdge);
    assert_eq!(extra2.poll_step(&mut state, waker), Err(TooManyWaiters));
}

#[test]
fn rising_edge_on_pin_three_resolves() {
    // pin 3 starts low; a task waits for a rising edge; the interrupt
    // handler observes pin 3 going high; the wait resolves and the
    // last-known state records the new level.
    let (handle, waker) = counting_waker();
    let mut state = AsyncPortState::new();
    state.seed_state(0);

    let mut wait = WaitForCondition::new(3, WaitCondition::RisingEdge);
    assert_eq!(wait.poll_step(&mut state, waker.clone()), Ok(PollStatus::Pending));
    assert_eq!(state.waiter_count(3), 1);

    let mut port = FakePort::new(&[Ok(1 << 3)]);
    state.handle_interrupts(&mut port).unwrap();

    assert_eq!(handle.count.load(Ordering::SeqCst), 1);
    assert_eq!(wait.poll_step(&mut state, waker), Ok(PollStatus::Ready));
    assert_eq!(state.last_known_state() & (1 << 3), 1 << 3);
    assert_eq!(state.waiter_count(3), 0);
}

#[test]
fn only_matching_waiters_resolve() {
    // two tasks wait on the same pin, one for any edge and one for a
    // falling edge; the pin rises: only the any-edge wait resolves.
    let (any_handle, any_waker) = counting_waker();
    let (fall_handle, fall_waker) = counting_waker();
    let mut state = AsyncPortState::new();
    state.seed_state(0);

    let mut any_wait = WaitForCondition::new(5, WaitCondition::AnyEdge);
    let mut fall_wait = WaitForCondition::new(5, WaitCondition::FallingEdge);
    assert_eq!(any_wait.poll_step(&mut state, any_waker.clone()), Ok(PollStatus::Pending));
    assert_eq!(fall_wait.poll_step(&mut state, fall_waker.clone()), Ok(PollStatus::Pending));
    assert_eq!(state.waiter_count(5), 2);

    let mut port = FakePort::new(&[Ok(1 << 5)]);
    state.handle_interrupts(&mut port).unwrap();

    assert_eq!(any_handle.count.load(Ordering::SeqCst), 1);
    assert_eq!(fall_handle.count.load(Ordering::SeqCst), 0);
    assert_eq!(any_wait.poll_step(&mut state, any_waker), Ok(PollStatus::Ready));
    assert_eq!(fall_wait.poll_step(&mut state, fall_waker), Ok(PollStatus::Pending));

    // the falling-edge wait is still the one registration left
    assert_eq!(state.waiter_count(5), 1);
    let (_id, condition) = state.waiter_info(5, 0);
    assert_eq!(condition, WaitCondition::FallingEdge);
}

#[test]
fn wake_pass_preserves_order_of_survivors() {
    let (_h, waker) = counting_waker();
    let mut state = AsyncPortState::new();
    state.seed_state(0);

    // registration order on pin 1: High, RisingEdge, Low, FallingEdge
    let mut w_high = WaitForCondition::new(1, WaitCondition::High);
    let mut w_rise = WaitForCondition::new(1, WaitCondition::RisingEdge);
    let mut w_low = WaitForCondition::new(1, WaitCondition::Low);
    let mut w_fall = WaitForCondition::new(1, WaitCondition::FallingEdge);
    // a Low wait on a low pin would short-circuit, so the pin is briefly
    // seeded high for that one registration
    assert_eq!(w_high.poll_step(&mut state, waker.clone()), Ok(PollStatus::Pending));
    assert_eq!(w_rise.poll_step(&mut state, waker.clone()), Ok(PollStatus::Pending));
    state.seed_state(1 << 1);
    assert_eq!(w_low.poll_step(&mut state, waker.clone()), Ok(PollStatus::Pending));
    state.seed_state(0);
    assert_eq!(w_fall.poll_step(&mut state, waker.clone()), Ok(PollStatus::Pending));
    assert_eq!(state.waiter_count(1), 4);

    // pin 1 rises: High and RisingEdge resolve, in registration order
    let woken = state.apply_new_state(1 << 1);
    assert_eq!(woken.len(), 2);
    assert_eq!(woken[0].condition, WaitCondition::High);
    assert_eq!(woken[1].condition, WaitCondition::RisingEdge);

    // Low and FallingEdge survive, in their original relative order
    assert_eq!(state.waiter_count(1), 2);
    let (id_low, cond_low) = state.waiter_info(1, 0);
    let (id_fall, cond_fall) = state.waiter_info(1, 1);
    assert_eq!(cond_low, WaitCondition::Low);
    assert_eq!(cond_fall, WaitCondition::FallingEdge);
    assert!(id_low < id_fall);
}

#[test]
fn bus_error_leaves_everything_untouched() {
    let (handle, waker) = counting_waker();
    let mut state = AsyncPortState::new();
    state.seed_state(0b1);

    let mut wait = WaitForCondition::new(0, WaitCondition::FallingEdge);
    assert_eq!(wait.poll_step(&mut state, waker.clone()), Ok(PollStatus::Pending));

    let mut port = FakePort::new(&[Err(())]);
    assert_eq!(state.handle_interrupts(&mut port), Err(()));
    // no state was updated and no waiter resolved
    assert_eq!(state.last_known_state(), 0b1);
    assert_eq!(state.waiter_count(0), 1);
    assert_eq!(handle.count.load(Ordering::SeqCst), 0);
    assert_eq!(wait.poll_step(&mut state, waker), Ok(PollStatus::Pending));
}

#[test]
fn sample_and_seed_records_the_sample() {
    let mut state = AsyncPortState::new();
    let mut port = FakePort::new(&[Ok(0xDEAD_BEEF)]);
    state.sample_and_seed(&mut port).unwrap();
    assert_eq!(state.last_known_state(), 0xDEAD_BEEF);
}

#[test]
fn registration_ids_are_fresh() {
    let (_h, waker) = counting_waker();
    let mut state = AsyncPortState::new();

    let mut w1 = WaitForCondition::new(7, WaitCondition::AnyEdge);
    let mut w2 = WaitForCondition::new(7, WaitCondition::AnyEdge);
    assert_eq!(w1.poll_step(&mut state, waker.clone()), Ok(PollStatus::Pending));
    assert_eq!(w2.poll_step(&mut state, waker.clone()), Ok(PollStatus::Pending));
    let (id1, _) = state.waiter_info(7, 0);
    let (id2, _) = state.waiter_info(7, 1);
    assert_ne!(id1, id2);

    // polling again while still registered refreshes the handle in place
    assert_eq!(w1.poll_step(&mut state, waker.clone()), Ok(PollStatus::Pending));
    assert_eq!(state.waiter_count(7), 2);
    let (id1_again, _) = state.waiter_info(7, 0);
    assert_eq!(id1, id1_again);

    // cancelling an already-resolved wait changes nothing
    let mut port = FakePort::new(&[Ok(1 << 7)]);
    state.handle_interrupts(&mut port).unwrap();
    assert_eq!(state.waiter_count(7), 0);
    w1.cancel(&mut state);
    w2.cancel(&mut state);
    assert_eq!(state.waiter_count(7), 0);
}
