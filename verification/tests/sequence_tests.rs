use std::cell::Cell;
use std::rc::Rc;

use duplex_ext::sequence::Bounded;
use duplex_ext::sequence::Generator;
use duplex_ext::sequence::ResetExt;
use duplex_ext::sequence::SaturatingExt;
use duplex_ext::sequence::exponential;
use duplex_ext::sequence::exponential_with_reset_inner;
use duplex_ext::sequence::zero_then_exponential_with_reset_inner;
use duplex_ext::time::Time;

#[derive(Clone)]
struct MockTime {
    value: Rc<Cell<u64>>,
}

impl Time for MockTime {
    fn timestamp(&self) -> u64 {
        self.value.get()
    }
}

fn mock_time() -> (MockTime, Rc<Cell<u64>>) {
    let value = Rc::new(Cell::new(0u64));
    (MockTime { value: value.clone() }, value)
}

#[test]
fn next_doubles_every_iteration() {
    let mut iter = exponential();
    assert_eq!(iter.next(), Some(1));
    assert_eq!(iter.next(), Some(2));
    assert_eq!(iter.next(), Some(4));
    assert_eq!(iter.next(), Some(8));
}

#[test]
fn next_stops_on_overflow() {
    let mut iter = exponential();
    // Iterate until the last doubling.
    for _ in 0..62 {
        iter.next();
    }
    // 2^62, the saturation ceiling.
    assert_eq!(iter.next(), Some(4_611_686_018_427_387_904));
    // Doubling further would overflow, so the sequence freezes and every
    // later call yields the ceiling again.
    assert_eq!(iter.next(), Some(4_611_686_018_427_387_904));
    assert_eq!(iter.next(), Some(4_611_686_018_427_387_904));
}

#[test]
fn test_zero_then_exponential_with_reset() {
    let (time, value) = mock_time();
    let reset_delay = 2u64;
    let mut iter = zero_then_exponential_with_reset_inner(time, reset_delay);

    assert_eq!(iter.next(), Some(0));
    // Should reset because delay was 2. Sets the deadline to 4.
    value.set(2);
    assert_eq!(iter.next(), Some(0));
    assert_eq!(iter.next(), Some(1));
    // Should push the deadline to 5.
    value.set(3);
    assert_eq!(iter.next(), Some(2));
    // Should not reset yet. Pushes the deadline to 6.
    value.set(4);
    assert_eq!(iter.next(), Some(4));
    // Should reset.
    value.set(6);
    assert_eq!(iter.next(), Some(0));
}

#[test]
fn test_exponential_with_reset() {
    let (time, value) = mock_time();
    let reset_delay = 2u64;
    let mut iter = exponential_with_reset_inner(time, reset_delay);

    assert_eq!(iter.next(), Some(1));
    // Should reset because delay was 2. Sets the deadline to 4.
    value.set(2);
    assert_eq!(iter.next(), Some(1));
    assert_eq!(iter.next(), Some(2));
    // Should push the deadline to 5.
    value.set(3);
    assert_eq!(iter.next(), Some(4));
    // Should not reset yet. Pushes the deadline to 6.
    value.set(4);
    assert_eq!(iter.next(), Some(8));
    // Should reset.
    value.set(6);
    assert_eq!(iter.next(), Some(1));
}

#[test]
fn next_resets() {
    let (time, value) = mock_time();
    let reset_delay = 2u64;
    let mut iter = Bounded::new(0, i32::MAX as u64).reset_after(time, reset_delay);

    assert_eq!(iter.next(), Some(0));
    // Should reset because delay was 2. Sets the deadline to 4.
    value.set(2);
    assert_eq!(iter.next(), Some(0));
    assert_eq!(iter.next(), Some(1));
    // Should push the deadline to 5.
    value.set(3);
    assert_eq!(iter.next(), Some(2));
    // Should not reset yet. Pushes the deadline to 6.
    value.set(4);
    assert_eq!(iter.next(), Some(3));
    // Should reset.
    value.set(6);
    assert_eq!(iter.next(), Some(0));
}

#[test]
fn next_saturates() {
    let mut iter = Bounded::new(0, 3).saturating();

    assert_eq!(iter.next(), Some(0));
    assert_eq!(iter.next(), Some(1));
    assert_eq!(iter.next(), Some(2));
    assert_eq!(iter.next(), Some(2));
}

#[test]
fn saturated_exponential_reaches_ceiling() {
    let mut iter = exponential().saturating();
    for n in 0..63u32 {
        assert_eq!(iter.next(), Some(1u64 << n));
    }
    // The 63rd and all subsequent values are the saturation ceiling 2^62.
    assert_eq!(iter.next(), Some(1u64 << 62));
    assert_eq!(iter.next(), Some(1u64 << 62));
    assert_eq!(iter.next(), Some(1u64 << 62));
}

#[test]
fn reset_step_at_deadline_restarts() {
    let (time, _value) = mock_time();
    // Deadline starts at 0 + 3 = 3.
    let mut iter = Bounded::new(10, 20).reset_after(time, 3);
    assert_eq!(iter.step_at(0), Some(10));
    assert_eq!(iter.step_at(1), Some(11));
    // Deadline is now 1 + 3 = 4; producing at 4 restarts from the first value.
    assert_eq!(iter.step_at(4), Some(10));
}

#[test]
fn saturating_repeats_forever() {
    let mut iter = Bounded::new(5, 7).saturating();
    assert_eq!(iter.next(), Some(5));
    assert_eq!(iter.next(), Some(6));
    for _ in 0..100 {
        assert_eq!(iter.next(), Some(6));
    }
}
