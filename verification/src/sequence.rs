use vstd::arithmetic::power2::lemma2_to64;
use vstd::arithmetic::power2::lemma2_to64_rest;
use vstd::arithmetic::power2::lemma_pow2_strictly_increases;
use vstd::arithmetic::power2::lemma_pow2_unfold;
use vstd::arithmetic::power2::pow2;
use vstd::prelude::*;

use crate::time::Time;

verus! {

/// A lazy sequence generator: a piece of state that produces `u64` values one
/// at a time. `gen_next` is the mathematical one-step transition — the state
/// after a production together with the value produced, if any — and `next`
/// is its executable counterpart.
pub trait Generator: Sized {
    /// The state after one production, together with the produced value.
    spec fn gen_next(self) -> (Self, Option<u64>);

    /// Produce the next value, advancing the state exactly as `gen_next` says.
    fn next(&mut self) -> (r: Option<u64>)
        ensures
            (*final(self), r) == (*old(self)).gen_next(),
    ;

    /// An explicit copy: a fresh generator in exactly the same state.
    fn duplicate(&self) -> (r: Self)
        ensures
            r == *self,
    ;
}

/// The state reached after `n` productions.
pub open spec fn state_after<G: Generator>(g: G, n: nat) -> G
    decreases n,
{
    if n == 0 {
        g
    } else {
        state_after(g, (n - 1) as nat).gen_next().0
    }
}

/// The value produced by the `n`th production (counting from zero).
pub open spec fn value_at<G: Generator>(g: G, n: nat) -> Option<u64> {
    state_after(g, n).gen_next().1
}

/// The doubling sequence 1, 2, 4, 8, ...: the current value doubles on each
/// production, and freezes instead of overflowing — starting from one it
/// reaches the ceiling `2^62` on the 62nd production and every later
/// production yields that ceiling again, forever. Saturation, not
/// wraparound, not termination.
pub struct Exponential {
    pub current: u64,
}

/// Returns the exponential generator, i.e. one that yields 1, 2, 4, 8, ...
/// and saturates at `2^62`.
pub fn exponential() -> (r: Exponential)
    ensures
        r == (Exponential { current: 1u64 }),
{
    Exponential { current: 1 }
}

impl Generator for Exponential {
    open spec fn gen_next(self) -> (Self, Option<u64>) {
        if self.current < 0x4000_0000_0000_0000u64 {
            (Exponential { current: (2 * self.current) as u64 }, Some(self.current))
        } else {
            (self, Some(self.current))
        }
    }

    fn next(&mut self) -> (r: Option<u64>) {
        if self.current < 0x4000_0000_0000_0000u64 {
            let v: u64 = self.current;
            self.current = 2 * self.current;
            Some(v)
        } else {
            Some(self.current)
        }
    }

    fn duplicate(&self) -> (r: Self) {
        Exponential { current: self.current }
    }
}

/// Wraps a generator; while the wrapped generator still produces, its values
/// pass through unchanged, and once it is exhausted the last value produced
/// is repeated indefinitely.
pub struct Saturating<I> {
    pub inner: I,
    pub last: Option<u64>,
}

impl<I: Generator> Saturating<I> {
    pub fn new(inner: I) -> (r: Self)
        ensures
            r == (Saturating { inner, last: None::<u64> }),
    {
        Saturating { inner, last: None }
    }
}

impl<I: Generator> Generator for Saturating<I> {
    open spec fn gen_next(self) -> (Self, Option<u64>) {
        let (i2, v) = self.inner.gen_next();
        match v {
            Some(x) => (Saturating { inner: i2, last: Some(x) }, Some(x)),
            None => (Saturating { inner: i2, last: self.last }, self.last),
        }
    }

    fn next(&mut self) -> (r: Option<u64>) {
        match self.inner.next() {
            Some(x) => {
                self.last = Some(x);
                Some(x)
            },
            None => self.last,
        }
    }

    fn duplicate(&self) -> (r: Self) {
        Saturating { inner: self.inner.duplicate(), last: self.last }
    }
}

/// Saturate any generator: repeat its last value once it is exhausted.
pub trait SaturatingExt: Generator {
    fn saturating(self) -> (r: Saturating<Self>)
        ensures
            r == (Saturating { inner: self, last: None::<u64> }),
    {
        Saturating::new(self)
    }
}

impl<I: Generator> SaturatingExt for I {

}

/// Yields one fixed leading value, then delegates to the wrapped generator.
pub struct Prefixed<I> {
    pub first: Option<u64>,
    pub inner: I,
}

impl<I: Generator> Prefixed<I> {
    pub fn new(first: u64, inner: I) -> (r: Self)
        ensures
            r == (Prefixed { first: Some(first), inner }),
    {
        Prefixed { first: Some(first), inner }
    }
}

impl<I: Generator> Generator for Prefixed<I> {
    open spec fn gen_next(self) -> (Self, Option<u64>) {
        match self.first {
            Some(v) => (Prefixed { first: None::<u64>, inner: self.inner }, Some(v)),
            None => {
                let (i2, v) = self.inner.gen_next();
                (Prefixed { first: None::<u64>, inner: i2 }, v)
            },
        }
    }

    fn next(&mut self) -> (r: Option<u64>) {
        match self.first {
            Some(v) => {
                self.first = None;
                Some(v)
            },
            None => self.inner.next(),
        }
    }

    fn duplicate(&self) -> (r: Self) {
        Prefixed { first: self.first, inner: self.inner.duplicate() }
    }
}

/// Counts upward from `current`, one per production, and stops producing
/// for good once it reaches `end`.
pub struct Bounded {
    pub current: u64,
    pub end: u64,
}

impl Bounded {
    pub fn new(start: u64, end: u64) -> (r: Self)
        ensures
            r == (Bounded { current: start, end }),
    {
        Bounded { current: start, end }
    }
}

impl Generator for Bounded {
    open spec fn gen_next(self) -> (Self, Option<u64>) {
        if self.current < self.end {
            (Bounded { current: (self.current + 1) as u64, end: self.end }, Some(self.current))
        } else {
            (self, None)
        }
    }

    fn next(&mut self) -> (r: Option<u64>) {
        if self.current < self.end {
            let v: u64 = self.current;
            self.current = self.current + 1;
            Some(v)
        } else {
            None
        }
    }

    fn duplicate(&self) -> (r: Self) {
        Bounded { current: self.current, end: self.end }
    }
}

/// Wraps a generator together with a clock: if too much time has elapsed
/// since the previous production (the stored deadline has passed), the
/// wrapped generator's progress is discarded and it restarts from a pristine
/// copy of its initial state. Every production extends the deadline to the
/// current time plus the reset delay (saturating, so it never panics).
pub struct Reset<I, T> {
    pub inner: I,
    pub initial_inner: I,
    pub time: T,
    pub reset_delay: u64,
    pub reset_at: u64,
}

impl<I: Generator, T: Time> Reset<I, T> {
    /// What one production at clock reading `timestamp` does: restart from
    /// the pristine copy if the deadline has passed, advance, and extend the
    /// deadline.
    pub open spec fn step_spec(self, timestamp: u64) -> (Self, Option<u64>) {
        let base = if timestamp >= self.reset_at {
            self.initial_inner
        } else {
            self.inner
        };
        let (i2, v) = base.gen_next();
        (
            Reset {
                inner: i2,
                initial_inner: self.initial_inner,
                time: self.time,
                reset_delay: self.reset_delay,
                reset_at: timestamp.saturating_add(self.reset_delay),
            },
            v,
        )
    }

    pub fn new(inner: I, time: T, reset_delay: u64) -> (r: Self)
        ensures
            r.inner == inner,
            r.initial_inner == inner,
            r.time == time,
            r.reset_delay == reset_delay,
            exists|ts: u64| r.reset_at == ts.saturating_add(reset_delay),
    {
        let initial_inner = inner.duplicate();
        let ts: u64 = time.timestamp();
        let reset_at: u64 = ts.saturating_add(reset_delay);
        proof {
            assert(reset_at == ts.saturating_add(reset_delay));
        }
        Reset { inner, initial_inner, time, reset_delay, reset_at }
    }

    /// One production, with the clock reading supplied by the caller.
    pub fn step_at(&mut self, timestamp: u64) -> (r: Option<u64>)
        ensures
            (*final(self), r) == (*old(self)).step_spec(timestamp),
    {
        if timestamp >= self.reset_at {
            self.inner = self.initial_inner.duplicate();
        }
        self.reset_at = timestamp.saturating_add(self.reset_delay);
        self.inner.next()
    }

    /// One production at the wrapped clock's current reading.
    pub fn next(&mut self) -> (r: Option<u64>)
        ensures
            exists|ts: u64| (*final(self), r) == (*old(self)).step_spec(ts),
    {
        let ghost pre: Self = *self;
        let ts: u64 = self.time.timestamp();
        let r = self.step_at(ts);
        proof {
            assert((*self, r) == pre.step_spec(ts));
        }
        r
    }
}

/// Restart any generator from scratch when productions are too far apart.
pub trait ResetExt: Generator {
    fn reset_after<T: Time>(self, time: T, reset_delay: u64) -> (r: Reset<Self, T>)
        ensures
            r.inner == self,
            r.initial_inner == self,
            r.time == time,
            r.reset_delay == reset_delay,
    {
        Reset::new(self, time, reset_delay)
    }
}

impl<I: Generator> ResetExt for I {

}

pub type ZeroThenExponentialWithReset = Reset<Saturating<Prefixed<Exponential>>, crate::time::Real>;

pub type ExponentialWithReset = Reset<Saturating<Exponential>, crate::time::Real>;

/// The pristine state of the zero-then-exponential backoff sequence.
pub open spec fn zero_then_exponential_start() -> Saturating<Prefixed<Exponential>> {
    Saturating {
        inner: Prefixed { first: Some(0u64), inner: Exponential { current: 1u64 } },
        last: None::<u64>,
    }
}

/// The pristine state of the exponential backoff sequence.
pub open spec fn exponential_start() -> Saturating<Exponential> {
    Saturating { inner: Exponential { current: 1u64 }, last: None::<u64> }
}

/// Returns a generator whose first value is 0 and whose following values are
/// exponential: 0, 1, 2, 4, 8, ... It saturates instead of overflowing, and
/// restarts from 0 once productions are more than `reset_delay` apart.
pub fn zero_then_exponential_with_reset(reset_delay: u64) -> (r: ZeroThenExponentialWithReset)
    ensures
        r.inner == zero_then_exponential_start(),
        r.initial_inner == zero_then_exponential_start(),
        r.reset_delay == reset_delay,
{
    zero_then_exponential_with_reset_inner(crate::time::Real, reset_delay)
}

/// As `zero_then_exponential_with_reset`, against a caller-supplied clock.
pub fn zero_then_exponential_with_reset_inner<T: Time>(time: T, reset_delay: u64) -> (r: Reset<
    Saturating<Prefixed<Exponential>>,
    T,
>)
    ensures
        r.inner == zero_then_exponential_start(),
        r.initial_inner == zero_then_exponential_start(),
        r.time == time,
        r.reset_delay == reset_delay,
{
    Prefixed::new(0, exponential()).saturating().reset_after(time, reset_delay)
}

/// Returns a generator whose values are exponential: 1, 2, 4, 8, ... It
/// saturates instead of overflowing, and restarts from 1 once productions
/// are more than `reset_delay` apart.
pub fn exponential_with_reset(reset_delay: u64) -> (r: ExponentialWithReset)
    ensures
        r.inner == exponential_start(),
        r.initial_inner == exponential_start(),
        r.reset_delay == reset_delay,
{
    exponential_with_reset_inner(crate::time::Real, reset_delay)
}

/// As `exponential_with_reset`, against a caller-supplied clock.
pub fn exponential_with_reset_inner<T: Time>(time: T, reset_delay: u64) -> (r: Reset<
    Saturating<Exponential>,
    T,
>)
    ensures
        r.inner == exponential_start(),
        r.initial_inner == exponential_start(),
        r.time == time,
        r.reset_delay == reset_delay,
{
    exponential().saturating().reset_after(time, reset_delay)
}

/// After `n` productions the exponential generator holds `2^min(n, 62)`,
/// and its `n`th production is that same power of two: `2^n` up to the
/// 62nd production, the ceiling `2^62` on every later one.
pub proof fn lemma_exponential_nth(n: nat)
    ensures
        state_after(Exponential { current: 1u64 }, n) == (Exponential {
            current: pow2(if n <= 62 { n } else { 62 }) as u64,
        }),
        value_at(Exponential { current: 1u64 }, n) == Some(
            pow2(if n <= 62 { n } else { 62 }) as u64,
        ),
        pow2(if n <= 62 { n } else { 62 }) <= u64::MAX,
    decreases n,
{
    lemma2_to64();
    lemma2_to64_rest();
    let g = Exponential { current: 1u64 };
    if n == 0 {
    } else {
        lemma_exponential_nth((n - 1) as nat);
        let m: nat = if n - 1 <= 62 { (n - 1) as nat } else { 62 };
        if m < 62 {
            lemma_pow2_strictly_increases(m, 62);
        }
        if (n - 1) as nat <= 61 {
            lemma_pow2_unfold(n);
        }
        assert(state_after(g, n) == state_after(g, (n - 1) as nat).gen_next().0);
    }
    let k: nat = if n <= 62 { n } else { 62 };
    if k < 62 {
        lemma_pow2_strictly_increases(k, 62);
    }
}

/// The saturating wrapper advances the wrapped generator by exactly one step
/// per production, whether or not the wrapped generator still produces.
pub proof fn lemma_saturating_tracks_inner<I: Generator>(s: Saturating<I>, n: nat)
    ensures
        state_after(s, n).inner == state_after(s.inner, n),
    decreases n,
{
    if n > 0 {
        lemma_saturating_tracks_inner(s, (n - 1) as nat);
    }
}

/// While the wrapped generator still produces, the saturating wrapper passes
/// its values through unchanged and in order.
pub proof fn lemma_saturating_passes_through<I: Generator>(s: Saturating<I>, n: nat, v: u64)
    requires
        value_at(s.inner, n) == Some(v),
    ensures
        value_at(s, n) == Some(v),
{
    lemma_saturating_tracks_inner(s, n);
}

/// A generator stuck in a non-producing state stays there.
pub proof fn lemma_exhausted_stays<I: Generator>(g: I, k: nat, n: nat)
    requires
        state_after(g, k).gen_next() == (state_after(g, k), None::<u64>),
        n >= k,
    ensures
        state_after(g, n) == state_after(g, k),
    decreases n,
{
    if n > k {
        lemma_exhausted_stays(g, k, (n - 1) as nat);
    }
}

proof fn lemma_saturating_repeat_inv<I: Generator>(s: Saturating<I>, k: nat, v: u64, n: nat)
    requires
        value_at(s.inner, k) == Some(v),
        state_after(s.inner, k + 1).gen_next() == (state_after(s.inner, k + 1), None::<u64>),
        n >= k + 1,
    ensures
        state_after(s, n).last == Some(v),
        state_after(s, n).inner == state_after(s.inner, k + 1),
    decreases n,
{
    lemma_saturating_tracks_inner(s, n);
    if n == k + 1 {
        lemma_saturating_tracks_inner(s, k);
        assert(state_after(s, n) == state_after(s, k).gen_next().0);
    } else {
        lemma_saturating_repeat_inv(s, k, v, (n - 1) as nat);
        lemma_exhausted_stays(s.inner, k + 1, (n - 1) as nat);
        assert(state_after(s, n) == state_after(s, (n - 1) as nat).gen_next().0);
    }
}

/// Once the wrapped generator has produced its last value (the `k`th, after
/// which it is exhausted for good), the saturating wrapper repeats that value
/// on every later production, indefinitely.
pub proof fn lemma_saturating_repeats<I: Generator>(s: Saturating<I>, k: nat, v: u64, n: nat)
    requires
        value_at(s.inner, k) == Some(v),
        state_after(s.inner, k + 1).gen_next() == (state_after(s.inner, k + 1), None::<u64>),
        n > k,
    ensures
        value_at(s, n) == Some(v),
{
    lemma_saturating_repeat_inv(s, k, v, n);
}

/// The exponential sequence's `n`th value is `2^n` for `n < 63`, and every
/// later value is the saturation ceiling `2^62` — no panic, no wraparound,
/// no termination.
pub proof fn lemma_exponential_saturates(n: nat)
    ensures
        n < 63 ==> value_at(Exponential { current: 1u64 }, n) == Some(pow2(n) as u64),
        n >= 63 ==> value_at(Exponential { current: 1u64 }, n) == Some(pow2(62) as u64),
        pow2(if n < 63 { n } else { 62 }) <= u64::MAX,
{
    lemma_exponential_nth(n);
}

/// The canonical saturated composition yields the very same values: the
/// exponential generator never exhausts, so its saturating wrapper passes
/// every value through unchanged.
pub proof fn lemma_saturated_exponential_same(n: nat)
    ensures
        value_at(exponential_start(), n) == value_at(Exponential { current: 1u64 }, n),
{
    lemma_exponential_nth(n);
    let v: u64 = pow2(if n <= 62 { n } else { 62 }) as u64;
    lemma_saturating_passes_through(exponential_start(), n, v);
}

/// If a production happens at or after the deadline stored by the previous
/// production (that is, at least `reset_delay` after it), the value produced
/// is the wrapped sequence's very first value, not a continuation.
pub proof fn lemma_reset_restarts<I: Generator, T: Time>(s: Reset<I, T>, ts1: u64, ts2: u64)
    requires
        ts2 >= ts1.saturating_add(s.reset_delay),
    ensures
        (s.step_spec(ts1).0).step_spec(ts2).1 == s.initial_inner.gen_next().1,
        (s.step_spec(ts1).0).step_spec(ts2).0.inner == s.initial_inner.gen_next().0,
{
}

} // verus!
