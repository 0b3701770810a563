use vstd::prelude::*;

verus! {

/// The successor of `v` in 32-bit signed arithmetic: one more than `v`,
/// wrapping from `i32::MAX` around to `i32::MIN`.
pub open spec fn wrapping_inc(v: int) -> int {
    if v == i32::MAX { i32::MIN as int } else { v + 1 }
}

/// The value a counter that started at `start` holds after `n` completed
/// ticks, each tick one wrapping increment.
pub open spec fn value_after_ticks(start: int, n: nat) -> int
    decreases n,
{
    if n == 0 {
        start
    } else {
        wrapping_inc(value_after_ticks(start, (n - 1) as nat))
    }
}

/// A scalar counter incremented by the background ticker and read on demand
/// by the data-source adapter. The read path never mutates it; overflow
/// wraps rather than failing.
pub struct SharedCounter {
    value: i32,
}

impl SharedCounter {
    /// The stored value, as a mathematical integer.
    pub closed spec fn value(self) -> int {
        self.value as int
    }

    /// A fresh counter holding zero.
    pub fn new() -> (c: SharedCounter)
        ensures
            c.value() == 0,
    {
        SharedCounter { value: 0 }
    }

    /// A counter holding `v`, for restoring a value published elsewhere.
    pub fn with_value(v: i32) -> (c: SharedCounter)
        ensures
            c.value() == v as int,
    {
        SharedCounter { value: v }
    }

    /// Adds one to the stored value, wrapping on overflow. Called only by
    /// the ticker; cannot fail.
    pub fn increment(&mut self)
        ensures
            final(self).value() == wrapping_inc(old(self).value()),
    {
        if self.value == i32::MAX {
            self.value = i32::MIN;
        } else {
            self.value = self.value + 1;
        }
    }

    /// Returns the current value. No precondition and no failure mode: a
    /// read is always answered.
    pub fn read(&self) -> (v: i32)
        ensures
            v as int == self.value(),
    {
        self.value
    }
}

/// With no overflow in reach, ticking is exact counting: after `n` completed
/// ticks the counter holds its starting value plus `n`.
pub proof fn lemma_ticks_exact(start: int, n: nat)
    requires
        i32::MIN <= start,
        start + n <= i32::MAX,
    ensures
        value_after_ticks(start, n) == start + n,
    decreases n,
{
    if n > 0 {
        lemma_ticks_exact(start, (n - 1) as nat);
    }
}

/// With no overflow in reach, the counter is non-decreasing over time: a
/// value observed after `m` ticks never exceeds one observed after `n >= m`
/// ticks, so no read goes backward relative to the tick sequence.
pub proof fn lemma_ticks_monotonic(start: int, m: nat, n: nat)
    requires
        i32::MIN <= start,
        m <= n,
        start + n <= i32::MAX,
    ensures
        value_after_ticks(start, m) <= value_after_ticks(start, n),
{
    lemma_ticks_exact(start, m);
    lemma_ticks_exact(start, n);
}

} // verus!
