//! The LED roulette pattern as a pure state machine: at each step the
//! current LED goes dark while the next few stay lit ahead of it, and the
//! cursor moves one position clockwise. The caller performs the LED
//! switching and the blocking delays; this module only decides.

use vstd::prelude::*;

use crate::regmap::LED_COUNT;

verus! {

/// How many LEDs stay lit ahead of the cursor.
pub const NUM_AHEAD: usize = 4;

/// The roulette cursor and its timing. The half period is read back
/// through a volatile access, as a register-backed value would be, so the
/// read can never be elided or folded away.
pub struct Roulette {
    index: usize,
    half_period: u16,
}

/// Relies on volatile::Volatile::new and Volatile::read: the read performs
/// core::ptr::read_volatile on the wrapped reference and returns a copy of
/// the referenced value.
#[verifier::external_body]
fn read_u16_volatile(value: &u16) -> (r: u16)
    ensures
        r == *value,
{
    volatile::Volatile::new(value).read()
}

impl Roulette {
    /// The position of the cursor, clockwise from north.
    pub closed spec fn index_spec(&self) -> usize {
        self.index
    }

    /// The delay between switching steps, in milliseconds.
    pub closed spec fn half_period_spec(&self) -> u16 {
        self.half_period
    }

    /// The cursor points at one of the compass LEDs.
    pub open spec fn wf(&self) -> bool {
        self.index_spec() < LED_COUNT
    }

    /// A roulette starting at the north LED with the given delay between
    /// switching steps.
    pub fn new(half_period: u16) -> (r: Self)
        ensures
            r.wf(),
            r.index_spec() == 0,
            r.half_period_spec() == half_period,
    {
        Roulette { index: 0, half_period }
    }

    /// The LED the cursor points at: the one to switch off this step.
    pub fn current_led(&self) -> (i: usize)
        ensures
            i == self.index_spec(),
    {
        self.index
    }

    /// The delay to block for between switching steps, read volatilely.
    pub fn period_ms(&self) -> (r: u16)
        ensures
            r == self.half_period_spec(),
    {
        read_u16_volatile(&self.half_period)
    }

    /// The LEDs to switch on this step: the next `NUM_AHEAD` positions
    /// clockwise of the cursor, nearest first, wrapping past northwest.
    pub fn leds_to_light(&self) -> (v: Vec<usize>)
        requires
            self.wf(),
        ensures
            v@.len() == NUM_AHEAD,
            forall|k: int|
                0 <= k < NUM_AHEAD ==> v@[k] == (self.index_spec() + k + 1) % (LED_COUNT as int),
    {
        let mut v: Vec<usize> = Vec::new();
        let mut n: usize = 1;
        while n <= NUM_AHEAD
            invariant
                self.wf(),
                1 <= n <= NUM_AHEAD + 1,
                v@.len() == n - 1,
                forall|k: int|
                    0 <= k < n - 1 ==> v@[k] == (self.index_spec() + k + 1) % (LED_COUNT as int),
            decreases NUM_AHEAD + 1 - n,
        {
            let next: usize = (self.index + n) % LED_COUNT;
            v.push(next);
            n = n + 1;
        }
        v
    }

    /// Moves the cursor one position clockwise, wrapping past northwest.
    pub fn advance(&mut self)
        requires
            old(self).wf(),
        ensures
            final(self).wf(),
            final(self).index_spec() == (old(self).index_spec() + 1) % (LED_COUNT as int),
            final(self).half_period_spec() == old(self).half_period_spec(),
    {
        self.index = (self.index + 1) % LED_COUNT;
    }
}

} // verus!
