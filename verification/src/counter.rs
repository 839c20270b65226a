//! Click counters and the progress bars that display them.

use vstd::prelude::*;

verus! {

/// The maximum of a progress bar that is given none.
pub const DEFAULT_MAX: u32 = 50;

/// The value a counter owned by a parent component starts from.
pub const PARENT_START: u32 = 10;

/// A count of clicks.
#[derive(Clone, Copy, Debug, PartialEq, Eq, Structural)]
pub struct Counter {
    count: u32,
}

impl View for Counter {
    type V = nat;

    closed spec fn view(&self) -> nat {
        self.count as nat
    }
}

/// The count after `clicks` further clicks on a counter that shows `start`.
pub open spec fn after_clicks(start: nat, clicks: nat) -> nat
    decreases clicks,
{
    if clicks == 0 {
        start
    } else {
        after_clicks(start, (clicks - 1) as nat) + 1
    }
}

impl Counter {
    /// A counter that shows zero.
    pub fn new() -> (counter: Counter)
        ensures
            counter@ == 0,
    {
        Counter { count: 0 }
    }

    /// A counter that shows `start`.
    pub fn starting_at(start: u32) -> (counter: Counter)
        ensures
            counter@ == start,
    {
        Counter { count: start }
    }

    /// The count shown.
    pub fn value(&self) -> (count: u32)
        ensures
            count == self@,
    {
        self.count
    }

    /// One click: the count goes up by one.
    pub fn increment(&mut self)
        requires
            old(self)@ < u32::MAX,
        ensures
            final(self)@ == old(self)@ + 1,
            final(self)@ == after_clicks(old(self)@, 1),
    {
        reveal_with_fuel(after_clicks, 2);
        self.count = self.count + 1;
    }

    /// Whether the count is even, which is when its button is marked red.
    pub fn is_even(&self) -> (even: bool)
        ensures
            even == (self@ % 2 == 0),
    {
        self.count % 2 == 0
    }

    /// Twice the count, the value of the derived progress bar.
    pub fn doubled(&self) -> (twice: u32)
        requires
            2 * self@ <= u32::MAX,
        ensures
            twice == 2 * self@,
    {
        self.count * 2
    }
}

/// What a progress bar is drawn from: a value against a maximum.
#[derive(Clone, Copy, Debug, PartialEq, Eq, Structural)]
pub struct Progress {
    pub max: u32,
    pub value: u32,
}

impl Progress {
    /// A bar for `value` against the default maximum.
    pub fn new(value: u32) -> (bar: Progress)
        ensures
            bar == (Progress { max: DEFAULT_MAX, value }),
    {
        Progress { max: DEFAULT_MAX, value }
    }

    /// A bar for `value` against `max`.
    pub fn with_max(max: u32, value: u32) -> (bar: Progress)
        ensures
            bar == (Progress { max, value }),
    {
        Progress { max, value }
    }

    /// How much of the bar is filled: the value, and no more than the maximum.
    pub fn filled(&self) -> (filled: u32)
        ensures
            filled == if self.value <= self.max {
                self.value
            } else {
                self.max
            },
    {
        if self.value <= self.max {
            self.value
        } else {
            self.max
        }
    }
}

/// Clicking a counter `clicks` times raises what it shows by `clicks`: a
/// counter that starts at zero shows the number of clicks.
pub proof fn clicks_are_counted(start: nat, clicks: nat)
    ensures
        after_clicks(start, clicks) == start + clicks,
        after_clicks(0, clicks) == clicks,
    decreases clicks,
{
    if clicks > 0 {
        clicks_are_counted(start, (clicks - 1) as nat);
        clicks_are_counted(0, (clicks - 1) as nat);
    }
}

} // verus!
