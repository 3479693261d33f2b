use vstd::prelude::*;

verus! {

/// The countdown after which a wandering fish picks a new target, in
/// microseconds.
pub struct WanderTimer {
    remaining_us: i64,
}

/// `x - y`, held at `i64::MIN` from below.
pub open spec fn count_down(x: int, y: int) -> int {
    if x - y < i64::MIN {
        i64::MIN as int
    } else {
        x - y
    }
}

impl WanderTimer {
    pub closed spec fn view(&self) -> int {
        self.remaining_us as int
    }

    /// A timer that has already run out, so that the first frame picks a
    /// target.
    pub fn new() -> (r: WanderTimer)
        ensures
            r@ == 0,
    {
        WanderTimer { remaining_us: 0 }
    }

    pub fn remaining_us(&self) -> (r: i64)
        ensures
            r == self@,
    {
        self.remaining_us
    }

    /// One frame of `elapsed_us` passes. The timer counts down; the fish is
    /// to pick a new target when it has come near its target or the timer
    /// has run out, and the timer then starts again from `next_interval_us`.
    /// Returns whether a new target is to be picked.
    pub fn advance(&mut self, elapsed_us: i64, near_target: bool, next_interval_us: i64) -> (r: bool)
        requires
            elapsed_us >= 0,
        ensures
            r == (near_target || count_down(old(self)@, elapsed_us as int) <= 0),
            final(self)@ == if r {
                next_interval_us as int
            } else {
                count_down(old(self)@, elapsed_us as int)
            },
    {
        let left: i64 = if self.remaining_us < i64::MIN + elapsed_us {
            i64::MIN
        } else {
            self.remaining_us - elapsed_us
        };
        if near_target || left <= 0 {
            self.remaining_us = next_interval_us;
            true
        } else {
            self.remaining_us = left;
            false
        }
    }
}

} // verus!
