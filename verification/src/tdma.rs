//! TDMA time on the TETRA air interface.
//!
//! A point in time is a timeslot `t` (1..=4) of a frame `f` (1..=18) of a
//! multiframe `m` (1..=60) of a hyperframe `h` (0..=65535). The whole cycle
//! holds `TDMA_CYCLE_TIMESLOTS` timeslots and then wraps around.

use vstd::prelude::*;

verus! {

/// Timeslots in one TDMA frame.
pub const TIMESLOTS_PER_FRAME: i32 = 4;

/// Frames in one multiframe.
pub const FRAMES_PER_MULTIFRAME: i32 = 18;

/// Multiframes in one hyperframe.
pub const MULTIFRAMES_PER_HYPERFRAME: i32 = 60;

/// Timeslots in one multiframe.
pub const TIMESLOTS_PER_MULTIFRAME: i32 = 72;

/// Timeslots in one hyperframe.
pub const TIMESLOTS_PER_HYPERFRAME: i32 = 4320;

/// Timeslots in the complete cycle of 65536 hyperframes.
pub const TDMA_CYCLE_TIMESLOTS: i32 = 283115520;

/// One point of TDMA time.
#[derive(Clone, Copy, Debug, PartialEq, Eq, Structural)]
pub struct TdmaTime {
    /// Hyperframe number.
    pub h: u16,
    /// Multiframe number, 1..=60.
    pub m: u8,
    /// Frame number, 1..=18.
    pub f: u8,
    /// Timeslot number, 1..=4.
    pub t: u8,
}

impl Default for TdmaTime {
    /// The first timeslot of the cycle.
    fn default() -> (r: TdmaTime)
        ensures
            r == (TdmaTime { h: 0, m: 1, f: 1, t: 1 }),
    {
        TdmaTime { h: 0, m: 1, f: 1, t: 1 }
    }
}

/// Number of timeslots in `n` frames.
pub open spec fn frames(n: int) -> int {
    n * 4
}

/// Number of timeslots in `n` multiframes.
pub open spec fn multiframes(n: int) -> int {
    n * 72
}

/// The point of the cycle at timeslot offset `i` (taken modulo the cycle).
pub open spec fn tdma_from_index(i: int) -> TdmaTime {
    let j = i % (TDMA_CYCLE_TIMESLOTS as int);
    TdmaTime {
        h: (j / 4320) as u16,
        m: ((j / 72) % 60 + 1) as u8,
        f: ((j / 4) % 18 + 1) as u8,
        t: (j % 4 + 1) as u8,
    }
}

impl TdmaTime {
    /// All four counters are in their ranges.
    pub open spec fn is_valid(self) -> bool {
        &&& 1 <= self.t <= 4
        &&& 1 <= self.f <= 18
        &&& 1 <= self.m <= 60
    }

    /// Offset of this time, in timeslots, from the start of the cycle.
    pub open spec fn index(self) -> int {
        ((self.h as int * 60 + (self.m as int - 1)) * 18 + (self.f as int - 1)) * 4 + (self.t as int - 1)
    }

    /// Timeslots elapsed from `self` until `now`, counted forward around the cycle.
    pub open spec fn age_spec(self, now: TdmaTime) -> int {
        (now.index() - self.index()) % (TDMA_CYCLE_TIMESLOTS as int)
    }

    /// The first timeslot of the cycle.
    pub fn start() -> (r: TdmaTime)
        ensures
            r == (TdmaTime { h: 0, m: 1, f: 1, t: 1 }),
            r.is_valid(),
            r.index() == 0,
    {
        TdmaTime { h: 0, m: 1, f: 1, t: 1 }
    }

    fn index_exec(&self) -> (r: i64)
        ensures
            r == self.index(),
    {
        ((self.h as i64 * 60 + (self.m as i64 - 1)) * 18 + (self.f as i64 - 1)) * 4 + (self.t as i64 - 1)
    }

    /// Timeslots elapsed from `self` until `now`, counted forward around the
    /// cycle: always in `0..TDMA_CYCLE_TIMESLOTS`.
    pub fn age(&self, now: TdmaTime) -> (r: i32)
        ensures
            r == self.age_spec(now),
            0 <= r < TDMA_CYCLE_TIMESLOTS,
    {
        let d = now.index_exec() - self.index_exec();
        let c: i64 = TDMA_CYCLE_TIMESLOTS as i64;
        let shifted = (d + 2 * c) as u64;
        let r = shifted % (c as u64);
        proof {
            vstd::arithmetic::div_mod::lemma_mod_add_multiples_vanish(d as int, c as int);
            vstd::arithmetic::div_mod::lemma_mod_add_multiples_vanish(d + c, c as int);
        }
        r as i32
    }

    /// The time `n` timeslots after `self` (before it when `n` is negative),
    /// wrapping around the cycle.
    pub fn add_timeslots(&self, n: i32) -> (r: TdmaTime)
        ensures
            r == tdma_from_index(self.index() + n),
            r.is_valid(),
    {
        let c: i64 = TDMA_CYCLE_TIMESLOTS as i64;
        let s = self.index_exec() + n as i64 + 8 * c;
        let j = (s as u64) % (c as u64);
        proof {
            let x = self.index() + n;
            assert(s == x + 8 * c);
            assert((x + 8 * (c as int)) % (c as int) == x % (c as int)) by {
                vstd::arithmetic::div_mod::lemma_mod_multiples_vanish(8, x, c as int);
            }
        }
        TdmaTime { h: (j / 4320) as u16, m: ((j / 72) % 60 + 1) as u8, f: ((j / 4) % 18 + 1) as u8, t: (j % 4 + 1) as u8 }
    }
}

/// Reading a time back from its offset gives the offset again.
pub proof fn lemma_index_of_from_index(i: int)
    requires
        0 <= i < TDMA_CYCLE_TIMESLOTS,
    ensures
        tdma_from_index(i).index() == i,
        tdma_from_index(i).is_valid(),
{
    let r = tdma_from_index(i);
    assert(i % (TDMA_CYCLE_TIMESLOTS as int) == i) by {
        vstd::arithmetic::div_mod::lemma_small_mod(i as nat, TDMA_CYCLE_TIMESLOTS as nat);
    }
    let q1 = i / 4;
    let q2 = q1 / 18;
    let q3 = q2 / 60;
    assert(i == 4 * q1 + i % 4 && 0 <= i % 4 < 4) by {
        vstd::arithmetic::div_mod::lemma_fundamental_div_mod(i, 4);
    }
    assert(q1 == 18 * q2 + q1 % 18 && 0 <= q1 % 18 < 18) by {
        vstd::arithmetic::div_mod::lemma_fundamental_div_mod(q1, 18);
    }
    assert(q2 == 60 * q3 + q2 % 60 && 0 <= q2 % 60 < 60) by {
        vstd::arithmetic::div_mod::lemma_fundamental_div_mod(q2, 60);
    }
    assert(i / 72 == q2) by {
        vstd::arithmetic::div_mod::lemma_div_denominator(i, 4, 18);
    }
    assert(i / 4320 == q3) by {
        vstd::arithmetic::div_mod::lemma_div_denominator(i, 4, 18);
        vstd::arithmetic::div_mod::lemma_div_denominator(i, 72, 60);
    }
    assert(0 <= q3 < 65536);
}

/// Moving `n` timeslots forward from a valid time and asking how far the
/// result lies gives back `n`, for any `n` shorter than the whole cycle.
pub proof fn lemma_age_of_add_timeslots(start: TdmaTime, n: int)
    requires
        start.is_valid(),
        0 <= n < TDMA_CYCLE_TIMESLOTS,
    ensures
        start.age_spec(tdma_from_index(start.index() + n)) == n,
{
    let c = TDMA_CYCLE_TIMESLOTS as int;
    lemma_valid_index_in_cycle(start);
    let j = (start.index() + n) % c;
    assert(0 <= j < c) by {
        vstd::arithmetic::div_mod::lemma_mod_bound(start.index() + n, c);
    }
    assert(tdma_from_index(j) == tdma_from_index(start.index() + n)) by {
        vstd::arithmetic::div_mod::lemma_mod_twice(start.index() + n, c);
    }
    lemma_index_of_from_index(j);
    assert((j - start.index()) % c == n) by {
        vstd::arithmetic::div_mod::lemma_sub_mod_noop(start.index() + n, start.index(), c);
        vstd::arithmetic::div_mod::lemma_small_mod(n as nat, c as nat);
    }
}

/// A valid time lies inside the cycle.
pub proof fn lemma_valid_index_in_cycle(x: TdmaTime)
    requires
        x.is_valid(),
    ensures
        0 <= x.index() < TDMA_CYCLE_TIMESLOTS,
{
}

} // verus!
