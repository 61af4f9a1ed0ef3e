//! Tick arithmetic for the 10 MHz machine-time counter (one tick = 100 ns),
//! and the busy-wait sleep protocol of `nanosleep`.
//!
//! The counter itself is hardware: the unverified glue reads it and feeds the
//! values in. The conversions, the wrap-around handling and the lower bound
//! on the waited duration are verified here.

use vstd::prelude::*;

use crate::config::{MICRO_PER_SEC, MTIME_FREQUENCY_HZ, TICKS_PER_SEC};

verus! {

/// One period of the 64-bit machine-time counter.
pub open spec fn counter_period() -> int {
    0x1_0000_0000_0000_0000
}

/// Ticks needed to cover `ns` nanoseconds, rounded up (one tick = 100 ns).
pub fn ticks_of_ns(ns: u64) -> (ticks: u64)
    ensures
        ticks == (ns + 99) / 100,
        ticks * 100 >= ns,
{
    let t = if ns % 100 == 0 {
        ns / 100
    } else {
        ns / 100 + 1
    };
    assert(t == (ns + 99) / 100 && t * 100 >= ns) by (nonlinear_arith)
        requires
            t == if ns % 100 == 0 {
                (ns / 100) as int
            } else {
                ns / 100 + 1
            },
    ;
    t
}

/// Ticks in `ms` milliseconds (10 000 ticks each).
pub fn ticks_of_ms(ms: u64) -> (ticks: u64)
    requires
        ms * 10_000 <= u64::MAX,
    ensures
        ticks == ms * 10_000,
{
    ms * 10_000
}

/// Ticks in `us` microseconds (10 ticks each).
pub fn ticks_of_us(us: u64) -> (ticks: u64)
    requires
        us * 10 <= u64::MAX,
    ensures
        ticks == us * 10,
{
    us * 10
}

/// Total nanoseconds requested by a timespec.
///
/// The caller rejects or never produces negative fields and requests whose
/// total would not fit the counter; on such values the conversion the
/// hardware kernel performs would wrap or panic.
pub fn total_ns(ts: &crate::config::KernelTimespec) -> (ns: u64)
    requires
        0 <= ts.tv_sec,
        0 <= ts.tv_nsec,
        ts.tv_sec * 1_000_000_000 + ts.tv_nsec <= u64::MAX,
    ensures
        ns == ts.tv_sec * 1_000_000_000 + ts.tv_nsec,
{
    (ts.tv_sec as u64) * 1_000_000_000 + (ts.tv_nsec as u64)
}

/// Microseconds since boot given the tick count (10 ticks per microsecond).
pub fn us_of_ticks(ticks: u64) -> (us: u64)
    ensures
        us == ticks / (MTIME_FREQUENCY_HZ / MICRO_PER_SEC),
        us == ticks / 10,
{
    ticks / (MTIME_FREQUENCY_HZ / MICRO_PER_SEC)
}

/// The time value `gettimeofday` stores for the user, derived from the
/// microseconds since boot.
pub fn timeval_of_us(us: u64) -> (tv: crate::config::TimeVal)
    ensures
        tv.sec == us / MICRO_PER_SEC,
        tv.usec == us % MICRO_PER_SEC,
        tv.usec < MICRO_PER_SEC,
{
    crate::config::TimeVal { sec: us / MICRO_PER_SEC, usec: us % MICRO_PER_SEC }
}

/// Absolute tick deadline of the next supervisor-timer interrupt: one
/// scheduling quantum (10 ms) past `now`.
pub fn next_trigger_time(now: u64) -> (deadline: u64)
    requires
        now + MTIME_FREQUENCY_HZ / TICKS_PER_SEC <= u64::MAX,
    ensures
        deadline == now + MTIME_FREQUENCY_HZ / TICKS_PER_SEC,
{
    now + MTIME_FREQUENCY_HZ / TICKS_PER_SEC
}

/// The busy-wait sleep protocol over the wrapping 64-bit tick counter.
///
/// Built from the counter value at the start and the tick count to wait;
/// the machine then polls the counter until `poll` reports completion.
/// When the target wrapped past the end of the counter range, polling first
/// waits for the counter itself to wrap (reads below the start value) and
/// only then compares against the target.
pub struct SleepWait {
    /// Counter value when the sleep began.
    pub start: u64,
    /// Counter value to wait for, `start + ticks` with wrap-around.
    pub target: u64,
    /// Whether the counter has been seen past the wrap already (only
    /// meaningful when `target < start`).
    pub wrapped: bool,
}

impl SleepWait {
    /// Starts a sleep of `ticks` ticks at counter value `start`.
    pub fn begin(start: u64, ticks: u64) -> (w: SleepWait)
        ensures
            w.start == start,
            w.target == (start + ticks) % counter_period(),
            !w.wrapped,
    {
        let target = start.wrapping_add(ticks);
        SleepWait { start, target, wrapped: false }
    }

    /// One poll of the counter: reports whether the sleep is over.
    ///
    /// While the target lies before the start (the addition wrapped) and the
    /// counter has not yet been seen below the start value, the wait goes on
    /// regardless of the target comparison.
    pub fn poll(&mut self, now: u64) -> (done: bool)
        ensures
            final(self).start == old(self).start,
            final(self).target == old(self).target,
            final(self).wrapped == (old(self).wrapped || now < old(self).start),
            done == ((old(self).target >= old(self).start || old(self).wrapped || now < old(
                self,
            ).start) && now >= old(self).target),
    {
        if now < self.start {
            self.wrapped = true;
        }
        if self.target < self.start && !self.wrapped {
            return false;
        }
        now >= self.target
    }
}

/// Lower bound on a completed busy wait: the slept duration covers the
/// requested ticks.
///
/// `start_t`, `mid_t` and `end_t` are true (unwrapped) tick times of three
/// counter reads: the one `begin` stored, one that `poll` saw below the
/// start value (for a wrapped target; otherwise any read up to the last),
/// and the final read that completed the wait. Provided the counter did not
/// advance a whole period during the wait — at 10 MHz a period is over
/// 58 000 years — completion implies at least `ticks` ticks have passed.
pub proof fn lemma_busy_wait_duration(start_t: int, mid_t: int, end_t: int, ticks: int)
    requires
        0 <= ticks < counter_period(),
        0 <= start_t <= mid_t <= end_t,
        end_t - start_t < counter_period(),
        ({
            let start = start_t % counter_period();
            let target = (start + ticks) % counter_period();
            &&& (target < start ==> mid_t % counter_period() < start)
            &&& end_t % counter_period() >= target
        }),
    ensures
        end_t - start_t >= ticks,
{
    let p = counter_period();
    let start = start_t % p;
    let target = (start + ticks) % p;
    let e = end_t - start_t;
    vstd::arithmetic::div_mod::lemma_mod_bound(start_t, p);
    vstd::arithmetic::div_mod::lemma_add_mod_noop_right(e, start_t, p);
    assert(end_t % p == (start + e) % p);
    if start + ticks < p {
        vstd::arithmetic::div_mod::lemma_small_mod((start + ticks) as nat, p as nat);
        assert(target == start + ticks);
        if start + e < p {
            vstd::arithmetic::div_mod::lemma_small_mod((start + e) as nat, p as nat);
        } else {
            vstd::arithmetic::div_mod::lemma_mod_multiples_vanish(-1, start + e, p);
            assert(p * -1 + (start + e) == start + e - p);
            vstd::arithmetic::div_mod::lemma_small_mod((start + e - p) as nat, p as nat);
            assert(end_t % p == start + e - p);
        }
    } else {
        // The target wrapped: ticks == target + p - start.
        vstd::arithmetic::div_mod::lemma_mod_multiples_vanish(-1, start + ticks, p);
        assert(p * -1 + (start + ticks) == start + ticks - p);
        vstd::arithmetic::div_mod::lemma_small_mod((start + ticks - p) as nat, p as nat);
        assert(target == start + ticks - p);
        assert(target < start);
        let m = mid_t - start_t;
        vstd::arithmetic::div_mod::lemma_add_mod_noop_right(m, start_t, p);
        assert(mid_t % p == (start + m) % p);
        if start + m < p {
            vstd::arithmetic::div_mod::lemma_small_mod((start + m) as nat, p as nat);
            assert(false);
        }
        assert(e >= m >= p - start);
        vstd::arithmetic::div_mod::lemma_mod_multiples_vanish(-1, start + e, p);
        assert(p * -1 + (start + e) == start + e - p);
        vstd::arithmetic::div_mod::lemma_small_mod((start + e - p) as nat, p as nat);
        assert(end_t % p == start + e - p);
    }
}

} // verus!
