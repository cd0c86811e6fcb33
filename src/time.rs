//! Time from the free-running system counter.
//!
//! The counter ticks `frequency` times per second. Reading it is left to the
//! caller; here counter values and durations are converted into each other.
use vstd::prelude::*;

verus! {

/// Nanoseconds per second.
pub const NANOSEC_PER_SEC: u64 = 1_000_000_000;

/// A duration in whole seconds and nanoseconds below one second.
#[derive(Debug, Clone, Copy, PartialEq, Eq, Structural)]
pub struct TimeSpan {
    /// Whole seconds.
    pub secs: u64,
    /// Nanoseconds, below one second.
    pub nanos: u32,
}

/// Why a duration cannot be turned into counter ticks.
#[derive(Debug, Clone, Copy, PartialEq, Eq, Structural)]
pub enum TimeError {
    /// The duration needs more ticks than the counter holds.
    Overflow,
}

/// Converts between counter values and durations.
#[derive(Debug, Clone, Copy, PartialEq, Eq, Structural)]
pub struct TimeManager {
    /// Counter ticks per second, never zero.
    pub frequency: u32,
}

/// The duration of `ticks` counter ticks, in nanoseconds, rounded down.
pub open spec fn ticks_to_nanos(ticks: int, frequency: int) -> int {
    ticks / frequency * NANOSEC_PER_SEC + ticks % frequency * NANOSEC_PER_SEC / frequency
}

/// The ticks in `nanos` nanoseconds, rounded down.
pub open spec fn nanos_to_ticks(nanos: int, frequency: int) -> int {
    nanos * frequency / NANOSEC_PER_SEC as int
}

impl TimeManager {
    /// A manager for a counter of `frequency` ticks per second; `None` for
    /// a frequency of zero.
    pub fn new(frequency: u32) -> (r: Option<TimeManager>)
        ensures
            frequency == 0 <==> r is None,
            r matches Some(t) ==> t.frequency == frequency,
    {
        if frequency == 0 {
            None
        } else {
            Some(TimeManager { frequency })
        }
    }

    /// The time since power-on for the counter value `counter`: the whole
    /// seconds it spans, and the rest in nanoseconds, rounded down.
    pub fn uptime(&self, counter: u64) -> (r: TimeSpan)
        requires
            self.frequency > 0,
        ensures
            r.secs == counter as int / self.frequency as int,
            r.nanos == counter as int % self.frequency as int * NANOSEC_PER_SEC as int
                / self.frequency as int,
            r.nanos < NANOSEC_PER_SEC,
            r.secs * NANOSEC_PER_SEC + r.nanos == ticks_to_nanos(
                counter as int,
                self.frequency as int,
            ),
    {
        let f = self.frequency as u64;
        if counter == 0 {
            return TimeSpan { secs: 0, nanos: 0 };
        }
        let secs = counter / f;
        let rest = counter % f;
        proof {
            let ri = rest as int;
            let fi = f as int;
            let n = NANOSEC_PER_SEC as int;
            assert(ri < fi);
            assert(ri * n < 0x1_0000_0000 * n) by (nonlinear_arith)
                requires
                    ri < fi,
                    fi <= 0xffff_ffff,
                    n == 1_000_000_000,
                    ri >= 0,
            ;
            assert(ri * n / fi < n) by (nonlinear_arith)
                requires
                    ri < fi,
                    fi > 0,
                    ri >= 0,
                    n > 0,
            ;
        }
        let nanos = (rest * NANOSEC_PER_SEC / f) as u32;
        TimeSpan { secs, nanos }
    }

    /// The number of counter ticks in `duration`, rounded down. Fails when
    /// the duration is longer than the duration of the largest counter
    /// value.
    pub fn duration_to_ticks(&self, duration: TimeSpan) -> (r: Result<u64, TimeError>)
        requires
            self.frequency > 0,
        ensures
            ({
                let total = duration.secs * NANOSEC_PER_SEC + duration.nanos;
                let f = self.frequency as int;
                &&& total <= max_duration_nanos(f) ==> r == Ok::<u64, TimeError>(
                    nanos_to_ticks(total, f) as u64,
                )
                &&& total <= max_duration_nanos(f) ==> nanos_to_ticks(total, f) <= u64::MAX
                &&& total > max_duration_nanos(f) ==> r == Err::<u64, TimeError>(
                    TimeError::Overflow,
                )
            }),
    {
        let max = self.uptime(0xffff_ffff_ffff_ffff);
        let limit: u128 = max.secs as u128 * NANOSEC_PER_SEC as u128 + max.nanos as u128;
        let total: u128 = duration.secs as u128 * NANOSEC_PER_SEC as u128 + duration.nanos as u128;
        if total > limit {
            return Err(TimeError::Overflow);
        }
        proof {
            let t = total as int;
            let fi = self.frequency as int;
            assert(t == duration.secs as int * 1_000_000_000 + duration.nanos as int);
            let si = duration.secs as int;
            assert(si * 1_000_000_000 <= 0xffff_ffff_ffff_ffff * 1_000_000_000) by (nonlinear_arith)
                requires
                    0 <= si <= 0xffff_ffff_ffff_ffff,
            ;
            assert(t <= 0x2_0000_0000_0000_0000 * 1_000_000_000);
            assert(t * fi <= 0x2_0000_0000_0000_0000 * 1_000_000_000 * 0x1_0000_0000)
                by (nonlinear_arith)
                requires
                    0 <= t <= 0x2_0000_0000_0000_0000 * 1_000_000_000,
                    0 <= fi <= 0x1_0000_0000,
            ;
            lemma_ticks_fit(t, fi);
        }
        let ticks: u128 = total * self.frequency as u128 / NANOSEC_PER_SEC as u128;
        Ok(ticks as u64)
    }

    /// The counter value to spin until, `duration` after the counter value
    /// `now`; the sum wraps around like the counter does. Fails, and nothing
    /// is to be waited for, when the duration is longer than the duration of
    /// the largest counter value.
    pub fn spin_target(&self, now: u64, duration: TimeSpan) -> (r: Result<u64, TimeError>)
        requires
            self.frequency > 0,
        ensures
            ({
                let total = duration.secs * NANOSEC_PER_SEC + duration.nanos;
                let f = self.frequency as int;
                &&& total <= max_duration_nanos(f) ==> r == Ok::<u64, TimeError>(
                    ((now + nanos_to_ticks(total, f)) % 0x1_0000_0000_0000_0000) as u64,
                )
                &&& total > max_duration_nanos(f) ==> r == Err::<u64, TimeError>(
                    TimeError::Overflow,
                )
            }),
    {
        match self.duration_to_ticks(duration) {
            Ok(delta) => Ok(now.wrapping_add(delta)),
            Err(e) => Err(e),
        }
    }
}

/// The longest duration the counter can hold, in nanoseconds: that of the
/// largest counter value.
pub open spec fn max_duration_nanos(frequency: int) -> int {
    ticks_to_nanos(u64::MAX as int, frequency)
}

/// A duration no longer than that of the largest counter value has a tick
/// count that fits the counter.
proof fn lemma_ticks_fit(total: int, f: int)
    requires
        f > 0,
        0 <= total <= max_duration_nanos(f),
    ensures
        nanos_to_ticks(total, f) <= u64::MAX,
{
    let m = u64::MAX as int;
    let n = NANOSEC_PER_SEC as int;
    let q = m / f;
    let r = m % f;
    vstd::arithmetic::div_mod::lemma_fundamental_div_mod(m, f);
    vstd::arithmetic::div_mod::lemma_mod_pos_bound(m, f);
    let x = r * n;
    let s = x / f;
    vstd::arithmetic::div_mod::lemma_fundamental_div_mod(x, f);
    vstd::arithmetic::div_mod::lemma_mod_pos_bound(x, f);
    assert(s * f <= x) by (nonlinear_arith)
        requires
            x == f * s + x % f,
            0 <= x % f,
    ;
    assert(total <= q * n + s);
    assert(total * f <= (q * n + s) * f) by (nonlinear_arith)
        requires
            total <= q * n + s,
            f > 0,
    ;
    assert(total * f <= m * n) by (nonlinear_arith)
        requires
            total * f <= (q * n + s) * f,
            s * f <= r * n,
            m == f * q + r,
    ;
    assert(0 <= total * f) by (nonlinear_arith)
        requires
            0 <= total,
            f > 0,
    ;
    vstd::arithmetic::div_mod::lemma_div_is_ordered(total * f, m * n, n);
    vstd::arithmetic::div_mod::lemma_div_by_multiple(m, n);
}

} // verus!
