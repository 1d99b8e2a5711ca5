//! Suppression window for the nightly off-hours blackout.
//!
//! When the portal reports that logins are rejected for the night, the
//! orchestrator arms this cache; while it is armed, the periodic check
//! sleeps instead of probing.  Times are UTC seconds since the Unix epoch.

use vstd::prelude::*;
use vstd::arithmetic::div_mod::{lemma_fundamental_div_mod, lemma_mod_bound, lemma_mod_mod, lemma_mod_multiples_vanish, lemma_small_mod};

verus! {

/// The longest possible suppression: arming at the start of the recognized
/// pre-blackout window (15:20 UTC) leaves this many seconds until the
/// 23:05 UTC cutoff.
pub const MAX_SUPPRESSION_SECS: u64 = 27900;

/// Seconds into the UTC day of instant `t`.
pub open spec fn second_of_day(t: int) -> int {
    t % 86400
}

/// The UTC hour (0..24) of instant `t`.
pub open spec fn hour_of(t: int) -> int {
    second_of_day(t) / 3600
}

/// The UTC minute (0..60) of instant `t`.
pub open spec fn minute_of(t: int) -> int {
    (second_of_day(t) % 3600) / 60
}

/// Whether `t` falls in the heuristic pre-blackout window,
/// 15:20 to 22:20 UTC inclusive (23:20 to 06:20 in CST).
pub open spec fn in_pre_blackout(t: int) -> bool {
    ||| 15 < hour_of(t) && hour_of(t) < 22
    ||| hour_of(t) == 15 && minute_of(t) >= 20
    ||| hour_of(t) == 22 && minute_of(t) <= 20
}

/// The instant `t` moved to 23:05 UTC of the same day, seconds kept:
/// the cutoff at which the armed suppression expires.
pub open spec fn blackout_cutoff(t: int) -> int {
    t - second_of_day(t) + 23 * 3600 + 5 * 60 + t % 60
}

/// What arming does to the cached cutoff: inside the pre-blackout window
/// it arms the cutoff of the current day; outside, it changes nothing.
pub open spec fn spec_set(cached: Option<u64>, now: int) -> Option<u64> {
    if in_pre_blackout(now) {
        Some(blackout_cutoff(now) as u64)
    } else {
        cached
    }
}

/// The remaining suppression: zero when unarmed or already past the
/// cutoff, else the seconds left until it.
pub open spec fn expiration_spec(cached: Option<u64>, now: int) -> int {
    match cached {
        Option::None => 0,
        Option::Some(e) => if now > e {
            0
        } else {
            e - now
        },
    }
}

/// Relies on std's `SystemTime::now`: the current UTC time, as whole
/// seconds since the Unix epoch.  A clock before the epoch yields `-1`
/// (rather than the panic a direct epoch subtraction would raise), and one
/// beyond the `i64` range wraps negative; callers treat any negative value
/// as no usable time.  The value depends on the wall clock, so nothing is
/// promised of it.
#[verifier::external_body]
fn current_unix_timestamp() -> i64 {
    match std::time::SystemTime::now().duration_since(std::time::UNIX_EPOCH) {
        Ok(since_epoch) => since_epoch.as_secs() as i64,
        Err(_) => -1,
    }
}

/// Tracks the off-hours suppression window.
pub struct OffHoursCache {
    cached_off_hours: Option<u64>,
}

impl OffHoursCache {
    /// The armed cutoff, if any, as spec-level data.
    pub closed spec fn spec_cached(&self) -> Option<u64> {
        self.cached_off_hours
    }

    /// An armed cutoff always lies at 23:05 UTC (seconds kept) of some day.
    pub open spec fn wf(&self) -> bool {
        match self.spec_cached() {
            Option::None => true,
            Option::Some(e) => 23 * 3600 + 5 * 60 <= second_of_day(e as int) < 23 * 3600 + 6 * 60,
        }
    }

    pub fn new() -> (r: Self)
        ensures
            r.spec_cached() is None,
            r.wf(),
    {
        OffHoursCache { cached_off_hours: None }
    }

    /// Arm the suppression as of instant `now`.
    pub fn set_at(&mut self, now: u64)
        requires
            now <= u64::MAX - 86400,
        ensures
            final(self).spec_cached() == spec_set(old(self).spec_cached(), now as int),
            old(self).wf() ==> final(self).wf(),
    {
        proof {
            lemma_second_of_day_parts(now as int);
        }
        let sod: u64 = now % 86400;
        let hour: u64 = sod / 3600;
        let minute: u64 = (sod % 3600) / 60;
        let in_window = (hour > 15 && hour < 22) || (hour == 15 && minute >= 20) || (hour == 22
            && minute <= 20);
        if in_window {
            let cutoff: u64 = now - sod + 23 * 3600 + 5 * 60 + now % 60;
            proof {
                lemma_blackout_cutoff_second_of_day(now as int);
            }
            self.cached_off_hours = Some(cutoff);
        }
    }

    /// Arm the suppression as of the current wall-clock time.
    pub fn set(&mut self)
        ensures
            old(self).wf() ==> final(self).wf(),
            exists|now: int|
                0 <= now && final(self).spec_cached() == spec_set(old(self).spec_cached(), now),
    {
        let t = current_unix_timestamp();
        if 0 <= t {
            self.set_at(t as u64);
            proof {
                assert(0 <= t as int && self.spec_cached() == spec_set(
                    old(self).spec_cached(),
                    t as int,
                ));
            }
        } else {
            proof {
                assert(0int % 86400 == 0 && 0int / 3600 == 0);
                assert(!in_pre_blackout(0));
                assert(0 <= 0int && self.spec_cached() == spec_set(old(self).spec_cached(), 0));
            }
        }
    }

    /// Disarm the suppression unconditionally.
    pub fn clear(&mut self)
        ensures
            final(self).spec_cached() is None,
            final(self).wf(),
    {
        self.cached_off_hours = None;
    }

    /// Seconds of suppression left as of instant `now`.
    pub fn expiration_at(&self, now: u64) -> (r: u64)
        ensures
            r == expiration_spec(self.spec_cached(), now as int),
    {
        match self.cached_off_hours {
            None => 0,
            Some(e) => if now > e {
                0
            } else {
                e - now
            },
        }
    }

    /// Seconds of suppression left as of the current wall-clock time.
    /// Zero whenever the cache is unarmed.
    pub fn expiration(&self) -> (r: u64)
        ensures
            self.spec_cached() is None ==> r == 0,
            exists|now: int| 0 <= now && r == expiration_spec(self.spec_cached(), now),
    {
        let t = current_unix_timestamp();
        if 0 <= t {
            self.expiration_at(t as u64)
        } else {
            proof {
                if let Some(e) = self.spec_cached() {
                    assert(0 <= e as int + 1 && 0 == expiration_spec(
                        self.spec_cached(),
                        e as int + 1,
                    ));
                } else {
                    assert(0 <= 0int && 0 == expiration_spec(self.spec_cached(), 0));
                }
            }
            0
        }
    }
}

/// The second of the day splits into the hour, the minute, and `t % 60`.
proof fn lemma_second_of_day_parts(t: int)
    requires
        0 <= t,
    ensures
        0 <= second_of_day(t) <= t,
        second_of_day(t) < 86400,
        0 <= hour_of(t) < 24,
        0 <= minute_of(t) < 60,
        0 <= t % 60 < 60,
        second_of_day(t) == 3600 * hour_of(t) + 60 * minute_of(t) + t % 60,
{
    let d = second_of_day(t);
    lemma_mod_bound(t, 86400);
    lemma_fundamental_div_mod(t, 86400);
    assert(d <= t);
    lemma_fundamental_div_mod(d, 3600);
    lemma_mod_bound(d, 3600);
    lemma_fundamental_div_mod(d % 3600, 60);
    lemma_mod_bound(d % 3600, 60);
    assert(0 <= hour_of(t) < 24) by (nonlinear_arith)
        requires
            d == 3600 * (d / 3600) + d % 3600,
            0 <= d < 86400,
            0 <= d % 3600 < 3600,
            hour_of(t) == d / 3600,
    ;
    assert((d % 3600) % 60 == t % 60) by {
        assert(86400 == 3600 * 24);
        assert(3600 == 60 * 60);
        lemma_mod_mod(t, 3600, 24);
        lemma_mod_mod(t, 60, 60);
        assert((t % 3600) % 60 == t % 60);
        assert(d % 3600 == t % 3600);
    }
}

/// The cutoff of any nonnegative instant lies at 23:05 of its day.
proof fn lemma_blackout_cutoff_second_of_day(t: int)
    requires
        0 <= t,
    ensures
        23 * 3600 + 5 * 60 <= second_of_day(blackout_cutoff(t)) < 23 * 3600 + 6 * 60,
        t - second_of_day(t) <= blackout_cutoff(t) <= t + 86400,
        0 <= blackout_cutoff(t),
{
    lemma_second_of_day_parts(t);
    let k = t / 86400;
    lemma_fundamental_div_mod(t, 86400);
    let offset = 23 * 3600 + 5 * 60 + t % 60;
    assert(blackout_cutoff(t) == 86400 * k + offset);
    lemma_mod_of_day_offset(k, offset);
}

/// Adding less than a day to a day boundary leaves exactly that offset.
proof fn lemma_mod_of_day_offset(k: int, offset: int)
    requires
        0 <= offset < 86400,
    ensures
        (86400 * k + offset) % 86400 == offset,
{
    lemma_mod_multiples_vanish(k, offset, 86400);
    lemma_small_mod(offset as nat, 86400nat);
}

/// Arming inside the pre-blackout window leaves a positive suppression of
/// at most [`MAX_SUPPRESSION_SECS`] seconds.
pub proof fn lemma_set_in_window_bounds(cached: Option<u64>, now: int)
    requires
        0 <= now,
        now + 86400 <= u64::MAX,
        in_pre_blackout(now),
    ensures
        0 < expiration_spec(spec_set(cached, now), now) <= MAX_SUPPRESSION_SECS,
{
    lemma_second_of_day_parts(now);
    lemma_blackout_cutoff_second_of_day(now);
    let h = hour_of(now);
    let m = minute_of(now);
    assert(blackout_cutoff(now) - now == 23 * 3600 + 5 * 60 - 3600 * h - 60 * m);
}

/// Arming outside the pre-blackout window is a no-op: an unarmed cache
/// stays unarmed, so the expiration stays zero.
pub proof fn lemma_set_outside_window_stays_clear(now: int)
    requires
        !in_pre_blackout(now),
    ensures
        spec_set(Option::None, now) is None,
        expiration_spec(spec_set(Option::None, now), now) == 0,
{
}

/// Clearing always resets the expiration to zero, whatever the time.
pub proof fn lemma_clear_resets_expiration(now: int)
    ensures
        expiration_spec(Option::None, now) == 0,
{
}

} // verus!
