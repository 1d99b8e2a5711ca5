//! The orchestrator's decisions.
//!
//! The event loop around these decisions — the signal queue, the timer
//! task, the platform listeners — runs outside the library; every choice it
//! makes is a function here, over plain state and times.

use vstd::prelude::*;
use crate::credential::Credential;
use crate::login::{NetworkStatus, WifiLoginError};
use crate::off_hours_cache::{spec_set, OffHoursCache};

verus! {

/// The one message the wake queue carries: probe, and log in if needed.
/// Signals are idempotent and coalescible; only their count and timing
/// matter.
#[derive(Debug)]
pub enum ActionInfo {
    CheckAndLogin(),
}

/// What the orchestrator owns for its lifetime: the credential, the check
/// cadence, and the optional interface to pin traffic to.
#[derive(Debug)]
pub struct LoginConfig {
    pub credential: Credential,
    pub check_interval: u64,
    pub interface: Option<String>,
}

/// The default periodic-check cadence, in seconds.
pub fn default_check_interval() -> (r: u64)
    ensures
        r == 1200,
{
    20 * 60
}

/// The cadence the periodic check actually runs at: anything configured
/// below the one-minute floor, zero included, is raised to it.
pub fn effective_check_interval(configured: u64) -> (r: u64)
    ensures
        configured < 60 ==> r == 60,
        configured >= 60 ==> r == configured,
{
    if configured < 60 {
        60
    } else {
        configured
    }
}

/// One round of the periodic-check producer: with no suppression left it
/// emits a wake and sleeps a full interval; under suppression it emits
/// nothing and sleeps until the suppression or the interval ends, whichever
/// is sooner.
pub fn regular_check_step(expiration: u64, check_interval: u64) -> (r: (bool, u64))
    ensures
        expiration == 0 ==> r == (true, check_interval),
        expiration > 0 ==> r == (
            false,
            if expiration < check_interval {
                expiration
            } else {
                check_interval
            },
        ),
{
    if expiration == 0 {
        (true, check_interval)
    } else if expiration < check_interval {
        (false, expiration)
    } else {
        (false, check_interval)
    }
}

/// The debounce interval: signals closer than this to the last processed
/// one are dropped.
pub const DEBOUNCE_MILLIS: u64 = 5000;

/// Whether a signal at `now` passes the debounce given the last processed
/// signal's time.  A clock reading earlier than the last one counts as no
/// time passed.
pub open spec fn debounce_passes(last: Option<u64>, now: u64) -> bool {
    match last {
        Option::None => true,
        Option::Some(l) => now >= l && now - l >= DEBOUNCE_MILLIS,
    }
}

/// Drops wake signals that arrive too soon after the last processed one.
pub struct Debouncer {
    last_processed_at_millis: Option<u64>,
}

impl Debouncer {
    /// The time of the last processed signal, as spec-level data.
    pub closed spec fn spec_last(&self) -> Option<u64> {
        self.last_processed_at_millis
    }

    pub fn new() -> (r: Self)
        ensures
            r.spec_last() is None,
    {
        Debouncer { last_processed_at_millis: None }
    }

    /// Whether the signal arriving at `now_millis` is to be processed; a
    /// processed signal becomes the new debounce reference, a dropped one
    /// leaves no trace.
    pub fn should_process(&mut self, now_millis: u64) -> (r: bool)
        ensures
            r == debounce_passes(old(self).spec_last(), now_millis),
            r ==> final(self).spec_last() == Some(now_millis),
            !r ==> *final(self) == *old(self),
    {
        let passes = match self.last_processed_at_millis {
            None => true,
            Some(l) => now_millis >= l && now_millis - l >= DEBOUNCE_MILLIS,
        };
        if passes {
            self.last_processed_at_millis = Some(now_millis);
        }
        passes
    }
}

/// Two signals within the debounce interval produce exactly one probe:
/// whenever the first is processed, the second, arriving less than the
/// interval later, is dropped.
pub proof fn lemma_debounce_drops_second_signal(last: Option<u64>, t1: u64, t2: u64)
    requires
        debounce_passes(last, t1),
        t1 <= t2 < t1 + DEBOUNCE_MILLIS,
    ensures
        !debounce_passes(Some(t1), t2),
{
}

/// Whether the consumer loop follows a probe with a login attempt: only an
/// intercepted probe with scraped portal parameters warrants one.
pub fn should_attempt_login(status: &NetworkStatus) -> (r: bool)
    ensures
        r == (status is AuthenticationRequired),
{
    match status {
        NetworkStatus::AuthenticationRequired(_) => true,
        _ => false,
    }
}

/// What a finished login attempt does to the off-hours cache, as of instant
/// `now_secs`: success disarms it unconditionally, an off-hours rejection
/// arms it, and every other error leaves it untouched.
pub fn apply_login_outcome(
    cache: &mut OffHoursCache,
    outcome: &Result<(), WifiLoginError>,
    now_secs: u64,
)
    requires
        now_secs <= u64::MAX - 86400,
    ensures
        old(cache).wf() ==> final(cache).wf(),
        outcome is Ok ==> final(cache).spec_cached() is None,
        outcome matches Err(e) ==> if e is OffHours {
            final(cache).spec_cached() == spec_set(old(cache).spec_cached(), now_secs as int)
        } else {
            *final(cache) == *old(cache)
        },
{
    match outcome {
        Ok(_) => cache.clear(),
        Err(WifiLoginError::OffHours()) => cache.set_at(now_secs),
        Err(_) => (),
    }
}

} // verus!
