use vstd::prelude::*;

use crate::clock::Clock;

verus! {

/// Why a time-sync exchange failed.
#[derive(Clone, Copy, Debug, PartialEq, Eq, Structural)]
pub enum AdjustCurrentTimeError {
    /// Sending or receiving the datagram failed.
    Network,
    /// No reply came within the timeout.
    Timeout,
    /// The reply was malformed, empty or did not match the request.
    Protocol,
    /// The time server's address could not be resolved.
    AddressResolution,
}

/// Seconds of uptime after the last successful sync past which a new sync is due.
pub const RESYNC_INTERVAL_SECS: u64 = 3600;

/// Seconds a time-sync exchange may wait for its reply.
pub const SYNC_TIMEOUT_SECS: u64 = 10;

/// UDP port of the time server.
pub const NTP_PORT: u16 = 123;

/// The clock's correction after a sync exchange with outcome `outcome`.
pub open spec fn offset_after(offset: int, outcome: Result<i64, AdjustCurrentTimeError>) -> int {
    match outcome {
        Ok(c) => offset + c,
        Err(_) => offset,
    }
}

/// Whether the correction that `outcome` brings can be added to `clock`.
pub open spec fn applicable(clock: Clock, outcome: Result<i64, AdjustCurrentTimeError>) -> bool {
    outcome matches Ok(c) ==> i64::MIN <= clock.offset() + c <= i64::MAX
}

/// Completes a time-sync exchange whose outcome is `outcome`: a measured
/// correction (microseconds) is added to the clock, a failure leaves the
/// clock untouched and is returned.
pub fn adjust_current_time(clock: &mut Clock, outcome: Result<i64, AdjustCurrentTimeError>) -> (r:
    Result<(), AdjustCurrentTimeError>)
    requires
        applicable(*old(clock), outcome),
    ensures
        final(clock).offset() == offset_after(old(clock).offset(), outcome),
        final(clock).zone() == old(clock).zone(),
        outcome is Ok <==> r is Ok,
        outcome matches Err(e) ==> r == Err::<(), AdjustCurrentTimeError>(e),
{
    match outcome {
        Ok(c) => {
            clock.inject_ntp(c);
            Ok(())
        },
        Err(e) => Err(e),
    }
}

/// When the last successful time sync happened, in microseconds of uptime.
pub struct ResyncTimer {
    pub last_success: Option<u64>,
}

/// Whether a sync is due at uptime `now`: none has succeeded yet, or more
/// than the resync interval (in whole seconds) has passed since the last one.
pub open spec fn resync_due(last_success: Option<u64>, now: u64) -> bool {
    match last_success {
        None => true,
        Some(t) => (now - t) / 1_000_000 > RESYNC_INTERVAL_SECS,
    }
}

impl ResyncTimer {
    /// No sync has succeeded yet.
    pub fn new() -> (r: ResyncTimer)
        ensures
            r.last_success is None,
    {
        ResyncTimer { last_success: None }
    }

    /// Whether a sync should be attempted at uptime `now`.
    pub fn is_due(&self, now: u64) -> (r: bool)
        requires
            self.last_success matches Some(t) ==> t <= now,
        ensures
            r == resync_due(self.last_success, now),
    {
        match self.last_success {
            None => true,
            Some(t) => (now - t) / 1_000_000 > RESYNC_INTERVAL_SECS,
        }
    }

    /// Records an attempt made at uptime `now`; only a success moves the timer.
    pub fn record(&mut self, now: u64, succeeded: bool)
        ensures
            final(self).last_success == (if succeeded {
                Some(now)
            } else {
                old(self).last_success
            }),
    {
        if succeeded {
            self.last_success = Some(now);
        }
    }
}

/// A failed sync leaves the clock reading, and so the instant it reports,
/// unchanged at every monotonic time.
pub proof fn lemma_failed_sync_keeps_reading(
    before: Clock,
    after: Clock,
    e: AdjustCurrentTimeError,
    mono: int,
)
    requires
        after.offset() == offset_after(before.offset(), Err(e)),
    ensures
        after.reading(mono) == before.reading(mono),
        after.instant(mono) == before.instant(mono),
{
}

/// A failed attempt does not move the timer: a sync stays due.
pub proof fn lemma_failed_attempt_stays_due(last_success: Option<u64>, now: u64, later: u64)
    requires
        resync_due(last_success, now),
        now <= later,
        last_success matches Some(t) ==> t <= now,
    ensures
        resync_due(last_success, later),
{
    if let Some(t) = last_success {
        assert((now - t) / 1_000_000 <= (later - t) / 1_000_000) by (nonlinear_arith)
            requires now - t <= later - t;
    }
}

} // verus!
