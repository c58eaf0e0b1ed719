//! The throttle: the shared admission state consulted by every
//! dispatch attempt, and its reaction to the service's responses.
//!
//! The throttle itself is plain data. Concurrency lives outside: the caller
//! keeps one throttle behind a mutex, so every operation here sees and leaves a
//! consistent state, and the timer commands a calibration produces are
//! returned as values for the surrounding runtime to deliver.

use vstd::prelude::*;

use crate::error::HypixelApiError;

verus! {

/// HTTP status of a successful response.
pub const STATUS_OK: u16 = 200;

/// HTTP status of a rate-limited response.
pub const STATUS_TOO_MANY_REQUESTS: u16 = 429;

/// Margin in seconds added to every server-reported reset delay; it absorbs
/// clock skew between this client and the remote window.
pub const RESET_MARGIN_SECS: u64 = 2;

/// Instruction sent (best effort) to the timer process.
#[derive(Debug, Clone, Copy, PartialEq, Eq, Structural)]
pub enum TimerCommand {
    /// (Re)schedule the next full reset after this many seconds.
    ArmReset(u64),
    /// Fire an immediate wake without touching the reset schedule.
    WakeNow,
}

/// The shared admission state: how many requests may still pass in the
/// current window, and the two calibration latches.
#[derive(Debug, Clone, Copy, PartialEq, Eq, Structural)]
pub struct RequestThrottler {
    /// Requests currently permitted to pass without waiting for the timer.
    pub requests_left: u32,
    /// True once a successful response has supplied the server's remaining
    /// count and window length for this window.
    pub received_first: bool,
    /// True once this window has already seen one rate-limited response;
    /// keeps later rejections in the same window from re-arming the timer.
    pub overflow_flagged: bool,
}

/// The delay armed for a server-reported reset: the report plus the safety
/// margin, saturating at the largest representable delay.
pub open spec fn arm_duration(reset_seconds: u64) -> u64 {
    if reset_seconds + RESET_MARGIN_SECS <= u64::MAX {
        (reset_seconds + RESET_MARGIN_SECS) as u64
    } else {
        u64::MAX
    }
}

fn arm_after(reset_seconds: u64) -> (d: u64)
    ensures
        d == arm_duration(reset_seconds),
{
    if reset_seconds <= u64::MAX - RESET_MARGIN_SECS {
        reset_seconds + RESET_MARGIN_SECS
    } else {
        u64::MAX
    }
}

impl RequestThrottler {
    /// The optimistic start-of-window state: one probe request may pass,
    /// nothing is calibrated yet.
    pub open spec fn initial() -> RequestThrottler {
        RequestThrottler { requests_left: 1, received_first: false, overflow_flagged: false }
    }

    /// What one ticket request does: the state after it, and whether the
    /// ticket was granted.
    pub open spec fn spec_ticket(self) -> (RequestThrottler, bool) {
        if self.requests_left > 0 {
            (
                RequestThrottler { requests_left: (self.requests_left - 1) as u32, ..self },
                true,
            )
        } else {
            (self, false)
        }
    }

    /// What a rate-limited response does: the state after it, and the timer
    /// commands it issues. Only the first such response in a window zeroes
    /// the capacity and arms the reset; later ones change nothing.
    pub open spec fn spec_rate_limited(self, reset_seconds: u64) -> (
        RequestThrottler,
        Seq<TimerCommand>,
    ) {
        if self.overflow_flagged {
            (self, seq![])
        } else {
            (
                RequestThrottler { requests_left: 0, overflow_flagged: true, ..self },
                seq![TimerCommand::ArmReset(arm_duration(reset_seconds))],
            )
        }
    }

    /// What a successful response does: the first one in a window adopts the
    /// server-reported remaining count, arms the reset and wakes every
    /// waiter; later ones in the same window change nothing.
    pub open spec fn spec_success(self, reset_seconds: u64, requests_remaining: u32) -> (
        RequestThrottler,
        Seq<TimerCommand>,
    ) {
        if self.received_first {
            (self, seq![])
        } else {
            (
                RequestThrottler {
                    requests_left: requests_remaining,
                    received_first: true,
                    ..self
                },
                seq![
                    TimerCommand::ArmReset(arm_duration(reset_seconds)),
                    TimerCommand::WakeNow,
                ],
            )
        }
    }

    /// A fresh throttle in the optimistic initial state. The caller wraps it in
    /// its shared-ownership primitive and starts the timer process beside it.
    pub fn new() -> (t: RequestThrottler)
        ensures
            t == RequestThrottler::initial(),
    {
        RequestThrottler { requests_left: 1, received_first: false, overflow_flagged: false }
    }

    /// The atomic check-and-decrement consulted by every dispatch attempt:
    /// grants while capacity is left, and never touches the latches. A
    /// denied caller should await the next wake event and retry.
    pub fn request_ticket(&mut self) -> (granted: bool)
        ensures
            granted == (old(self).requests_left > 0),
            *final(self) == old(self).spec_ticket().0,
            granted == old(self).spec_ticket().1,
    {
        if self.requests_left > 0 {
            self.requests_left = self.requests_left - 1;
            true
        } else {
            false
        }
    }

    /// Interprets one completed HTTP attempt: the status code and the two
    /// already-parsed rate-limit header values. Returns whether the caller
    /// may use the response's body, together with the timer commands to
    /// deliver, or an error for any status outside the protocol.
    pub fn on_received(
        &mut self,
        status_code: u16,
        time_before_reset: u64,
        requests_remaining: u32,
    ) -> (r: Result<(bool, Vec<TimerCommand>), HypixelApiError>)
        ensures
            r is Ok <==> (status_code == STATUS_OK || status_code == STATUS_TOO_MANY_REQUESTS),
            status_code == STATUS_TOO_MANY_REQUESTS ==> (r matches Ok(out)
                && out.0 == false
                && *final(self) == old(self).spec_rate_limited(time_before_reset).0
                && out.1@ == old(self).spec_rate_limited(time_before_reset).1),
            status_code == STATUS_OK ==> (r matches Ok(out)
                && out.0 == true
                && *final(self) == old(self).spec_success(time_before_reset, requests_remaining).0
                && out.1@ == old(self).spec_success(time_before_reset, requests_remaining).1),
            r matches Err(e) ==> (e == HypixelApiError::UnexpectedResponseCode(status_code, None)
                && *final(self) == *old(self)),
    {
        if status_code == STATUS_TOO_MANY_REQUESTS {
            let mut commands: Vec<TimerCommand> = Vec::new();
            if !self.overflow_flagged {
                self.overflow_flagged = true;
                self.requests_left = 0;
                commands.push(TimerCommand::ArmReset(arm_after(time_before_reset)));
            }
            proof {
                assert(commands@ =~= old(self).spec_rate_limited(time_before_reset).1);
            }
            Ok((false, commands))
        } else if status_code == STATUS_OK {
            let mut commands: Vec<TimerCommand> = Vec::new();
            if !self.received_first {
                self.received_first = true;
                self.requests_left = requests_remaining;
                commands.push(TimerCommand::ArmReset(arm_after(time_before_reset)));
                commands.push(TimerCommand::WakeNow);
            }
            proof {
                assert(commands@ =~= old(self).spec_success(
                    time_before_reset,
                    requests_remaining,
                ).1);
            }
            Ok((true, commands))
        } else {
            Err(HypixelApiError::UnexpectedResponseCode(status_code, None))
        }
    }

    /// Restores the optimistic state for a new window. Invoked only by the
    /// timer process when the armed deadline elapses; the timer then
    /// broadcasts a wake so blocked dispatch attempts re-ticket.
    pub fn reset_to_initial(&mut self)
        ensures
            *final(self) == RequestThrottler::initial(),
    {
        self.received_first = false;
        self.overflow_flagged = false;
        self.requests_left = 1;
    }
}

/// How many tickets are granted when `n` acquisitions hit the throttle one
/// after another with nothing else happening in between. Concurrent
/// acquisitions are serialized by the throttle's lock, so any interleaving is
/// some such run.
pub open spec fn grants_after(t: RequestThrottler, n: nat) -> nat
    decreases n,
{
    if n == 0 {
        0
    } else {
        (if t.spec_ticket().1 {
            1nat
        } else {
            0nat
        }) + grants_after(t.spec_ticket().0, (n - 1) as nat)
    }
}

/// Law: however many ticket acquisitions race for the throttle, the number of
/// grants before the next reset or calibration never exceeds the capacity
/// the throttle started with.
pub proof fn lemma_grants_never_exceed_capacity(t: RequestThrottler, n: nat)
    ensures
        grants_after(t, n) <= t.requests_left,
    decreases n,
{
    if n > 0 {
        lemma_grants_never_exceed_capacity(t.spec_ticket().0, (n - 1) as nat);
    }
}

/// Law: a throttle whose capacity is exhausted denies every ticket request, no
/// matter how many are made, until something reassigns the capacity.
pub proof fn lemma_exhausted_throttle_denies_all(t: RequestThrottler, n: nat)
    requires
        t.requests_left == 0,
    ensures
        grants_after(t, n) == 0,
    decreases n,
{
    if n > 0 {
        lemma_exhausted_throttle_denies_all(t.spec_ticket().0, (n - 1) as nat);
    }
}

/// Law: the first rate-limited response in a window zeroes the capacity, so
/// every ticket request before the next reset is denied.
pub proof fn lemma_rate_limited_denies_until_reset(
    t: RequestThrottler,
    reset_seconds: u64,
    n: nat,
)
    requires
        !t.overflow_flagged,
    ensures
        t.spec_rate_limited(reset_seconds).0.requests_left == 0,
        grants_after(t.spec_rate_limited(reset_seconds).0, n) == 0,
{
    lemma_exhausted_throttle_denies_all(t.spec_rate_limited(reset_seconds).0, n);
}

/// Law: calibration adopts the server-reported remaining count exactly once
/// per window; a successful response after the first leaves the throttle as it
/// was.
pub proof fn lemma_calibration_adopts_remaining_once(
    t: RequestThrottler,
    reset_seconds: u64,
    requests_remaining: u32,
)
    ensures
        !t.received_first ==> t.spec_success(
            reset_seconds,
            requests_remaining,
        ).0.requests_left == requests_remaining,
        t.received_first ==> t.spec_success(reset_seconds, requests_remaining).0 == t,
{
}

/// The run of a whole burst of rate-limited responses against the throttle:
/// the state at the end, and every timer command issued along the way.
pub open spec fn rate_limited_run(t: RequestThrottler, resets: Seq<u64>) -> (
    RequestThrottler,
    Seq<TimerCommand>,
)
    decreases resets.len(),
{
    if resets.len() == 0 {
        (t, seq![])
    } else {
        let first = t.spec_rate_limited(resets[0]);
        let rest = rate_limited_run(first.0, resets.drop_first());
        (rest.0, first.1 + rest.1)
    }
}

/// Law: within one window the rate-limited branch arms the reset timer at
/// most once. However many racing rate-limited responses arrive, together
/// they issue at most one command, and none at all once the window's
/// overflow latch is set.
pub proof fn lemma_single_arm_per_window(t: RequestThrottler, resets: Seq<u64>)
    ensures
        rate_limited_run(t, resets).1.len() <= 1,
        t.overflow_flagged ==> rate_limited_run(t, resets).1.len() == 0,
        forall|i: int|
            0 <= i < rate_limited_run(t, resets).1.len()
                ==> #[trigger] rate_limited_run(t, resets).1[i] is ArmReset,
    decreases resets.len(),
{
    if resets.len() > 0 {
        lemma_single_arm_per_window(t.spec_rate_limited(resets[0]).0, resets.drop_first());
    }
}

} // verus!
