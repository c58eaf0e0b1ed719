//! The per-request dispatch loop, as a state machine, and the
//! recalibration step it performs on every completed HTTP attempt.
//!
//! One logical request is one run of this machine. The surrounding runtime
//! performs each state's outside work — acquiring a ticket under the throttle's
//! lock, awaiting a wake, sending the HTTP call — and feeds the outcome
//! back as an event; every decision about what happens next is made here.

use vstd::prelude::*;

use crate::error::ErrorReply;
use crate::error::HypixelApiError;
use crate::headers::DEFAULT_REMAINING;
use crate::headers::DEFAULT_RESET_SECS;
use crate::headers::header_u32_or_default;
use crate::headers::header_u64_or_default;
use crate::headers::spec_header_u32;
use crate::headers::spec_header_u64;
use crate::throttler::RequestThrottler;
use crate::throttler::TimerCommand;
use crate::timer::TimerAction;
use crate::timer::TimerEvent;
use crate::timer::spec_timer_step;

verus! {

/// Where one logical request stands.
#[derive(Debug, Clone, Copy, PartialEq, Eq, Structural)]
pub enum DispatchState {
    /// Asking the throttle for a ticket.
    Ticketing,
    /// Denied; blocked until the wake channel signals a change.
    Waiting,
    /// Granted; the HTTP call is outstanding.
    Sending,
    /// A response arrived; feeding its status and headers to the throttle.
    Recalibrating,
    /// The response was admitted and belongs to the caller.
    Done,
    /// A fatal failure; the loop never retries past it.
    Failed,
}

/// The outcome of one state's outside work.
#[derive(Debug, Clone, Copy, PartialEq, Eq, Structural)]
pub enum DispatchEvent {
    /// The throttle granted a ticket.
    TicketGranted,
    /// The throttle denied the ticket.
    TicketDenied,
    /// The wake channel signalled a change.
    Woken,
    /// The wake channel is permanently closed.
    WakeChannelClosed,
    /// The HTTP call completed with some response.
    ResponseArrived,
    /// The HTTP call failed at the transport level.
    TransportFailed,
    /// Recalibration admitted the response for the caller's use.
    ResponseAdmitted,
    /// Recalibration found the attempt throttled away; retry from scratch.
    ResponseThrottled,
    /// Recalibration signalled a protocol error.
    ProtocolError,
}

/// Whether the state is one the loop never leaves.
pub open spec fn is_terminal(s: DispatchState) -> bool {
    s is Done || s is Failed
}

/// Which events each state's outside work can hand back.
pub open spec fn event_fits(s: DispatchState, e: DispatchEvent) -> bool {
    match s {
        DispatchState::Ticketing => e is TicketGranted || e is TicketDenied,
        DispatchState::Waiting => e is Woken || e is WakeChannelClosed,
        DispatchState::Sending => e is ResponseArrived || e is TransportFailed,
        DispatchState::Recalibrating => e is ResponseAdmitted || e is ResponseThrottled
            || e is ProtocolError,
        DispatchState::Done => false,
        DispatchState::Failed => false,
    }
}

/// The loop's transition relation: a granted ticket moves to sending, a
/// denial blocks, a wake retries the ticket, a throttled response retries
/// from scratch, and every fatal outcome lands in the failed state. An
/// event no state's outside work can produce — see [`event_fits`] — is
/// treated as fatal too, so the relation is total.
pub open spec fn spec_dispatch_step(s: DispatchState, e: DispatchEvent) -> DispatchState {
    match (s, e) {
        (DispatchState::Ticketing, DispatchEvent::TicketGranted) => DispatchState::Sending,
        (DispatchState::Ticketing, DispatchEvent::TicketDenied) => DispatchState::Waiting,
        (DispatchState::Waiting, DispatchEvent::Woken) => DispatchState::Ticketing,
        (DispatchState::Waiting, DispatchEvent::WakeChannelClosed) => DispatchState::Failed,
        (DispatchState::Sending, DispatchEvent::ResponseArrived) => DispatchState::Recalibrating,
        (DispatchState::Sending, DispatchEvent::TransportFailed) => DispatchState::Failed,
        (DispatchState::Recalibrating, DispatchEvent::ResponseAdmitted) => DispatchState::Done,
        (DispatchState::Recalibrating, DispatchEvent::ResponseThrottled) => (
        DispatchState::Ticketing),
        (DispatchState::Recalibrating, DispatchEvent::ProtocolError) => DispatchState::Failed,
        (_, _) => DispatchState::Failed,
    }
}

/// One step of the dispatch loop.
pub fn dispatch_step(s: DispatchState, e: DispatchEvent) -> (next: DispatchState)
    ensures
        next == spec_dispatch_step(s, e),
{
    match (s, e) {
        (DispatchState::Ticketing, DispatchEvent::TicketGranted) => DispatchState::Sending,
        (DispatchState::Ticketing, DispatchEvent::TicketDenied) => DispatchState::Waiting,
        (DispatchState::Waiting, DispatchEvent::Woken) => DispatchState::Ticketing,
        (DispatchState::Waiting, DispatchEvent::WakeChannelClosed) => DispatchState::Failed,
        (DispatchState::Sending, DispatchEvent::ResponseArrived) => DispatchState::Recalibrating,
        (DispatchState::Sending, DispatchEvent::TransportFailed) => DispatchState::Failed,
        (DispatchState::Recalibrating, DispatchEvent::ResponseAdmitted) => DispatchState::Done,
        (DispatchState::Recalibrating, DispatchEvent::ResponseThrottled) => (
        DispatchState::Ticketing),
        (DispatchState::Recalibrating, DispatchEvent::ProtocolError) => DispatchState::Failed,
        (_, _) => DispatchState::Failed,
    }
}

/// Law: the two terminal states are final. No outside work runs there, no
/// event fits them, and even a stray event cannot leave them for anything
/// but the failed state.
pub proof fn lemma_terminal_states_are_final(s: DispatchState, e: DispatchEvent)
    requires
        is_terminal(s),
    ensures
        !event_fits(s, e),
        spec_dispatch_step(s, e) is Failed,
{
}

/// Law: an event that its state's outside work cannot produce is treated as
/// fatal, never as progress.
pub proof fn lemma_unfitting_event_is_fatal(s: DispatchState, e: DispatchEvent)
    requires
        !event_fits(s, e),
    ensures
        spec_dispatch_step(s, e) is Failed,
{
}

/// The view of an optional raw header value.
pub open spec fn opt_bytes_view(h: Option<&[u8]>) -> Option<Seq<u8>> {
    match h {
        Some(s) => Some(s@),
        None => None,
    }
}

/// The window length a response's reset header reports, after defaulting.
pub open spec fn spec_reset_seconds(h: Option<Seq<u8>>) -> u64 {
    spec_header_u64(h, DEFAULT_RESET_SECS)
}

/// The remaining count a response's remaining header reports, after
/// defaulting.
pub open spec fn spec_remaining(h: Option<Seq<u8>>) -> u32 {
    spec_header_u32(h, DEFAULT_REMAINING)
}

/// The recalibration a completed attempt performs: reads the two rate-limit
/// headers (falling back to the documented defaults) and feeds them with the
/// status code to the throttle. Returns whether the response's body may be used,
/// and the timer commands to deliver.
pub fn recalibrate(
    throttler: &mut RequestThrottler,
    status_code: u16,
    reset_header: Option<&[u8]>,
    remaining_header: Option<&[u8]>,
) -> (r: Result<(bool, Vec<TimerCommand>), HypixelApiError>)
    ensures
        ({
            let reset = spec_reset_seconds(opt_bytes_view(reset_header));
            let remaining = spec_remaining(opt_bytes_view(remaining_header));
            &&& (r is Ok <==> (status_code == crate::throttler::STATUS_OK || status_code
                == crate::throttler::STATUS_TOO_MANY_REQUESTS))
            &&& status_code == crate::throttler::STATUS_TOO_MANY_REQUESTS ==> (r matches Ok(out)
                && out.0 == false
                && *final(throttler) == old(throttler).spec_rate_limited(reset).0
                && out.1@ == old(throttler).spec_rate_limited(reset).1)
            &&& status_code == crate::throttler::STATUS_OK ==> (r matches Ok(out)
                && out.0 == true
                && *final(throttler) == old(throttler).spec_success(reset, remaining).0
                && out.1@ == old(throttler).spec_success(reset, remaining).1)
            &&& r matches Err(e) ==> (e == HypixelApiError::UnexpectedResponseCode(
                status_code,
                None,
            ) && *final(throttler) == *old(throttler))
        }),
{
    let time_before_reset = header_u64_or_default(reset_header, DEFAULT_RESET_SECS);
    let requests_remaining = header_u32_or_default(remaining_header, DEFAULT_REMAINING);
    throttler.on_received(status_code, time_before_reset, requests_remaining)
}

/// Fills in the structured cause the service sent alongside an unexpected
/// status, once the surrounding runtime has read and parsed the body. Every
/// other error passes through untouched.
pub fn attach_cause(error: HypixelApiError, cause: Option<ErrorReply>) -> (r: HypixelApiError)
    ensures
        error matches HypixelApiError::UnexpectedResponseCode(code, _) ==> r
            == HypixelApiError::UnexpectedResponseCode(code, cause),
        !(error is UnexpectedResponseCode) ==> r == error,
{
    match error {
        HypixelApiError::UnexpectedResponseCode(code, _) => HypixelApiError::UnexpectedResponseCode(
            code,
            cause,
        ),
        other => other,
    }
}

/// The endpoint one logical request is sent to: the fixed base plus the
/// caller-supplied relative path.
pub fn request_url(path: &str) -> (r: String)
    ensures
        r@ == "https://api.hypixel.net/"@ + path@,
{
    String::from_str("https://api.hypixel.net/").concat(path)
}

/// Law: a successful response with no reset header treats the window as the
/// default ten seconds plus the two-second margin: the reset is armed twelve
/// seconds out, and the pending waiters are woken.
pub proof fn lemma_missing_reset_header_defaults(
    throttler: RequestThrottler,
    remaining_header: Option<Seq<u8>>,
)
    requires
        !throttler.received_first,
    ensures
        throttler.spec_success(spec_reset_seconds(None), spec_remaining(remaining_header)).1
            =~= seq![TimerCommand::ArmReset(12), TimerCommand::WakeNow],
{
}

/// Law: when the armed deadline fires, the timer disarms and restores the
/// throttle — capacity one, nothing calibrated, no overflow seen — and the
/// broadcast wake moves a waiting request back to ticketing.
pub proof fn lemma_reset_restores_and_wakes()
    ensures
        spec_timer_step(true, TimerEvent::DeadlineElapsed) == (
            false,
            TimerAction::ResetAndBroadcast,
        ),
        RequestThrottler::initial().requests_left == 1,
        !RequestThrottler::initial().received_first,
        !RequestThrottler::initial().overflow_flagged,
        spec_dispatch_step(DispatchState::Waiting, DispatchEvent::Woken)
            == DispatchState::Ticketing,
{
}

} // verus!
