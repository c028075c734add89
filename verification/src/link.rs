//! The Command Link: the synchronous request/reply primitive over a pair of
//! single-slot hand-off channels to the bridge process. Requests go out on
//! the command channel, replies come back on the status-report channel;
//! each call races the reply against a deadline and never blocks for
//! longer. Every reply is stripped of its protocol tag before it is handed
//! back; a timed-out call reports a timeout and leaves the link usable for
//! the next call.

use vstd::prelude::*;

verus! {

use crate::bridge::{BridgeStatus, spec_apply_status, apply_status_reply};
use crate::bridge::{StopOutcome, supervisor_stop};
use crate::strutil::{matches_at, strip_spec, strip_tag, strip_tag_or_self};

/// Milliseconds one channel operation waits: the short class, used for
/// queries that must not stall a page render.
pub const SHORT_TIMEOUT_MS: u64 = 100;

/// Deadline in milliseconds of a short-class round-trip.
pub const SHORT_DEADLINE_MS: u64 = 201;

/// Deadline in milliseconds of a long-class round-trip: bulk queries and
/// reconnects that legitimately take longer.
pub const LONG_DEADLINE_MS: u64 = 5000;

#[verifier::external_type_specification]
#[verifier::external_body]
#[verifier::reject_recursive_types(T)]
pub struct ExSender<T>(crossbeam_channel::Sender<T>);

#[verifier::external_type_specification]
#[verifier::external_body]
#[verifier::reject_recursive_types(T)]
pub struct ExReceiver<T>(crossbeam_channel::Receiver<T>);

#[verifier::external_type_specification]
#[verifier::external_body]
pub struct ExInstant(std::time::Instant);

/// Relies on crossbeam_channel's `Sender::send_timeout`: the message is
/// handed over (true), or timed out or disconnected (false); which one
/// depends on the peer, so nothing more is promised.
#[verifier::external_body]
pub(crate) fn send_timeout_ms(s: &crossbeam_channel::Sender<String>, msg: String, ms: u64) -> (r:
    bool) {
    s.send_timeout(msg, core::time::Duration::from_millis(ms)).is_ok()
}

/// Relies on crossbeam_channel's `Receiver::recv_timeout`: the next queued
/// message when one arrives before the timeout, nothing on timeout or
/// disconnection; which one depends on the peer, so nothing more is
/// promised.
#[verifier::external_body]
pub(crate) fn recv_timeout_ms(r: &crossbeam_channel::Receiver<String>, ms: u64) -> (res: Option<
    String,
>) {
    match r.recv_timeout(core::time::Duration::from_millis(ms)) {
        Ok(v) => Some(v),
        Err(_) => None,
    }
}

/// Relies on std::time::Instant::now: an opaque reading of the monotonic
/// clock for deadline checks.
#[verifier::external_body]
fn now_instant() -> (r: std::time::Instant) {
    std::time::Instant::now()
}

/// Relies on std::time::Instant::elapsed: whole milliseconds since
/// `start`, saturated into sixty-four bits. Clock-dependent, so nothing is
/// promised of the value.
#[verifier::external_body]
fn elapsed_ms(start: &std::time::Instant) -> (r: u64) {
    u64::try_from(start.elapsed().as_millis()).unwrap_or(u64::MAX)
}

/// Upper bound on reply polls in one round-trip, a backstop behind the
/// wall-clock deadline so that every call provably returns.
const MAX_POLLS: u32 = 100000;

/// One tagged round-trip's decision for one polled outcome: the first
/// reply ends the wait and is handed back with the protocol tag stripped
/// off its front when it carried one; no reply this poll means keep
/// waiting. This function carries the reply conduct of `reconnect`,
/// `get_vars` and `get_var`, whose own results also depend on the
/// unconstrained channel and deadline.
pub fn apply_tagged_reply(reply: Option<&String>, tag: &str) -> (r: Option<String>)
    ensures
        r is Some <==> reply is Some,
        reply matches Some(s) ==> (r matches Some(out) && out@ == strip_spec(s@, tag@)),
{
    match reply {
        Some(s) => Some(strip_tag_or_self(s.as_str(), tag)),
        None => None,
    }
}

/// The aircraft query's decision for one polled outcome: a reply carrying
/// the aircraft tag ends the wait and is handed back with the tag
/// stripped; an untagged reply is consumed and skipped, and no reply this
/// poll means keep waiting. This function carries the reply conduct of
/// `get_aircraft`.
pub fn apply_aircraft_reply(reply: Option<&String>) -> (r: Option<String>)
    ensures
        r is Some <==> (reply matches Some(s) && matches_at(s@, "AIRCRAFT:"@, 0)),
        r matches Some(out) ==> out@ == (reply->0)@.skip("AIRCRAFT:"@.len() as int),
{
    match reply {
        Some(s) => {
            match strip_tag(s.as_str(), "AIRCRAFT:") {
                Some(rest) => {
                    proof {
                        assert(s@.subrange("AIRCRAFT:"@.len() as int, s@.len() as int) =~= s@.skip(
                            "AIRCRAFT:"@.len() as int,
                        ));
                    }
                    Some(rest)
                },
                None => None,
            }
        },
        None => None,
    }
}

/// One status round-trip: sends the status request, then waits for the
/// report within the short deadline. The record is rewritten exactly as
/// the round-trip's outcome dictates: a reply sets `comm` and lets the
/// status words rewrite `connected`; a timeout clears `comm` only.
/// `started` is never touched, and the link carries no state over to the
/// next call.
pub fn get_status(
    brid_status: &mut BridgeStatus,
    command_sender: &crossbeam_channel::Sender<String>,
    comm_receiver: &crossbeam_channel::Receiver<String>,
)
    ensures
        exists|reply: Option<Seq<char>>| *final(brid_status) == spec_apply_status(
            *old(brid_status),
            reply,
        ),
        final(brid_status).started == old(brid_status).started,
{
    let start: std::time::Instant = now_instant();
    let _ = send_timeout_ms(command_sender, String::from_str("BridgeStatus"), SHORT_TIMEOUT_MS);
    let mut polls: u32 = 0;
    while polls < MAX_POLLS
        invariant
            *brid_status == *old(brid_status),
        decreases MAX_POLLS - polls,
    {
        match recv_timeout_ms(comm_receiver, SHORT_TIMEOUT_MS) {
            Some(resp) => {
                apply_status_reply(brid_status, Some(&resp));
                proof {
                    let w: Option<Seq<char>> = Some(resp@);
                    assert(*brid_status == spec_apply_status(*old(brid_status), w));
                }
                return ;
            },
            None => {
                if elapsed_ms(&start) > SHORT_DEADLINE_MS {
                    apply_status_reply(brid_status, None);
                    proof {
                        let w: Option<Seq<char>> = None;
                        assert(*brid_status == spec_apply_status(*old(brid_status), w));
                    }
                    return ;
                }
            },
        }
        polls = polls + 1;
    }
    apply_status_reply(brid_status, None);
    proof {
        let w: Option<Seq<char>> = None;
        assert(*brid_status == spec_apply_status(*old(brid_status), w));
    }
}

/// One aircraft-identity round-trip: sends the request, then polls the
/// status-report channel within the short deadline, each poll decided by
/// `apply_aircraft_reply` (a tagged reply, stripped, ends the wait;
/// untagged text is skipped). Empty on timeout. What each polled value
/// yields is `apply_aircraft_reply`'s contract; the result here also
/// depends on the unconstrained channel and deadline.
pub fn get_aircraft(
    command_sender: &crossbeam_channel::Sender<String>,
    comm_receiver: &crossbeam_channel::Receiver<String>,
) -> (r: String)
{
    let start: std::time::Instant = now_instant();
    let _ = send_timeout_ms(command_sender, String::from_str("GetAircraft"), SHORT_TIMEOUT_MS);
    let mut polls: u32 = 0;
    while polls < MAX_POLLS
        decreases MAX_POLLS - polls,
    {
        let polled: Option<String> = recv_timeout_ms(comm_receiver, SHORT_TIMEOUT_MS);
        match apply_aircraft_reply(polled.as_ref()) {
            Some(out) => {
                return out;
            },
            None => {},
        }
        if elapsed_ms(&start) > SHORT_DEADLINE_MS {
            return String::new();
        }
        polls = polls + 1;
    }
    String::new()
}

/// One request/reply round-trip with a fixed request and reply tag: sends
/// the request, then polls within the deadline, each poll decided by
/// `apply_tagged_reply` (the first reply ends the wait, its tag
/// stripped); the timeout sentinel once the deadline passes. What each
/// polled value yields is `apply_tagged_reply`'s contract.
fn tagged_round_trip(
    command_sender: &crossbeam_channel::Sender<String>,
    comm_receiver: &crossbeam_channel::Receiver<String>,
    request: String,
    tag: &str,
    deadline_ms: u64,
) -> String {
    let start: std::time::Instant = now_instant();
    let _ = send_timeout_ms(command_sender, request, SHORT_TIMEOUT_MS);
    let mut polls: u32 = 0;
    while polls < MAX_POLLS
        decreases MAX_POLLS - polls,
    {
        let polled: Option<String> = recv_timeout_ms(comm_receiver, SHORT_TIMEOUT_MS);
        match apply_tagged_reply(polled.as_ref(), tag) {
            Some(out) => {
                return out;
            },
            None => {
                if elapsed_ms(&start) > deadline_ms {
                    return String::from_str("ERROR");
                }
            },
        }
        polls = polls + 1;
    }
    String::from_str("ERROR")
}

/// A reconnect request over the long deadline class: the bridge's answer
/// with the reconnect tag stripped, or the timeout sentinel. The reply
/// handling is `apply_tagged_reply`'s contract; nothing non-vacuous can
/// be promised of the returned text itself, which is whatever the
/// unconstrained channel delivered.
pub fn reconnect(
    command_sender: &crossbeam_channel::Sender<String>,
    comm_receiver: &crossbeam_channel::Receiver<String>,
) -> String {
    tagged_round_trip(
        command_sender,
        comm_receiver,
        String::from_str("SM_SEND:RECONNECT"),
        "RECONNECT:",
        LONG_DEADLINE_MS,
    )
}

/// The bulk variable enumeration over the long deadline class: the reply
/// with the variables tag stripped, or the timeout sentinel. The reply
/// handling is `apply_tagged_reply`'s contract.
pub fn get_vars(
    command_sender: &crossbeam_channel::Sender<String>,
    comm_receiver: &crossbeam_channel::Receiver<String>,
) -> String {
    tagged_round_trip(
        command_sender,
        comm_receiver,
        String::from_str("SM_SEND:VAR_LIST"),
        "VARS:",
        LONG_DEADLINE_MS,
    )
}

/// One variable query over the long deadline class: the reply with the
/// variable tag stripped, or the timeout sentinel. The reply handling is
/// `apply_tagged_reply`'s contract.
pub fn get_var(
    var_name: &str,
    command_sender: &crossbeam_channel::Sender<String>,
    comm_receiver: &crossbeam_channel::Receiver<String>,
) -> String {
    let request: String = String::from_str("SM_SEND:GET_VAR:").concat(var_name);
    tagged_round_trip(command_sender, comm_receiver, request, "VAR:", LONG_DEADLINE_MS)
}

/// The composite stop: the supervisor's idempotent decision, and the
/// shutdown request out on the command channel when the bridge was
/// running.
pub fn stop_bridge(
    status: &mut BridgeStatus,
    already_running: bool,
    command_sender: &crossbeam_channel::Sender<String>,
) -> (r: StopOutcome)
    ensures
        r == StopOutcome::NotRunning <==> !already_running,
        !already_running ==> *final(status) == *old(status),
        already_running ==> *final(status) == (BridgeStatus {
            started: false,
            ..*old(status)
        }),
{
    let outcome: StopOutcome = supervisor_stop(status, already_running);
    if already_running {
        let _ = send_timeout_ms(
            command_sender,
            String::from_str("CloseBridge"),
            SHORT_TIMEOUT_MS,
        );
    }
    outcome
}

} // verus!

