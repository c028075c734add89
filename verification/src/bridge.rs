//! Bridge process liveness: the status record, how a status round-trip
//! updates it, and the supervisor's idempotent start/stop decisions.

use vstd::prelude::*;

verus! {

/// Liveness record of the bridge process. `started` reflects local process
/// bookkeeping only; `connected` and `comm` are refreshed solely by a
/// completed or timed-out status round-trip.
#[derive(Clone, Copy, PartialEq, Eq, Structural, Debug)]
pub struct BridgeStatus {
    pub started: bool,
    pub connected: bool,
    pub comm: bool,
}

/// How one status round-trip rewrites the record: a timed-out round-trip
/// clears `comm` and leaves `connected` cached; a reply sets `comm` and
/// rewrites `connected` only when the reply text is one of the two status
/// words. `started` is never touched by a round-trip.
pub open spec fn spec_apply_status(old: BridgeStatus, reply: Option<Seq<char>>) -> BridgeStatus {
    match reply {
        None => BridgeStatus { comm: false, ..old },
        Some(resp) => BridgeStatus {
            comm: true,
            connected: if resp == "STATUS:TRUE"@ {
                true
            } else if resp == "STATUS:FALSE"@ {
                false
            } else {
                old.connected
            },
            started: old.started,
        },
    }
}

/// Applies the outcome of one status round-trip to the record: the reply
/// text when one arrived within the deadline, nothing on a timeout.
pub fn apply_status_reply(status: &mut BridgeStatus, reply: Option<&String>)
    ensures
        *final(status) == spec_apply_status(*old(status), match reply {
            Some(s) => Some(s@),
            None => None,
        }),
{
    match reply {
        None => {
            status.comm = false;
        },
        Some(resp) => {
            status.comm = true;
            if crate::strutil::str_eq(resp.as_str(), "STATUS:TRUE") {
                status.connected = true;
            } else if crate::strutil::str_eq(resp.as_str(), "STATUS:FALSE") {
                status.connected = false;
            }
        },
    }
}

/// The supervisor's answer to a start request.
#[derive(Clone, Copy, PartialEq, Eq, Structural, Debug)]
pub enum StartOutcome {
    /// The bridge process was not running and is to be spawned.
    Started,
    /// A bridge process is already running; nothing is spawned.
    AlreadyRunning,
}

/// The supervisor's answer to a stop request.
#[derive(Clone, Copy, PartialEq, Eq, Structural, Debug)]
pub enum StopOutcome {
    /// The bridge was running; a shutdown request is to go out.
    SentClose,
    /// No bridge process was running; nothing to stop.
    NotRunning,
}

/// The idempotent start decision: spawn and record `started` only when no
/// bridge process is running; a second start reports it is already running
/// and changes nothing.
pub fn supervisor_start(status: &mut BridgeStatus, already_running: bool) -> (r: StartOutcome)
    ensures
        r == StartOutcome::AlreadyRunning <==> already_running,
        already_running ==> *final(status) == *old(status),
        !already_running ==> *final(status) == (BridgeStatus { started: true, ..*old(status) }),
{
    if already_running {
        StartOutcome::AlreadyRunning
    } else {
        status.started = true;
        StartOutcome::Started
    }
}

/// The idempotent stop decision: only a running bridge gets a shutdown
/// request and has `started` cleared; stopping a stopped bridge reports
/// not-running and changes nothing.
pub fn supervisor_stop(status: &mut BridgeStatus, already_running: bool) -> (r: StopOutcome)
    ensures
        r == StopOutcome::NotRunning <==> !already_running,
        !already_running ==> *final(status) == *old(status),
        already_running ==> *final(status) == (BridgeStatus { started: false, ..*old(status) }),
{
    if already_running {
        status.started = false;
        StopOutcome::SentClose
    } else {
        StopOutcome::NotRunning
    }
}

} // verus!
