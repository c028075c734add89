//! The per-connection control actor and the shared subscription state: the
//! handshake/subscribe/forward decisions taken on each incoming text frame,
//! the push-queue translation the handshake listener applies, the
//! subscriber roster with its idempotent broadcaster start and its
//! stale-subscriber sweep, and the broadcaster's per-tick plan.

use vstd::prelude::*;

verus! {

use crate::crop::CropRect;
use crate::strutil::{matches_at, str_eq, strip_tag, strip_spec};

broadcast use vstd::string::group_string_axioms;

/// Per-connection actor state: whether the handshake listener for this
/// connection has already been spawned.
pub struct ActorState {
    pub linked: bool,
}

impl ActorState {
    /// A fresh connection: no listener spawned yet.
    pub fn new() -> (r: ActorState)
        ensures
            r.linked == false,
    {
        ActorState { linked: false }
    }
}

/// What the actor does with one incoming text frame.
#[derive(Clone, PartialEq, Eq, Debug)]
pub enum ActorAction {
    /// First handshake: spawn the push-queue listener, then acknowledge.
    SpawnListenerAndAck,
    /// Repeated handshake: acknowledge only, never a second listener.
    AckOnly,
    /// Subscription request: the connection joined the roster; start the
    /// broadcaster worker exactly when the flag says so.
    Subscribe { start_broadcaster: bool },
    /// Any other text: it was forwarded to the bridge status channel.
    ForwardToBridge,
}

/// What the handshake listener does with one message drained from the
/// push queue.
#[derive(Clone, PartialEq, Eq, Debug)]
pub enum PushDecision {
    /// Tell the viewer the bridge closed, then stop the listener.
    CloseAndStop,
    /// Forward this text frame to the viewer.
    Forward(String),
    /// Not a push for the viewer: drop it.
    Ignore,
}

/// Translates one message of the broadcast-oriented push queue into what
/// the viewer is told: the close command stops the listener, the two
/// status pushes map to their tags, a send-marked message is forwarded
/// with the marker stripped, anything else is dropped.
pub fn translate_push(value: &str) -> (r: PushDecision)
    ensures
        value@ == "CloseBridge"@ ==> r == PushDecision::CloseAndStop,
        value@ == "BridgeStatus"@ ==> (r matches PushDecision::Forward(f) && f@ == "STATUS"@),
        value@ == "GetAircraft"@ ==> (r matches PushDecision::Forward(f) && f@
            == "GET_AIRCRAFT"@),
        value@ != "CloseBridge"@ && value@ != "BridgeStatus"@ && value@ != "GetAircraft"@
            && matches_at(value@, "SM_SEND:"@, 0) ==> (r matches PushDecision::Forward(f) && f@
            == strip_spec(value@, "SM_SEND:"@)),
        value@ != "CloseBridge"@ && value@ != "BridgeStatus"@ && value@ != "GetAircraft"@
            && !matches_at(value@, "SM_SEND:"@, 0) ==> r == PushDecision::Ignore,
{
    proof {
        reveal_strlit("CloseBridge");
        reveal_strlit("BridgeStatus");
        reveal_strlit("GetAircraft");
        assert("CloseBridge"@.len() == 11);
        assert("BridgeStatus"@.len() == 12);
        assert("GetAircraft"@.len() == 11);
        assert("CloseBridge"@[0] == 'C');
        assert("GetAircraft"@[0] == 'G');
    }
    if str_eq(value, "CloseBridge") {
        PushDecision::CloseAndStop
    } else if str_eq(value, "BridgeStatus") {
        PushDecision::Forward(String::from_str("STATUS"))
    } else if str_eq(value, "GetAircraft") {
        PushDecision::Forward(String::from_str("GET_AIRCRAFT"))
    } else {
        match strip_tag(value, "SM_SEND:") {
            Some(rest) => {
                proof {
                    assert(value@.subrange("SM_SEND:"@.len() as int, value@.len() as int)
                        =~= value@.skip("SM_SEND:"@.len() as int));
                }
                PushDecision::Forward(rest)
            },
            None => PushDecision::Ignore,
        }
    }
}

/// The shared subscription state, one instance per process: the pinned
/// window, its crop, the roster of live subscriber connections, and
/// whether the broadcaster worker has been started.
pub struct SubscriptionState {
    pub selected_hwnd: isize,
    pub active_crop: CropRect,
    pub roster: Vec<u64>,
    pub broadcast_started: bool,
}

/// The start flag a registration returns and the broadcaster flag after
/// it: the worker starts exactly when it was not yet running, and the flag
/// then stays set for the rest of the process run.
pub open spec fn spec_subscribe_start(started: bool) -> (bool, bool) {
    (!started, true)
}

impl SubscriptionState {
    /// The process-start state: nothing pinned, no crop, empty roster, no
    /// broadcaster.
    pub fn new() -> (r: SubscriptionState)
        ensures
            r.selected_hwnd == 0,
            r.active_crop == CropRect::spec_zero(),
            r.roster@ == Seq::<u64>::empty(),
            r.broadcast_started == false,
    {
        SubscriptionState {
            selected_hwnd: 0,
            active_crop: CropRect::zero(),
            roster: Vec::new(),
            broadcast_started: false,
        }
    }

    /// Registers one connection as an image subscriber and reports whether
    /// the caller must start the broadcaster worker: exactly when no
    /// worker is running yet. The flag transition is `spec_subscribe_start`,
    /// so the worker is started at most once per process run.
    pub fn subscribe(&mut self, conn_id: u64) -> (start: bool)
        ensures
            final(self).roster@ == old(self).roster@.push(conn_id),
            start == spec_subscribe_start(old(self).broadcast_started).0,
            final(self).broadcast_started == spec_subscribe_start(
                old(self).broadcast_started,
            ).1,
            final(self).selected_hwnd == old(self).selected_hwnd,
            final(self).active_crop == old(self).active_crop,
    {
        self.roster.push(conn_id);
        let start: bool = !self.broadcast_started;
        self.broadcast_started = true;
        start
    }

    /// Pins one window and its crop for the broadcaster to capture.
    pub fn select_window(&mut self, hwnd: isize, crop: CropRect)
        ensures
            final(self).selected_hwnd == hwnd,
            final(self).active_crop == crop,
            final(self).roster@ == old(self).roster@,
            final(self).broadcast_started == old(self).broadcast_started,
    {
        self.selected_hwnd = hwnd;
        self.active_crop = crop;
    }

    /// The broadcaster's liveness sweep: every subscriber whose transport
    /// reported closed is removed from the roster; the others are kept, in
    /// order. Only the broadcaster calls this; no connection removes
    /// itself.
    pub fn sweep(&mut self, closed: &Vec<u64>)
        ensures
            final(self).roster@ == old(self).roster@.filter(
                |id: u64| !closed@.contains(id),
            ),
            final(self).selected_hwnd == old(self).selected_hwnd,
            final(self).active_crop == old(self).active_crop,
            final(self).broadcast_started == old(self).broadcast_started,
    {
        let n: usize = self.roster.len();
        let mut kept: Vec<u64> = Vec::new();
        let mut i: usize = 0;
        while i < n
            invariant
                n == self.roster@.len(),
                0 <= i <= n,
                kept@ == self.roster@.subrange(0, i as int).filter(
                    |id: u64| !closed@.contains(id),
                ),
            decreases n - i,
        {
            proof {
                let sub1 = self.roster@.subrange(0, i + 1);
                assert(sub1.drop_last() =~= self.roster@.subrange(0, i as int));
                assert(sub1.last() == self.roster@[i as int]);
                reveal(Seq::filter);
            }
            let id: u64 = self.roster[i];
            if !contains_u64(closed, id) {
                kept.push(id);
            }
            i = i + 1;
        }
        proof {
            assert(self.roster@.subrange(0, n as int) =~= self.roster@);
        }
        self.roster = kept;
    }
}

/// Whether a vector of connection ids holds the given id.
pub fn contains_u64(v: &Vec<u64>, x: u64) -> (r: bool)
    ensures
        r == v@.contains(x),
{
    let n: usize = v.len();
    let mut i: usize = 0;
    while i < n
        invariant
            n == v@.len(),
            0 <= i <= n,
            forall|k: int| 0 <= k < i ==> v@[k] != x,
        decreases n - i,
    {
        if v[i] == x {
            return true;
        }
        i = i + 1;
    }
    false
}

/// Dispatches one incoming text frame of a viewer connection: the literal
/// handshake spawns the listener once and is acknowledged; the literal
/// subscribe command joins the roster and starts the broadcaster exactly
/// when none runs yet; any other text is forwarded onto the bridge
/// status-report channel.
pub fn dispatch_text(
    state: &mut ActorState,
    sub: &mut SubscriptionState,
    conn_id: u64,
    text: &str,
    comm_sender: &crossbeam_channel::Sender<String>,
) -> (r: ActorAction)
    ensures
        text@ == "ConnectWSClient"@ && !old(state).linked ==> r
            == ActorAction::SpawnListenerAndAck && final(state).linked && *final(sub) == *old(
            sub),
        text@ == "ConnectWSClient"@ && old(state).linked ==> r == ActorAction::AckOnly && *final(
            state) == *old(state) && *final(sub) == *old(sub),
        text@ == "IMAGESUBSCRIBE"@ ==> r == (ActorAction::Subscribe {
            start_broadcaster: spec_subscribe_start(old(sub).broadcast_started).0,
        }) && final(sub).roster@ == old(sub).roster@.push(conn_id) && final(
            sub).broadcast_started && *final(state) == *old(state),
        text@ != "ConnectWSClient"@ && text@ != "IMAGESUBSCRIBE"@ ==> r
            == ActorAction::ForwardToBridge && *final(state) == *old(state) && *final(sub)
            == *old(sub),
{
    proof {
        reveal_strlit("ConnectWSClient");
        reveal_strlit("IMAGESUBSCRIBE");
        assert("ConnectWSClient"@.len() == 15);
        assert("IMAGESUBSCRIBE"@.len() == 14);
    }
    if str_eq(text, "ConnectWSClient") {
        if state.linked {
            ActorAction::AckOnly
        } else {
            state.linked = true;
            ActorAction::SpawnListenerAndAck
        }
    } else if str_eq(text, "IMAGESUBSCRIBE") {
        let start: bool = sub.subscribe(conn_id);
        ActorAction::Subscribe { start_broadcaster: start }
    } else {
        let _ = crate::link::send_timeout_ms(
            comm_sender,
            String::from_str(text),
            crate::link::SHORT_TIMEOUT_MS,
        );
        ActorAction::ForwardToBridge
    }
}

/// How many sweep/refresh ticks lie between two roster refreshes: the
/// broadcaster re-reads its configuration and prunes the roster every this
/// many iterations, not every tick, to bound lock contention.
pub const SWEEP_BATCH: u64 = 10;

/// The broadcaster's plan for one loop iteration.
#[derive(Clone, Copy, PartialEq, Eq, Structural, Debug)]
pub struct TickPlan {
    /// Re-read the refresh interval, sweep the roster, and re-read the
    /// pinned window and crop this iteration.
    pub refresh: bool,
    /// Capture one frame this iteration: subscribers are waiting and a
    /// window is pinned.
    pub capture: bool,
}

/// The broadcaster's decisions for one tick: refresh state every
/// `SWEEP_BATCH` iterations; capture (and then push to every roster entry)
/// exactly when the roster is non-empty and a window is pinned. A capture
/// against no pinned window is never planned.
pub fn plan_tick(counter: u64, roster_len: usize, selected_hwnd: isize) -> (r: TickPlan)
    ensures
        r.refresh == (counter % SWEEP_BATCH == 0),
        r.capture == (roster_len > 0 && selected_hwnd != 0),
{
    TickPlan {
        refresh: counter % SWEEP_BATCH == 0,
        capture: roster_len > 0 && selected_hwnd != 0,
    }
}

/// The number of true start flags handed out over `n` successive roster
/// registrations, the broadcaster flag being `started0` before the first.
pub open spec fn starts_returned(started0: bool, n: nat) -> int
    decreases n,
{
    if n == 0 {
        0
    } else {
        (if spec_subscribe_start(started0).0 {
            1int
        } else {
            0int
        }) + starts_returned(spec_subscribe_start(started0).1, (n - 1) as nat)
    }
}

/// After the subscribe command is issued by any number of distinct
/// connections, exactly one broadcaster worker is started, no matter how
/// many connections subscribe: over any run of successive registrations,
/// at most one returns a true start flag, and none does once the worker
/// already runs.
pub proof fn lemma_broadcaster_started_once(started0: bool, n: nat)
    ensures
        starts_returned(started0, n) <= if started0 {
            0int
        } else {
            1int
        },
        starts_returned(started0, n) >= 0,
    decreases n,
{
    if n > 0 {
        lemma_broadcaster_started_once(true, (n - 1) as nat);
    }
}

/// A subscriber whose transport reported closed is gone after the sweep:
/// it no longer stands in the roster, so no later push of the broadcaster,
/// which pushes to roster entries only, is attempted to it.
pub proof fn lemma_swept_subscriber_not_pushed(roster: Seq<u64>, closed: Seq<u64>, id: u64)
    requires
        closed.contains(id),
    ensures
        !roster.filter(|x: u64| !closed.contains(x)).contains(id),
{
    let pred = |x: u64| !closed.contains(x);
    let kept = roster.filter(pred);
    if kept.contains(id) {
        let i = choose|i: int| 0 <= i < kept.len() && kept[i] == id;
        roster.lemma_filter_pred(pred, i);
    }
}

} // verus!
