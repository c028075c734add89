use crossbeam_channel::bounded;
use reachfms::bridge::{apply_status_reply, supervisor_start, BridgeStatus, StartOutcome, StopOutcome};
use reachfms::link::{
    apply_aircraft_reply, apply_tagged_reply, get_aircraft, get_status, get_var, reconnect,
    stop_bridge,
};

fn fresh_status() -> BridgeStatus {
    BridgeStatus { started: false, connected: false, comm: false }
}

#[test]
fn status_timeout_clears_comm_only() {
    let (cmd_s, _cmd_r) = bounded::<String>(4);
    let (_rep_s, rep_r) = bounded::<String>(4);
    let mut st = BridgeStatus { started: true, connected: true, comm: true };
    get_status(&mut st, &cmd_s, &rep_r);
    assert_eq!(st, BridgeStatus { started: true, connected: true, comm: false });
}

#[test]
fn status_two_timeouts_then_fresh_round_trip() {
    // Two consecutive timed-out rounds leave {started, false, false} ...
    let (cmd_s, cmd_r) = bounded::<String>(8);
    let (rep_s, rep_r) = bounded::<String>(8);
    let mut st = BridgeStatus { started: true, connected: false, comm: false };
    get_status(&mut st, &cmd_s, &rep_r);
    get_status(&mut st, &cmd_s, &rep_r);
    assert_eq!(st, BridgeStatus { started: true, connected: false, comm: false });
    // ... and the next call still attempts a fresh round-trip instead of
    // short-circuiting: with a reply queued it reports connected.
    rep_s.send("STATUS:TRUE".to_string()).unwrap();
    get_status(&mut st, &cmd_s, &rep_r);
    assert_eq!(st, BridgeStatus { started: true, connected: true, comm: true });
    // Each round sent its own request.
    let mut sent = 0;
    while cmd_r.try_recv().is_ok() {
        sent += 1;
    }
    assert_eq!(sent, 3);
}

#[test]
fn status_reply_words_drive_connected() {
    let mut st = fresh_status();
    apply_status_reply(&mut st, Some(&"STATUS:TRUE".to_string()));
    assert_eq!(st, BridgeStatus { started: false, connected: true, comm: true });
    apply_status_reply(&mut st, Some(&"STATUS:FALSE".to_string()));
    assert_eq!(st, BridgeStatus { started: false, connected: false, comm: true });
    apply_status_reply(&mut st, Some(&"garbled".to_string()));
    assert_eq!(st, BridgeStatus { started: false, connected: false, comm: true });
    apply_status_reply(&mut st, None);
    assert_eq!(st, BridgeStatus { started: false, connected: false, comm: false });
}

#[test]
fn var_query_timeout_then_success_same_link() {
    let (cmd_s, _cmd_r) = bounded::<String>(8);
    let (rep_s, rep_r) = bounded::<String>(8);
    // No reply: the call returns the timeout sentinel instead of hanging.
    let r = reconnect(&cmd_s, &rep_r);
    assert_eq!(r, "ERROR");
    // The same link still works once the bridge answers.
    rep_s.send("VAR:42".to_string()).unwrap();
    let v = get_var("A:TEST", &cmd_s, &rep_r);
    assert_eq!(v, "42");
}

#[test]
fn per_poll_reply_decisions() {
    // The tagged round-trips: any reply ends the wait, tag stripped off
    // the front when present; no reply means keep waiting.
    assert_eq!(
        apply_tagged_reply(Some(&"RECONNECT:ok".to_string()), "RECONNECT:"),
        Some("ok".to_string())
    );
    assert_eq!(
        apply_tagged_reply(Some(&"plain".to_string()), "RECONNECT:"),
        Some("plain".to_string())
    );
    assert_eq!(apply_tagged_reply(None, "VAR:"), None);
    // The aircraft query: only a tagged reply ends the wait.
    assert_eq!(
        apply_aircraft_reply(Some(&"AIRCRAFT:B748".to_string())),
        Some("B748".to_string())
    );
    assert_eq!(apply_aircraft_reply(Some(&"noise".to_string())), None);
    assert_eq!(apply_aircraft_reply(None), None);
}

#[test]
fn get_vars_strips_bulk_tag() {
    let (cmd_s, _cmd_r) = bounded::<String>(8);
    let (rep_s, rep_r) = bounded::<String>(8);
    rep_s.send("VARS:A_VAR,B_VAR".to_string()).unwrap();
    assert_eq!(reachfms::link::get_vars(&cmd_s, &rep_r), "A_VAR,B_VAR");
}

#[test]
fn get_aircraft_skips_noise_and_strips_tag() {
    let (cmd_s, _cmd_r) = bounded::<String>(8);
    let (rep_s, rep_r) = bounded::<String>(8);
    rep_s.send("noise".to_string()).unwrap();
    rep_s.send("AIRCRAFT:B748".to_string()).unwrap();
    let a = get_aircraft(&cmd_s, &rep_r);
    assert_eq!(a, "B748");
}

#[test]
fn get_aircraft_times_out_to_empty() {
    let (cmd_s, _cmd_r) = bounded::<String>(8);
    let (_rep_s, rep_r) = bounded::<String>(8);
    let a = get_aircraft(&cmd_s, &rep_r);
    assert_eq!(a, "");
}

#[test]
fn reconnect_strips_tag_or_passes_reply() {
    let (cmd_s, _cmd_r) = bounded::<String>(8);
    let (rep_s, rep_r) = bounded::<String>(8);
    rep_s.send("RECONNECT:done".to_string()).unwrap();
    assert_eq!(reconnect(&cmd_s, &rep_r), "done");
    rep_s.send("odd reply".to_string()).unwrap();
    assert_eq!(reconnect(&cmd_s, &rep_r), "odd reply");
}

#[test]
fn supervisor_start_is_idempotent() {
    let mut st = fresh_status();
    assert_eq!(supervisor_start(&mut st, false), StartOutcome::Started);
    assert!(st.started);
    let before = st;
    assert_eq!(supervisor_start(&mut st, true), StartOutcome::AlreadyRunning);
    assert_eq!(st, before);
}

#[test]
fn stop_bridge_sends_close_once_running() {
    let (cmd_s, cmd_r) = bounded::<String>(4);
    let mut st = BridgeStatus { started: true, connected: true, comm: true };
    assert_eq!(stop_bridge(&mut st, true, &cmd_s), StopOutcome::SentClose);
    assert!(!st.started);
    assert_eq!(cmd_r.try_recv().unwrap(), "CloseBridge");
    // Stopping again reports not-running and sends nothing.
    assert_eq!(stop_bridge(&mut st, false, &cmd_s), StopOutcome::NotRunning);
    assert!(cmd_r.try_recv().is_err());
}
