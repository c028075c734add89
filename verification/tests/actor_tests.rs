use crossbeam_channel::bounded;
use reachfms::actor::{
    dispatch_text, plan_tick, translate_push, ActorAction, ActorState, PushDecision,
    SubscriptionState,
};
use reachfms::crop::CropRect;

#[test]
fn push_translation_cases() {
    assert_eq!(translate_push("CloseBridge"), PushDecision::CloseAndStop);
    assert_eq!(translate_push("BridgeStatus"), PushDecision::Forward("STATUS".to_string()));
    assert_eq!(translate_push("GetAircraft"), PushDecision::Forward("GET_AIRCRAFT".to_string()));
    assert_eq!(
        translate_push("SM_SEND:CMD_BTN:BTN_A"),
        PushDecision::Forward("CMD_BTN:BTN_A".to_string())
    );
    assert_eq!(translate_push("something else"), PushDecision::Ignore);
    // The send marker counts only at the front of the message.
    assert_eq!(translate_push("XSM_SEND:Y"), PushDecision::Ignore);
}

#[test]
fn handshake_spawns_listener_once() {
    let (cmd_s, _cmd_r) = bounded::<String>(4);
    let mut st = ActorState::new();
    let mut sub = SubscriptionState::new();
    let first = dispatch_text(&mut st, &mut sub, 1, "ConnectWSClient", &cmd_s);
    assert_eq!(first, ActorAction::SpawnListenerAndAck);
    assert!(st.linked);
    let second = dispatch_text(&mut st, &mut sub, 1, "ConnectWSClient", &cmd_s);
    assert_eq!(second, ActorAction::AckOnly);
}

#[test]
fn n_subscribers_start_one_broadcaster() {
    let (cmd_s, _cmd_r) = bounded::<String>(4);
    let mut sub = SubscriptionState::new();
    let mut starts = 0;
    for id in 0..5u64 {
        let mut st = ActorState::new();
        let action = dispatch_text(&mut st, &mut sub, id, "IMAGESUBSCRIBE", &cmd_s);
        match action {
            ActorAction::Subscribe { start_broadcaster } => {
                if start_broadcaster {
                    starts += 1;
                }
            }
            other => panic!("unexpected action {:?}", other),
        }
    }
    assert_eq!(starts, 1);
    assert!(sub.broadcast_started);
    assert_eq!(sub.roster, vec![0, 1, 2, 3, 4]);
}

#[test]
fn other_text_forwards_to_bridge_channel() {
    let (cmd_s, cmd_r) = bounded::<String>(4);
    let mut st = ActorState::new();
    let mut sub = SubscriptionState::new();
    let action = dispatch_text(&mut st, &mut sub, 1, "STATUS:TRUE", &cmd_s);
    assert_eq!(action, ActorAction::ForwardToBridge);
    assert_eq!(cmd_r.try_recv().unwrap(), "STATUS:TRUE");
}

#[test]
fn sweep_removes_closed_subscribers() {
    let mut sub = SubscriptionState::new();
    sub.subscribe(1);
    sub.subscribe(2);
    sub.subscribe(3);
    sub.subscribe(2);
    sub.sweep(&vec![2]);
    assert_eq!(sub.roster, vec![1, 3]);
    // A swept subscriber gets no further push: it is simply not a roster
    // entry any more, and pushes go to roster entries only.
    assert!(!sub.roster.contains(&2));
    sub.sweep(&vec![]);
    assert_eq!(sub.roster, vec![1, 3]);
}

#[test]
fn select_window_pins_handle_and_crop() {
    let mut sub = SubscriptionState::new();
    assert_eq!(sub.selected_hwnd, 0);
    let crop = CropRect { x: 1, y: 2, width: 3, height: 4 };
    sub.select_window(42, crop);
    assert_eq!(sub.selected_hwnd, 42);
    assert_eq!(sub.active_crop, crop);
}

#[test]
fn tick_plan_batches_refresh_and_guards_capture() {
    let p = plan_tick(500, 2, 42);
    assert!(p.refresh);
    assert!(p.capture);
    let p = plan_tick(501, 2, 42);
    assert!(!p.refresh);
    // No subscribers: no capture.
    assert!(!plan_tick(0, 0, 42).capture);
    // Nothing pinned: a capture attempt must not be planned.
    assert!(!plan_tick(0, 3, 0).capture);
}
