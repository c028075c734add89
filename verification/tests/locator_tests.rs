use reachfms::capture::{crop_args, encode_capture, CaptureError, RawFrame};
use reachfms::crop::CropRect;
use reachfms::instruments::{
    apply_selection, hide_all, make_instrument, plan_touch, restore_all, to_responses,
    TouchPlan, WindowAction, WindowCapture,
};
use reachfms::locator::{find_popup_windows, get_sim_hwnd, PopOutWindow, WindowInfo};

fn win(hwnd: isize, title: &str, owner: isize) -> WindowInfo {
    WindowInfo { hwnd, title: title.to_string(), owner }
}

fn sample_windows() -> Vec<WindowInfo> {
    vec![
        win(3, "Notepad", 0),
        win(5, "Microsoft Flight Simulator - 2020", 0),
        win(7, "WASMINSTRUMENT", 0),
        win(9, "PFD", 5),
        win(11, "Calculator", 3),
    ]
}

#[test]
fn sim_hwnd_found_by_title_prefix() {
    assert_eq!(get_sim_hwnd(&sample_windows()), 5);
    assert_eq!(get_sim_hwnd(&vec![win(3, "Notepad", 0)]), 0);
}

#[test]
fn discovery_classifies_popouts() {
    let r = find_popup_windows(&sample_windows()).unwrap();
    assert_eq!(r.len(), 2);
    assert_eq!(r[0].hwnd, 7);
    assert_eq!(r[0].title, "UNKNOWN");
    assert_eq!(r[1].hwnd, 9);
    assert_eq!(r[1].title, "PFD");
}

#[test]
fn discovery_without_sim_is_not_found() {
    let ls = vec![win(3, "Notepad", 0), win(7, "WASMINSTRUMENT", 0)];
    assert!(find_popup_windows(&ls).is_err());
}

#[test]
fn discovery_with_sim_but_no_popouts_is_empty() {
    let ls = vec![win(5, "Microsoft Flight Simulator - 2020", 0)];
    let r = find_popup_windows(&ls).unwrap();
    assert!(r.is_empty());
}

#[test]
fn instrument_record_defaults() {
    let pw = PopOutWindow { title: "PFD".to_string(), hwnd: 9 };
    let cap = WindowCapture { buf: vec![1, 2, 3], width: 300, height: 200 };
    let rgb = make_instrument(&pw, cap);
    assert_eq!(rgb.hwnd, 9);
    assert_eq!(rgb.instrument, "PFD");
    assert_eq!((rgb.width, rgb.height), (300, 200));
    assert_eq!(rgb.jpeg_bytes, vec![1, 2, 3]);
    assert!(rgb.auto_hide && !rgb.excluded && !rgb.selected);
    assert_eq!(rgb.crop, CropRect { x: 50, y: 0, width: 200, height: 200 });
}

#[test]
fn single_unknown_window_is_pinned_and_hidden() {
    let pw = PopOutWindow { title: "UNKNOWN".to_string(), hwnd: 7 };
    let cap = WindowCapture { buf: vec![], width: 100, height: 100 };
    let mut list = vec![make_instrument(&pw, cap)];
    let actions = apply_selection(&mut list, Some(true), None);
    assert_eq!(list[0].instrument, "FMS");
    assert!(list[0].selected);
    assert_eq!(actions, vec![WindowAction::Hide(7)]);
}

#[test]
fn explicit_selection_resizes_without_hiding() {
    let mk = |hwnd: isize, title: &str| {
        make_instrument(
            &PopOutWindow { title: title.to_string(), hwnd },
            WindowCapture { buf: vec![], width: 100, height: 100 },
        )
    };
    let mut list = vec![mk(7, "PFD"), mk(9, "ND")];
    let actions = apply_selection(&mut list, Some(false), Some(9));
    assert!(!list[0].selected);
    assert!(list[1].selected);
    assert_eq!(list[1].instrument, "ND");
    assert_eq!(actions, vec![WindowAction::ResizeInPlace { hwnd: 9, width: 700, height: 700 }]);
}

#[test]
fn selection_without_preference_changes_nothing() {
    let pw = PopOutWindow { title: "UNKNOWN".to_string(), hwnd: 7 };
    let cap = WindowCapture { buf: vec![], width: 100, height: 100 };
    let mut list = vec![make_instrument(&pw, cap)];
    let actions = apply_selection(&mut list, None, Some(7));
    assert!(actions.is_empty());
    assert_eq!(list[0].instrument, "UNKNOWN");
    assert!(!list[0].selected);
}

#[test]
fn restore_plan_moves_every_popout() {
    let (ok, actions) = restore_all(&sample_windows());
    assert!(ok);
    assert_eq!(
        actions,
        vec![
            WindowAction::Move { hwnd: 7, top: 0, left: 0, width: 700, height: 700 },
            WindowAction::Move { hwnd: 9, top: 0, left: 0, width: 700, height: 700 },
        ]
    );
    let (ok, actions) = restore_all(&vec![win(3, "Notepad", 0)]);
    assert!(!ok);
    assert!(actions.is_empty());
}

#[test]
fn hide_plan_hides_every_popout() {
    let (ok, actions) = hide_all(&sample_windows());
    assert!(ok);
    assert_eq!(actions, vec![WindowAction::Hide(7), WindowAction::Hide(9)]);
}

#[test]
fn responses_carry_fields_without_crop() {
    let pw = PopOutWindow { title: "PFD".to_string(), hwnd: 9 };
    let cap = WindowCapture { buf: vec![4, 5], width: 10, height: 20 };
    let list = vec![make_instrument(&pw, cap)];
    let resp = to_responses(&list);
    assert_eq!(resp.len(), 1);
    assert_eq!(resp[0].hwnd, 9);
    assert_eq!(resp[0].instrument, "PFD");
    assert_eq!(resp[0].jpeg_bytes, vec![4, 5]);
    assert_eq!((resp[0].width, resp[0].height), (10, 20));
}

#[test]
fn touch_plan_computes_screen_coordinates() {
    let p = plan_touch(10, 20, 42, 100, 200, 110, 220, 1920, 1080);
    assert_eq!(
        p.unwrap(),
        TouchPlan {
            move_x: 110,
            move_y: 220,
            abs_x: 110 * 65536 / 1920,
            abs_y: 220 * 65536 / 1080,
        }
    );
    assert!(plan_touch(10, 20, 0, 100, 200, 110, 220, 1920, 1080).is_none());
}

#[test]
fn capture_fails_without_frame() {
    assert!(matches!(encode_capture(None), Err(CaptureError::Window)));
}

#[test]
fn capture_rejects_malformed_frame() {
    let bad = RawFrame { pixels: vec![0; 10], width: 2, height: 2 };
    assert!(matches!(encode_capture(Some(bad)), Err(CaptureError::Encode)));
    let zero = RawFrame { pixels: vec![], width: 0, height: 0 };
    assert!(matches!(encode_capture(Some(zero)), Err(CaptureError::Encode)));
}

#[test]
fn capture_encodes_pixels_losslessly() {
    let pixels: Vec<u8> = vec![
        255, 0, 0, 255, 0, 255, 0, 255, //
        0, 0, 255, 255, 255, 255, 255, 255,
    ];
    let frame = RawFrame { pixels: pixels.clone(), width: 2, height: 2 };
    let cap = encode_capture(Some(frame)).unwrap();
    assert_eq!((cap.width, cap.height), (2, 2));
    // Decode what came out: pixel-exact round trip through the encoder.
    let decoder = png::Decoder::new(std::io::Cursor::new(cap.buf));
    let mut reader = decoder.read_info().unwrap();
    let mut out = vec![0u8; reader.output_buffer_size().unwrap()];
    let info = reader.next_frame(&mut out).unwrap();
    assert_eq!((info.width, info.height), (2, 2));
    assert_eq!(&out[..info.buffer_size()], &pixels[..]);
}

#[test]
fn crop_args_zero_is_no_crop() {
    let z = CropRect { x: 0, y: 0, width: 0, height: 0 };
    assert_eq!(crop_args(&z), (None, None));
    let c = CropRect { x: 5, y: 6, width: 7, height: 8 };
    assert_eq!(crop_args(&c), (Some((5, 6)), Some((7, 8))));
    let half = CropRect { x: 0, y: 0, width: 7, height: 8 };
    assert_eq!(crop_args(&half), (None, Some((7, 8))));
}
