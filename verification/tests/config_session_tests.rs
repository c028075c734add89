use reachfms::actor::SubscriptionState;
use reachfms::addon::{AddonConfig, AircraftAddon, ButtonAction};
use reachfms::config::{
    apply_min_capture_ms, apply_settings_params, parse_bool_or, parse_u16_or, ConfigHandler,
};
use reachfms::crop::CropRect;
use reachfms::instruments::{make_instrument, WindowCapture};
use reachfms::locator::PopOutWindow;
use reachfms::net::url_for_ip;
use reachfms::paths::{
    community_from_usercfg, find_from, get_addon_config, get_config_file,
    get_file_in_exe_folder, get_log_file, get_qr_file, get_simconnector_exe,
    get_simconnector_folder, get_static_folder, mobiflight_installed,
};
use reachfms::session::{select_by_hwnd, update_instrument_flags, update_selection_from_discovery};

fn defaults() -> ConfigHandler {
    ConfigHandler::init("http://10.0.0.2:5273".to_string())
}

#[test]
fn init_defaults() {
    let c = defaults();
    assert_eq!(c.local_ip, "http://10.0.0.2:5273");
    assert!(c.auto_hide && c.max_fps && c.multiple_displays);
    assert!(!c.cpu_displays && !c.auto_start && !c.calibrated && !c.log_enabled);
    assert_eq!(c.refresh_rate, 200);
}

#[test]
fn apply_loaded_keeps_address() {
    let mut c = defaults();
    let mut loaded = defaults();
    loaded.local_ip = "http://10.9.9.9:5273".to_string();
    loaded.refresh_rate = 120;
    loaded.auto_hide = false;
    c.apply_loaded(&loaded);
    assert_eq!(c.local_ip, "http://10.0.0.2:5273");
    assert_eq!(c.refresh_rate, 120);
    assert!(!c.auto_hide);
}

#[test]
fn settings_params_defaults_and_clamp() {
    let mut c = defaults();
    apply_settings_params(&mut c, Some("30"), Some("false"), None, Some("bogus"), None, Some("true"));
    assert_eq!(c.refresh_rate, 50);
    assert!(!c.auto_hide);
    assert!(c.max_fps);
    assert!(c.multiple_displays);
    assert!(!c.cpu_displays);
    assert!(c.auto_start);
    apply_settings_params(&mut c, Some("abc"), None, None, None, None, None);
    assert_eq!(c.refresh_rate, 200);
    assert!(c.auto_hide);
}

#[test]
fn min_capture_interval_truncates_and_clamps() {
    let mut c = defaults();
    apply_min_capture_ms(&mut c, Some("5"));
    assert_eq!(c.refresh_rate, 10);
    apply_min_capture_ms(&mut c, Some("70000"));
    assert_eq!(c.refresh_rate, (70000u32 % 65536) as u16);
    apply_min_capture_ms(&mut c, None);
    assert_eq!(c.refresh_rate, 10);
    apply_min_capture_ms(&mut c, Some("500"));
    assert_eq!(c.refresh_rate, 500);
}

#[test]
fn bool_and_u16_params() {
    assert!(parse_bool_or(Some("true"), false));
    assert!(!parse_bool_or(Some("false"), true));
    assert!(parse_bool_or(Some("junk"), true));
    assert!(!parse_bool_or(None, false));
    assert_eq!(parse_u16_or(Some("123"), 7), 123);
    assert_eq!(parse_u16_or(Some("99999"), 7), 7);
    assert_eq!(parse_u16_or(None, 7), 7);
}

#[test]
fn enable_logging_sets_flag_only() {
    let mut c = defaults();
    c.enable_logging();
    assert!(c.log_enabled);
    assert_eq!(c.refresh_rate, 200);
}

fn table_with_nd() -> AddonConfig {
    AddonConfig {
        aircraft_addons: vec![AircraftAddon {
            title: "a320".to_string(),
            display: "".to_string(),
            button_actions: vec![ButtonAction {
                button: "B".to_string(),
                lvar: "V".to_string(),
            }],
            svg_image: "x.svg".to_string(),
            output_vars: vec![],
            fms_aspect_milli: 866,
            display_width: 1,
            display_top: 0,
            display_left: 0,
            custom_popout: vec!["ND".to_string()],
            touch_enabled: false,
            last_updated: "".to_string(),
        }],
        version: 1,
        app_version: 1,
        updated: "".to_string(),
    }
}

fn rgb(hwnd: isize, title: &str) -> reachfms::instruments::InstrumentRgb {
    make_instrument(
        &PopOutWindow { title: title.to_string(), hwnd },
        WindowCapture { buf: vec![], width: 100, height: 120 },
    )
}

#[test]
fn discovery_pins_custom_popout() {
    let cfg = table_with_nd();
    let mut sub = SubscriptionState::new();
    let mut search = String::new();
    let windows = vec![rgb(7, "Other"), rgb(9, "ND")];
    let popouts = cfg.popout_list();
    update_selection_from_discovery(&mut sub, &mut search, &cfg, &windows, "My A320", &popouts);
    assert_eq!(sub.selected_hwnd, 9);
    assert_eq!(search, "ND");
    // The table crop is computed at the canonical 700 x 700 pop-out size.
    assert_eq!(sub.active_crop, CropRect { x: 0, y: 47, width: 700, height: 606 });
}

#[test]
fn discovery_single_window_uses_aircraft_key() {
    let cfg = table_with_nd();
    let mut sub = SubscriptionState::new();
    let mut search = String::new();
    let windows = vec![rgb(7, "UNKNOWN")];
    update_selection_from_discovery(&mut sub, &mut search, &cfg, &windows, "My A320", &vec![]);
    assert_eq!(sub.selected_hwnd, 7);
    assert_eq!(search, "My A320");
}

#[test]
fn discovery_without_match_changes_nothing() {
    let cfg = table_with_nd();
    let mut sub = SubscriptionState::new();
    let mut search = "before".to_string();
    let windows = vec![rgb(7, "Other"), rgb(9, "AlsoOther")];
    update_selection_from_discovery(&mut sub, &mut search, &cfg, &windows, "My A320", &vec![]);
    assert_eq!(sub.selected_hwnd, 0);
    assert_eq!(search, "before");
}

#[test]
fn explicit_handle_selection() {
    let cfg = table_with_nd();
    let mut sub = SubscriptionState::new();
    let mut search = String::new();
    let windows = vec![rgb(7, "PFD"), rgb(9, "FMS")];
    assert!(select_by_hwnd(&mut sub, &mut search, &cfg, &windows, "My A320", 9));
    assert_eq!(sub.selected_hwnd, 9);
    // The generic control-display tag falls back to the aircraft name.
    assert_eq!(search, "My A320");
    assert!(!select_by_hwnd(&mut sub, &mut search, &cfg, &windows, "My A320", 1234));
    assert_eq!(sub.selected_hwnd, 9);
}

#[test]
fn flag_edit_touches_first_match_only() {
    let mut list = vec![rgb(7, "PFD"), rgb(9, "ND"), rgb(9, "ND2")];
    assert!(update_instrument_flags(&mut list, 9, Some(false), Some(true)));
    assert!(list[0].auto_hide && !list[0].excluded);
    assert!(!list[1].auto_hide && list[1].excluded);
    assert!(list[2].auto_hide && !list[2].excluded);
    assert!(!update_instrument_flags(&mut list, 1234, Some(true), None));
}

#[test]
fn exe_relative_paths() {
    assert_eq!(get_static_folder("C:\\app"), "C:\\app\\static");
    assert_eq!(get_addon_config("C:\\app"), "C:\\app\\static\\addon_config.json");
    assert_eq!(get_simconnector_exe("C:\\app"), "C:\\app\\SimConnector\\SimConnector.exe");
    assert_eq!(get_simconnector_folder("C:\\app"), "C:\\app\\SimConnector");
    assert_eq!(get_config_file("C:\\app"), "C:\\app\\data\\config.json");
    assert_eq!(get_qr_file("C:\\app"), "C:\\app\\data\\qr.png");
    assert_eq!(get_log_file("C:\\app"), "C:\\app\\reachfms.log");
    assert_eq!(
        get_file_in_exe_folder("C:\\app", &vec!["static".to_string(), "a.svg".to_string()]),
        "C:\\app\\static\\a.svg"
    );
    assert_eq!(get_file_in_exe_folder("C:\\app", &vec![]), "C:\\app");
}

#[test]
fn existence_checks_on_missing_paths() {
    assert!(!ConfigHandler::is_data_created("Z:\\no_such_dir_reachfms"));
    assert!(!ConfigHandler::is_config_created("Z:\\no_such_dir_reachfms"));
    assert!(!mobiflight_installed("Z:\\no_such_dir_reachfms"));
}

#[test]
fn community_folder_from_usercfg() {
    let content = "Version 1\nInstalledPackagesPath \"D:\\MSFS Packages\"\nOther 2\n";
    let r = community_from_usercfg(content).unwrap();
    assert_eq!(r, "D:\\MSFS Packages\\Community");
    assert!(community_from_usercfg("nothing here").is_none());
    assert!(community_from_usercfg("InstalledPackagesPath no quotes").is_none());
}

#[test]
fn find_from_returns_first_occurrence() {
    assert_eq!(find_from("abcabc", "bc", 0), Some(1));
    assert_eq!(find_from("abcabc", "bc", 2), Some(4));
    assert_eq!(find_from("abcabc", "zz", 0), None);
    assert_eq!(find_from("abc", "abcd", 0), None);
}

#[test]
fn viewer_url_shape() {
    assert_eq!(url_for_ip("10.0.0.2"), "http://10.0.0.2:5273");
    for u in reachfms::config::ConfigHandler::get_all_local_ip() {
        assert!(u.starts_with("http://"));
        assert!(u.ends_with(":5273"));
    }
}
