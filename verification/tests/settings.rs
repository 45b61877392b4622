use whatsapp_web_wrapper::settings::{set_setting, STATE_FILE};
use whatsapp_web_wrapper::{
    default_height, default_true, default_width, set_dark_tray_icon,
    set_start_in_background_on_boot, set_start_in_background_on_manual_launch, update_geometry,
    AppState, Setting, StoredSettings,
};

fn empty() -> StoredSettings {
    StoredSettings {
        width: None,
        height: None,
        maximized: None,
        start_in_background_on_boot: None,
        start_in_background_on_manual_launch: None,
        dark_tray_icon: None,
    }
}

#[test]
fn defaults_have_the_documented_values() {
    assert_eq!(default_width(), 1100);
    assert_eq!(default_height(), 750);
    assert!(default_true());
    let d = AppState::default();
    assert_eq!(
        d,
        AppState {
            width: 1100,
            height: 750,
            maximized: false,
            start_in_background_on_boot: true,
            start_in_background_on_manual_launch: false,
            dark_tray_icon: false,
        }
    );
}

#[test]
fn state_file_name() {
    assert_eq!(STATE_FILE, "window-state.json");
}

#[test]
fn empty_file_gives_defaults() {
    assert_eq!(AppState::from_stored(empty()), AppState::default());
}

#[test]
fn missing_fields_take_their_defaults() {
    let stored = StoredSettings { width: Some(800), dark_tray_icon: Some(true), ..empty() };
    let s = AppState::from_stored(stored);
    assert_eq!(s.width, 800);
    assert_eq!(s.height, 750);
    assert!(!s.maximized);
    assert!(s.start_in_background_on_boot);
    assert!(!s.start_in_background_on_manual_launch);
    assert!(s.dark_tray_icon);
}

#[test]
fn stored_boot_preference_false_is_kept() {
    let stored = StoredSettings { start_in_background_on_boot: Some(false), ..empty() };
    assert!(!AppState::from_stored(stored).start_in_background_on_boot);
}

#[test]
fn unreadable_file_gives_defaults() {
    assert_eq!(AppState::from_file(None), AppState::default());
}

#[test]
fn readable_file_is_used() {
    let stored = StoredSettings { height: Some(600), maximized: Some(true), ..empty() };
    let s = AppState::from_file(Some(stored));
    assert_eq!(s.height, 600);
    assert!(s.maximized);
    assert_eq!(s.width, 1100);
}

#[test]
fn stored_round_trip() {
    let s = AppState {
        width: 1920,
        height: 1080,
        maximized: true,
        start_in_background_on_boot: false,
        start_in_background_on_manual_launch: true,
        dark_tray_icon: true,
    };
    let stored = s.to_stored();
    assert_eq!(stored.width, Some(1920));
    assert_eq!(stored.dark_tray_icon, Some(true));
    assert_eq!(AppState::from_stored(stored), s);
}

#[test]
fn update_geometry_keeps_preferences() {
    let mut s = AppState { dark_tray_icon: true, ..AppState::default() };
    update_geometry(&mut s, 640, 480, true);
    assert_eq!(s.width, 640);
    assert_eq!(s.height, 480);
    assert!(s.maximized);
    assert!(s.dark_tray_icon);
    assert!(s.start_in_background_on_boot);
}

#[test]
fn setters_change_one_field() {
    let mut s = AppState::default();
    set_start_in_background_on_boot(&mut s, false);
    assert_eq!(s, AppState { start_in_background_on_boot: false, ..AppState::default() });
    set_start_in_background_on_manual_launch(&mut s, true);
    assert!(s.start_in_background_on_manual_launch);
    set_dark_tray_icon(&mut s, true);
    assert!(s.dark_tray_icon);
    assert_eq!(s.width, 1100);
}

#[test]
fn set_setting_and_read_back() {
    let mut s = AppState::default();
    set_setting(&mut s, Setting::DarkTrayIcon, true);
    assert!(s.setting(Setting::DarkTrayIcon));
    assert!(s.setting(Setting::StartInBackgroundOnBoot));
    assert!(!s.setting(Setting::StartInBackgroundOnManualLaunch));
}

#[test]
fn last_write_wins() {
    let mut s = AppState::default();
    set_setting(&mut s, Setting::StartInBackgroundOnManualLaunch, true);
    set_setting(&mut s, Setting::StartInBackgroundOnManualLaunch, false);
    assert_eq!(s, AppState::default());
}

#[test]
fn preferences_commute() {
    let mut a = AppState::default();
    set_setting(&mut a, Setting::DarkTrayIcon, true);
    set_setting(&mut a, Setting::StartInBackgroundOnBoot, false);
    let mut b = AppState::default();
    set_setting(&mut b, Setting::StartInBackgroundOnBoot, false);
    set_setting(&mut b, Setting::DarkTrayIcon, true);
    assert_eq!(a, b);
}
