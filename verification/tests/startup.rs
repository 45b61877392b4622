use whatsapp_web_wrapper::startup::{
    finish_startup, is_autostart_launch, should_start_hidden, window_setup, Size, WindowSetup,
    AUTOSTART_ARG,
};
use whatsapp_web_wrapper::{AppState, TrayTracker, WindowAction};

fn args(list: &[&str]) -> Vec<String> {
    list.iter().map(|s| s.to_string()).collect()
}

#[test]
fn autostart_marker() {
    assert_eq!(AUTOSTART_ARG, "--autostart");
    assert!(is_autostart_launch(&args(&["/usr/bin/whatsapp", "--autostart"])));
    assert!(!is_autostart_launch(&args(&["/usr/bin/whatsapp"])));
    assert!(!is_autostart_launch(&args(&[])));
    assert!(!is_autostart_launch(&args(&["--autostart=1", "autostart"])));
}

#[test]
fn start_hidden_rules() {
    let d = AppState::default();
    assert!(should_start_hidden(&d, true));
    assert!(!should_start_hidden(&d, false));
    let manual = AppState {
        start_in_background_on_boot: false,
        start_in_background_on_manual_launch: true,
        ..d
    };
    assert!(!should_start_hidden(&manual, true));
    assert!(should_start_hidden(&manual, false));
}

#[test]
fn setup_with_stored_size() {
    let s = AppState { width: 900, height: 700, ..AppState::default() };
    assert_eq!(
        window_setup(&s, &args(&["app"])),
        WindowSetup {
            maximized: false,
            inner_size: Some(Size { width: 900, height: 700 }),
            start_hidden: false
        }
    );
}

#[test]
fn setup_maximized_at_boot() {
    let s = AppState { maximized: true, ..AppState::default() };
    assert_eq!(
        window_setup(&s, &args(&["app", "--autostart"])),
        WindowSetup { maximized: true, inner_size: None, start_hidden: true }
    );
}

#[test]
fn finish_marks_hidden_start() {
    let mut t = TrayTracker::new();
    let shown = WindowSetup { maximized: false, inner_size: None, start_hidden: false };
    assert!(finish_startup(&mut t, &shown).is_empty());
    assert!(!t.hidden_in_tray);
    let hidden = WindowSetup { maximized: false, inner_size: None, start_hidden: true };
    assert_eq!(finish_startup(&mut t, &hidden), vec![WindowAction::SetSkipTaskbar(true)]);
    assert!(t.hidden_in_tray);
}

#[test]
fn fresh_install_startup() {
    let d = AppState::default();
    let size = Some(Size { width: 1100, height: 750 });
    assert_eq!(
        window_setup(&d, &args(&["app", "--autostart"])),
        WindowSetup { maximized: false, inner_size: size, start_hidden: true }
    );
    assert_eq!(
        window_setup(&d, &args(&["app"])),
        WindowSetup { maximized: false, inner_size: size, start_hidden: false }
    );
}

#[test]
fn hidden_start_then_toggle_restores() {
    let mut t = TrayTracker::new();
    let plan = window_setup(&AppState::default(), &args(&["app", "--autostart"]));
    finish_startup(&mut t, &plan);
    let actions = whatsapp_web_wrapper::toggle_main_window(&mut t, true);
    assert_eq!(actions[1], whatsapp_web_wrapper::WindowAction::Show);
    assert!(!t.hidden_in_tray);
}

#[test]
fn geometry_restored_next_session() {
    let mut s = AppState::default();
    whatsapp_web_wrapper::update_geometry(&mut s, 1366, 768, false);
    let next = AppState::from_file(Some(s.to_stored()));
    let plan = window_setup(&next, &args(&["app"]));
    assert_eq!(plan.inner_size, Some(Size { width: 1366, height: 768 }));
    assert!(!plan.maximized);
    whatsapp_web_wrapper::update_geometry(&mut s, 1366, 768, true);
    let next = AppState::from_file(Some(s.to_stored()));
    let plan = window_setup(&next, &args(&["app"]));
    assert_eq!(plan.inner_size, None);
    assert!(plan.maximized);
}
