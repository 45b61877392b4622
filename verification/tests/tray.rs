use whatsapp_web_wrapper::tray::{
    autostart_change, autostart_checked, flip_setting, menu_command, menu_id_text, menu_label,
    on_tray_icon_event, parse_menu_id, quit_plan, tray_icon, tray_menu, AutostartChange,
    MenuCommand, MenuEntry, MenuId, MouseButton, MouseButtonState, TrayIcon, TrayIconEvent,
    QUIT_EXIT_CODE, SHOW_MENU_ON_LEFT_CLICK, TRAY_ID, TRAY_TOOLTIP,
};
use whatsapp_web_wrapper::{AppState, Setting, TrayTracker, WindowAction};

const ALL: [MenuId; 6] = [
    MenuId::Toggle,
    MenuId::Autostart,
    MenuId::BackgroundOnBoot,
    MenuId::BackgroundOnManual,
    MenuId::DarkTrayIcon,
    MenuId::Quit,
];

#[test]
fn tray_constants() {
    assert_eq!(TRAY_ID, "main-tray");
    assert_eq!(TRAY_TOOLTIP, "WhatsApp");
    assert!(!SHOW_MENU_ON_LEFT_CLICK);
    assert_eq!(QUIT_EXIT_CODE, 0);
}

#[test]
fn icon_follows_preference() {
    assert_eq!(tray_icon(true), TrayIcon::Dark);
    assert_eq!(tray_icon(false), TrayIcon::White);
}

#[test]
fn menu_ids_and_labels() {
    assert_eq!(menu_id_text(MenuId::Toggle), "toggle");
    assert_eq!(menu_id_text(MenuId::Autostart), "autostart");
    assert_eq!(menu_id_text(MenuId::BackgroundOnBoot), "background_on_boot");
    assert_eq!(menu_id_text(MenuId::BackgroundOnManual), "background_on_manual");
    assert_eq!(menu_id_text(MenuId::DarkTrayIcon), "dark_tray_icon");
    assert_eq!(menu_id_text(MenuId::Quit), "quit");
    assert_eq!(menu_label(MenuId::Toggle), "Show/Hide");
    assert_eq!(menu_label(MenuId::Autostart), "Start on Boot");
    assert_eq!(menu_label(MenuId::BackgroundOnBoot), "Start in Background on Boot");
    assert_eq!(menu_label(MenuId::BackgroundOnManual), "Start in Background on Manual Launch");
    assert_eq!(menu_label(MenuId::DarkTrayIcon), "Dark Tray Icon");
    assert_eq!(menu_label(MenuId::Quit), "Quit");
}

#[test]
fn menu_id_round_trip() {
    for id in ALL {
        assert_eq!(parse_menu_id(menu_id_text(id)), Some(id));
    }
    assert_eq!(parse_menu_id("Quit"), None);
    assert_eq!(parse_menu_id(""), None);
    assert_eq!(parse_menu_id("toggle "), None);
}

#[test]
fn menu_layout_mirrors_settings() {
    let s = AppState { dark_tray_icon: true, ..AppState::default() };
    let menu = tray_menu(&s, Some(true));
    assert_eq!(
        menu,
        vec![
            MenuEntry::Item(MenuId::Toggle),
            MenuEntry::Separator,
            MenuEntry::Check(MenuId::Autostart, true),
            MenuEntry::Check(MenuId::BackgroundOnBoot, true),
            MenuEntry::Check(MenuId::BackgroundOnManual, false),
            MenuEntry::Separator,
            MenuEntry::Check(MenuId::DarkTrayIcon, true),
            MenuEntry::Separator,
            MenuEntry::Item(MenuId::Quit),
        ]
    );
}

#[test]
fn failed_autostart_query_counts_as_off() {
    assert!(!autostart_checked(None));
    assert!(!autostart_checked(Some(false)));
    assert!(autostart_checked(Some(true)));
    let menu = tray_menu(&AppState::default(), None);
    assert_eq!(menu[2], MenuEntry::Check(MenuId::Autostart, false));
}

#[test]
fn menu_commands() {
    assert_eq!(menu_command("toggle"), Some(MenuCommand::ToggleWindow));
    assert_eq!(menu_command("autostart"), Some(MenuCommand::ToggleAutostart));
    assert_eq!(
        menu_command("background_on_boot"),
        Some(MenuCommand::Flip(Setting::StartInBackgroundOnBoot))
    );
    assert_eq!(
        menu_command("background_on_manual"),
        Some(MenuCommand::Flip(Setting::StartInBackgroundOnManualLaunch))
    );
    assert_eq!(menu_command("dark_tray_icon"), Some(MenuCommand::Flip(Setting::DarkTrayIcon)));
    assert_eq!(menu_command("quit"), Some(MenuCommand::Quit));
    assert_eq!(menu_command("main-tray"), None);
}

#[test]
fn autostart_switches() {
    assert_eq!(autostart_change(Some(true)), AutostartChange::Disable);
    assert_eq!(autostart_change(Some(false)), AutostartChange::Enable);
    assert_eq!(autostart_change(None), AutostartChange::Enable);
}

#[test]
fn flips() {
    let s = AppState::default();
    let f = flip_setting(&s, Setting::StartInBackgroundOnBoot);
    assert_eq!(f.which, Setting::StartInBackgroundOnBoot);
    assert!(!f.value);
    assert_eq!(f.new_icon, None);
    let f = flip_setting(&s, Setting::DarkTrayIcon);
    assert!(f.value);
    assert_eq!(f.new_icon, Some(TrayIcon::Dark));
    let dark = AppState { dark_tray_icon: true, ..s };
    assert_eq!(flip_setting(&dark, Setting::DarkTrayIcon).new_icon, Some(TrayIcon::White));
}

#[test]
fn flip_twice_restores() {
    let mut s = AppState::default();
    for _ in 0..2 {
        let f = flip_setting(&s, Setting::StartInBackgroundOnManualLaunch);
        whatsapp_web_wrapper::set_setting(&mut s, f.which, f.value);
    }
    assert_eq!(s, AppState::default());
}

#[test]
fn quit() {
    let p = quit_plan(true);
    assert!(p.save_window_state);
    assert_eq!(p.exit_code, 0);
    assert!(!quit_plan(false).save_window_state);
}

#[test]
fn left_release_toggles() {
    let mut t = TrayTracker::new();
    let click =
        TrayIconEvent::Click { button: MouseButton::Left, button_state: MouseButtonState::Up };
    let a = on_tray_icon_event(&mut t, click, true);
    assert_eq!(a[0], WindowAction::SaveWindowState);
    assert!(t.hidden_in_tray);
    let a = on_tray_icon_event(&mut t, click, true);
    assert_eq!(a[1], WindowAction::Show);
    assert!(!t.hidden_in_tray);
}

#[test]
fn other_clicks_do_nothing() {
    let mut t = TrayTracker::new();
    let down =
        TrayIconEvent::Click { button: MouseButton::Left, button_state: MouseButtonState::Down };
    assert!(on_tray_icon_event(&mut t, down, true).is_empty());
    let right =
        TrayIconEvent::Click { button: MouseButton::Right, button_state: MouseButtonState::Up };
    assert!(on_tray_icon_event(&mut t, right, true).is_empty());
    assert!(on_tray_icon_event(&mut t, TrayIconEvent::Other, true).is_empty());
    assert!(!t.hidden_in_tray);
}
