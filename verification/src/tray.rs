//! The system tray: its icon, its menu, and what a menu entry or a click on
//! the icon does.

use vstd::prelude::*;
use crate::settings::{AppState, Setting};
use crate::text::same_text;
use crate::window::{toggle_main_window, toggle_actions, hidden_after_toggle, TrayTracker, WindowAction};

verus! {

/// Identifier of the tray icon.
pub const TRAY_ID: &'static str = "main-tray";

/// Tooltip of the tray icon.
pub const TRAY_TOOLTIP: &'static str = "WhatsApp";

/// Whether a left click on the tray icon opens the menu (it does not: a left
/// click toggles the main window, see [`on_tray_icon_event`]).
pub const SHOW_MENU_ON_LEFT_CLICK: bool = false;

/// Exit code of the program when the user quits from the tray menu.
pub const QUIT_EXIT_CODE: i32 = 0;

/// The two tray icons.
#[derive(Clone, Copy, Debug, PartialEq, Eq, Structural)]
pub enum TrayIcon {
    /// The white icon, for dark panels.
    White,
    /// The dark icon, for light panels.
    Dark,
}

/// The entries of the tray menu that the user can pick.
#[derive(Clone, Copy, Debug, PartialEq, Eq, Structural)]
pub enum MenuId {
    Toggle,
    Autostart,
    BackgroundOnBoot,
    BackgroundOnManual,
    DarkTrayIcon,
    Quit,
}

/// One line of the tray menu.
#[derive(Clone, Copy, Debug, PartialEq, Eq, Structural)]
pub enum MenuEntry {
    /// A plain entry.
    Item(MenuId),
    /// An entry with a check mark, set or not.
    Check(MenuId, bool),
    Separator,
}

/// What picking a menu entry asks for.
#[derive(Clone, Copy, Debug, PartialEq, Eq, Structural)]
pub enum MenuCommand {
    /// Show or hide the main window.
    ToggleWindow,
    /// Switch starting on boot on or off.
    ToggleAutostart,
    /// Switch one preference of the settings.
    Flip(Setting),
    /// Save the main window's geometry and end the program.
    Quit,
}

/// Whether starting on boot is to be switched on or off.
#[derive(Clone, Copy, Debug, PartialEq, Eq, Structural)]
pub enum AutostartChange {
    Enable,
    Disable,
}

/// The change of one preference that a menu entry asks for.
#[derive(Clone, Copy, Debug, PartialEq, Eq, Structural)]
pub struct SettingFlip {
    /// The preference.
    pub which: Setting,
    /// Its new value, to be written into the settings.
    pub value: bool,
    /// The icon that the tray shows from now on, when the change concerns it.
    pub new_icon: Option<TrayIcon>,
}

/// What quitting from the menu does.
#[derive(Clone, Copy, Debug, PartialEq, Eq, Structural)]
pub struct QuitPlan {
    /// Whether the main window's geometry is recorded first.
    pub save_window_state: bool,
    /// The program's exit code.
    pub exit_code: i32,
}

/// A mouse button.
#[derive(Clone, Copy, Debug, PartialEq, Eq, Structural)]
pub enum MouseButton {
    Left,
    Right,
    Middle,
}

/// Whether a mouse button went down or up.
#[derive(Clone, Copy, Debug, PartialEq, Eq, Structural)]
pub enum MouseButtonState {
    Up,
    Down,
}

/// An event of the tray icon.
#[derive(Clone, Copy, Debug, PartialEq, Eq, Structural)]
pub enum TrayIconEvent {
    /// A click on the icon.
    Click { button: MouseButton, button_state: MouseButtonState },
    /// Any other event (the pointer entering, moving, leaving; double clicks).
    Other,
}

/// The icon that goes with the dark-icon preference.
pub open spec fn spec_tray_icon(dark: bool) -> TrayIcon {
    if dark {
        TrayIcon::Dark
    } else {
        TrayIcon::White
    }
}

/// The identifier of a menu entry, as the menu event reports it.
pub open spec fn spec_menu_id_text(id: MenuId) -> Seq<char> {
    match id {
        MenuId::Toggle => "toggle"@,
        MenuId::Autostart => "autostart"@,
        MenuId::BackgroundOnBoot => "background_on_boot"@,
        MenuId::BackgroundOnManual => "background_on_manual"@,
        MenuId::DarkTrayIcon => "dark_tray_icon"@,
        MenuId::Quit => "quit"@,
    }
}

/// The text of a menu entry.
pub open spec fn spec_menu_label(id: MenuId) -> Seq<char> {
    match id {
        MenuId::Toggle => "Show/Hide"@,
        MenuId::Autostart => "Start on Boot"@,
        MenuId::BackgroundOnBoot => "Start in Background on Boot"@,
        MenuId::BackgroundOnManual => "Start in Background on Manual Launch"@,
        MenuId::DarkTrayIcon => "Dark Tray Icon"@,
        MenuId::Quit => "Quit"@,
    }
}

/// The menu entry that a reported identifier names, if any.
pub open spec fn spec_menu_id_of(text: Seq<char>) -> Option<MenuId> {
    if text == spec_menu_id_text(MenuId::Toggle) {
        Some(MenuId::Toggle)
    } else if text == spec_menu_id_text(MenuId::Autostart) {
        Some(MenuId::Autostart)
    } else if text == spec_menu_id_text(MenuId::BackgroundOnBoot) {
        Some(MenuId::BackgroundOnBoot)
    } else if text == spec_menu_id_text(MenuId::BackgroundOnManual) {
        Some(MenuId::BackgroundOnManual)
    } else if text == spec_menu_id_text(MenuId::DarkTrayIcon) {
        Some(MenuId::DarkTrayIcon)
    } else if text == spec_menu_id_text(MenuId::Quit) {
        Some(MenuId::Quit)
    } else {
        None
    }
}

/// What each menu entry asks for.
pub open spec fn spec_menu_command(id: MenuId) -> MenuCommand {
    match id {
        MenuId::Toggle => MenuCommand::ToggleWindow,
        MenuId::Autostart => MenuCommand::ToggleAutostart,
        MenuId::BackgroundOnBoot => MenuCommand::Flip(Setting::StartInBackgroundOnBoot),
        MenuId::BackgroundOnManual => MenuCommand::Flip(Setting::StartInBackgroundOnManualLaunch),
        MenuId::DarkTrayIcon => MenuCommand::Flip(Setting::DarkTrayIcon),
        MenuId::Quit => MenuCommand::Quit,
    }
}

/// The tray menu, top to bottom, for the given settings and state of starting
/// on boot.
pub open spec fn spec_tray_menu(settings: AppState, autostart_enabled: bool) -> Seq<MenuEntry> {
    seq![
        MenuEntry::Item(MenuId::Toggle),
        MenuEntry::Separator,
        MenuEntry::Check(MenuId::Autostart, autostart_enabled),
        MenuEntry::Check(MenuId::BackgroundOnBoot, settings.start_in_background_on_boot),
        MenuEntry::Check(MenuId::BackgroundOnManual, settings.start_in_background_on_manual_launch),
        MenuEntry::Separator,
        MenuEntry::Check(MenuId::DarkTrayIcon, settings.dark_tray_icon),
        MenuEntry::Separator,
        MenuEntry::Item(MenuId::Quit),
    ]
}

/// Whether an event of the tray icon toggles the main window: a release of
/// the left button does.
pub open spec fn spec_click_toggles(event: TrayIconEvent) -> bool {
    event == TrayIconEvent::Click { button: MouseButton::Left, button_state: MouseButtonState::Up }
}

/// The icon that the tray shows for the dark-icon preference.
pub fn tray_icon(dark: bool) -> (icon: TrayIcon)
    ensures
        icon == spec_tray_icon(dark),
        dark ==> icon == TrayIcon::Dark,
        !dark ==> icon == TrayIcon::White,
{
    if dark {
        TrayIcon::Dark
    } else {
        TrayIcon::White
    }
}

/// The identifier of a menu entry.
pub fn menu_id_text(id: MenuId) -> (text: &'static str)
    ensures
        text@ == spec_menu_id_text(id),
{
    match id {
        MenuId::Toggle => "toggle",
        MenuId::Autostart => "autostart",
        MenuId::BackgroundOnBoot => "background_on_boot",
        MenuId::BackgroundOnManual => "background_on_manual",
        MenuId::DarkTrayIcon => "dark_tray_icon",
        MenuId::Quit => "quit",
    }
}

/// The text of a menu entry.
pub fn menu_label(id: MenuId) -> (label: &'static str)
    ensures
        label@ == spec_menu_label(id),
{
    match id {
        MenuId::Toggle => "Show/Hide",
        MenuId::Autostart => "Start on Boot",
        MenuId::BackgroundOnBoot => "Start in Background on Boot",
        MenuId::BackgroundOnManual => "Start in Background on Manual Launch",
        MenuId::DarkTrayIcon => "Dark Tray Icon",
        MenuId::Quit => "Quit",
    }
}

/// The menu entry that an identifier reported by a menu event names.
pub fn parse_menu_id(text: &str) -> (id: Option<MenuId>)
    ensures
        id == spec_menu_id_of(text@),
{
    if same_text(text, menu_id_text(MenuId::Toggle)) {
        Some(MenuId::Toggle)
    } else if same_text(text, menu_id_text(MenuId::Autostart)) {
        Some(MenuId::Autostart)
    } else if same_text(text, menu_id_text(MenuId::BackgroundOnBoot)) {
        Some(MenuId::BackgroundOnBoot)
    } else if same_text(text, menu_id_text(MenuId::BackgroundOnManual)) {
        Some(MenuId::BackgroundOnManual)
    } else if same_text(text, menu_id_text(MenuId::DarkTrayIcon)) {
        Some(MenuId::DarkTrayIcon)
    } else if same_text(text, menu_id_text(MenuId::Quit)) {
        Some(MenuId::Quit)
    } else {
        None
    }
}

/// Whether starting on boot counts as switched on: only when the query for it
/// succeeded and said so.
pub fn autostart_checked(is_enabled: Option<bool>) -> (checked: bool)
    ensures
        checked == (is_enabled == Some(true)),
{
    match is_enabled {
        Some(enabled) => enabled,
        None => false,
    }
}

/// The tray menu: show/hide; starting on boot and the two background
/// preferences with their check marks; the dark-icon preference; quit; with
/// separators between the groups.
pub fn tray_menu(settings: &AppState, autostart_enabled: Option<bool>) -> (menu: Vec<MenuEntry>)
    ensures
        menu@ == spec_tray_menu(*settings, autostart_enabled == Some(true)),
        menu@.len() == 9,
        menu@[0] == MenuEntry::Item(MenuId::Toggle),
        menu@[1] == MenuEntry::Separator,
        menu@[2] == MenuEntry::Check(MenuId::Autostart, autostart_enabled == Some(true)),
        menu@[3] == MenuEntry::Check(MenuId::BackgroundOnBoot, settings.start_in_background_on_boot),
        menu@[4] == MenuEntry::Check(
            MenuId::BackgroundOnManual,
            settings.start_in_background_on_manual_launch,
        ),
        menu@[5] == MenuEntry::Separator,
        menu@[6] == MenuEntry::Check(MenuId::DarkTrayIcon, settings.dark_tray_icon),
        menu@[7] == MenuEntry::Separator,
        menu@[8] == MenuEntry::Item(MenuId::Quit),
{
    let autostart = autostart_checked(autostart_enabled);
    let mut menu: Vec<MenuEntry> = Vec::new();
    menu.push(MenuEntry::Item(MenuId::Toggle));
    menu.push(MenuEntry::Separator);
    menu.push(MenuEntry::Check(MenuId::Autostart, autostart));
    menu.push(MenuEntry::Check(MenuId::BackgroundOnBoot, settings.start_in_background_on_boot));
    menu.push(
        MenuEntry::Check(MenuId::BackgroundOnManual, settings.start_in_background_on_manual_launch),
    );
    menu.push(MenuEntry::Separator);
    menu.push(MenuEntry::Check(MenuId::DarkTrayIcon, settings.dark_tray_icon));
    menu.push(MenuEntry::Separator);
    menu.push(MenuEntry::Item(MenuId::Quit));
    assert(menu@ =~= spec_tray_menu(*settings, autostart_enabled == Some(true)));
    menu
}

/// What a menu event asks for, from the identifier it reports; `None` for an
/// identifier that names no entry.
pub fn menu_command(text: &str) -> (command: Option<MenuCommand>)
    ensures
        command == (match spec_menu_id_of(text@) {
            Some(id) => Some(spec_menu_command(id)),
            None => None,
        }),
{
    match parse_menu_id(text) {
        Some(id) => Some(
            match id {
                MenuId::Toggle => MenuCommand::ToggleWindow,
                MenuId::Autostart => MenuCommand::ToggleAutostart,
                MenuId::BackgroundOnBoot => MenuCommand::Flip(Setting::StartInBackgroundOnBoot),
                MenuId::BackgroundOnManual => MenuCommand::Flip(
                    Setting::StartInBackgroundOnManualLaunch,
                ),
                MenuId::DarkTrayIcon => MenuCommand::Flip(Setting::DarkTrayIcon),
                MenuId::Quit => MenuCommand::Quit,
            },
        ),
        None => None,
    }
}

/// Switching starting on boot: off when the query says it is on, on otherwise
/// (also when the query failed).
pub fn autostart_change(is_enabled: Option<bool>) -> (change: AutostartChange)
    ensures
        change == (if is_enabled == Some(true) {
            AutostartChange::Disable
        } else {
            AutostartChange::Enable
        }),
{
    if autostart_checked(is_enabled) {
        AutostartChange::Disable
    } else {
        AutostartChange::Enable
    }
}

/// Switching one preference: its new value is the opposite of its value in
/// the settings as they were read; a change of the dark-icon preference also
/// changes the tray icon.
pub fn flip_setting(current: &AppState, which: Setting) -> (flip: SettingFlip)
    ensures
        flip.which == which,
        flip.value == !current.get(which),
        flip.new_icon == (if which == Setting::DarkTrayIcon {
            Some(spec_tray_icon(!current.get(which)))
        } else {
            None
        }),
        which == Setting::StartInBackgroundOnBoot ==> flip.value
            == !current.start_in_background_on_boot && flip.new_icon is None,
        which == Setting::StartInBackgroundOnManualLaunch ==> flip.value
            == !current.start_in_background_on_manual_launch && flip.new_icon is None,
        which == Setting::DarkTrayIcon ==> flip.value == !current.dark_tray_icon && flip.new_icon
            == Some(if current.dark_tray_icon { TrayIcon::White } else { TrayIcon::Dark }),
{
    let value = !current.setting(which);
    let new_icon = match which {
        Setting::DarkTrayIcon => Some(tray_icon(value)),
        _ => None,
    };
    SettingFlip { which, value, new_icon }
}

/// Quitting: record the main window's geometry when the window is found, then
/// end the program with a success code.
pub fn quit_plan(main_window_found: bool) -> (plan: QuitPlan)
    ensures
        plan.save_window_state == main_window_found,
        plan.exit_code == 0,
{
    QuitPlan { save_window_state: main_window_found, exit_code: QUIT_EXIT_CODE }
}

/// An event of the tray icon: a release of the left button toggles the main
/// window; any other event does nothing.
pub fn on_tray_icon_event(
    tracker: &mut TrayTracker,
    event: TrayIconEvent,
    main_window_found: bool,
) -> (actions: Vec<WindowAction>)
    ensures
        spec_click_toggles(event) ==> {
            &&& final(tracker).hidden_in_tray == hidden_after_toggle(
                old(tracker).hidden_in_tray,
                main_window_found,
            )
            &&& actions@ == toggle_actions(old(tracker).hidden_in_tray, main_window_found)
        },
        !spec_click_toggles(event) ==> {
            &&& *final(tracker) == *old(tracker)
            &&& actions@ == Seq::<WindowAction>::empty()
        },
        event == (TrayIconEvent::Click { button: MouseButton::Left, button_state: MouseButtonState::Up }) ==> actions@ == toggle_actions(
            old(tracker).hidden_in_tray,
            main_window_found,
        ),
        event != (TrayIconEvent::Click { button: MouseButton::Left, button_state: MouseButtonState::Up }) ==> *final(tracker) == *old(tracker) && actions@.len() == 0,
{
    let toggles = match event {
        TrayIconEvent::Click { button: MouseButton::Left, button_state: MouseButtonState::Up } => true,
        _ => false,
    };
    if toggles {
        toggle_main_window(tracker, main_window_found)
    } else {
        let actions: Vec<WindowAction> = Vec::new();
        assert(actions@ =~= Seq::<WindowAction>::empty());
        actions
    }
}

/// Only the release of the left button on the tray icon toggles the main
/// window; every other event (another button, a press, a non-click event)
/// leaves it alone.
pub proof fn lemma_only_left_release_toggles(event: TrayIconEvent)
    ensures
        spec_click_toggles(event) <==> event == (TrayIconEvent::Click { button: MouseButton::Left, button_state: MouseButtonState::Up }),
        !spec_click_toggles(
            (TrayIconEvent::Click { button: MouseButton::Right, button_state: MouseButtonState::Down }),
        ),
        !spec_click_toggles(
            (TrayIconEvent::Click { button: MouseButton::Right, button_state: MouseButtonState::Up }),
        ),
        !spec_click_toggles(
            (TrayIconEvent::Click { button: MouseButton::Left, button_state: MouseButtonState::Down }),
        ),
        !spec_click_toggles(
            (TrayIconEvent::Click { button: MouseButton::Middle, button_state: MouseButtonState::Up }),
        ),
        !spec_click_toggles(TrayIconEvent::Other),
{
}

/// The dark icon goes with the dark-icon preference and the white icon with
/// its absence; the two preferences give different icons.
pub proof fn lemma_icon_follows_preference()
    ensures
        spec_tray_icon(true) == TrayIcon::Dark,
        spec_tray_icon(false) == TrayIcon::White,
        spec_tray_icon(true) != spec_tray_icon(false),
{
}

/// The layout of the menu is fixed: show/hide on top, quit at the bottom,
/// separators between the groups; only the check marks depend on the
/// settings and on starting at boot, each mirroring the preference it names.
pub proof fn lemma_menu_layout(settings: AppState, autostart_enabled: bool)
    ensures
        ({
            let m = spec_tray_menu(settings, autostart_enabled);
            &&& m.len() == 9
            &&& m[0] == MenuEntry::Item(MenuId::Toggle)
            &&& m[1] == MenuEntry::Separator
            &&& m[2] == MenuEntry::Check(MenuId::Autostart, autostart_enabled)
            &&& m[3] == MenuEntry::Check(
                MenuId::BackgroundOnBoot,
                settings.start_in_background_on_boot,
            )
            &&& m[4] == MenuEntry::Check(
                MenuId::BackgroundOnManual,
                settings.start_in_background_on_manual_launch,
            )
            &&& m[5] == MenuEntry::Separator
            &&& m[6] == MenuEntry::Check(MenuId::DarkTrayIcon, settings.dark_tray_icon)
            &&& m[7] == MenuEntry::Separator
            &&& m[8] == MenuEntry::Item(MenuId::Quit)
        }),
{
}

/// Picking an entry does what the entry shows: the plain entries toggle the
/// window (the top one) and quit (the bottom one); the starting-on-boot entry
/// switches starting on boot; each other checked entry switches exactly the
/// preference whose value its check mark shows.
pub proof fn lemma_entries_do_what_they_show(settings: AppState, autostart_enabled: bool, i: int)
    requires
        0 <= i < spec_tray_menu(settings, autostart_enabled).len(),
    ensures
        ({
            let m = spec_tray_menu(settings, autostart_enabled);
            &&& i == 0 ==> (m[i] matches MenuEntry::Item(id) && spec_menu_command(id)
                == MenuCommand::ToggleWindow)
            &&& i == 8 ==> (m[i] matches MenuEntry::Item(id) && spec_menu_command(id)
                == MenuCommand::Quit)
            &&& (m[i] matches MenuEntry::Check(id, checked) ==> (id == MenuId::Autostart
                && spec_menu_command(id) == MenuCommand::ToggleAutostart && checked
                == autostart_enabled) || (spec_menu_command(id) matches MenuCommand::Flip(which)
                && checked == settings.get(which)))
        }),
{
    lemma_menu_layout(settings, autostart_enabled);
}

/// Each menu entry has an identifier of its own: reading back the identifier
/// of an entry names that entry.
pub proof fn lemma_menu_id_round_trip(id: MenuId)
    ensures
        spec_menu_id_of(spec_menu_id_text(id)) == Some(id),
{
    reveal_strlit("toggle");
    reveal_strlit("autostart");
    reveal_strlit("background_on_boot");
    reveal_strlit("background_on_manual");
    reveal_strlit("dark_tray_icon");
    reveal_strlit("quit");
    assert("toggle"@ != "autostart"@) by {
        assert("toggle"@.len() != "autostart"@.len());
    }
    assert("toggle"@ != "background_on_boot"@) by {
        assert("toggle"@.len() != "background_on_boot"@.len());
    }
    assert("toggle"@ != "background_on_manual"@) by {
        assert("toggle"@.len() != "background_on_manual"@.len());
    }
    assert("toggle"@ != "dark_tray_icon"@) by {
        assert("toggle"@.len() != "dark_tray_icon"@.len());
    }
    assert("toggle"@ != "quit"@) by {
        assert("toggle"@.len() != "quit"@.len());
    }
    assert("autostart"@ != "background_on_boot"@) by {
        assert("autostart"@.len() != "background_on_boot"@.len());
    }
    assert("autostart"@ != "background_on_manual"@) by {
        assert("autostart"@.len() != "background_on_manual"@.len());
    }
    assert("autostart"@ != "dark_tray_icon"@) by {
        assert("autostart"@.len() != "dark_tray_icon"@.len());
    }
    assert("autostart"@ != "quit"@) by {
        assert("autostart"@.len() != "quit"@.len());
    }
    assert("background_on_boot"@ != "background_on_manual"@) by {
        assert("background_on_boot"@.len() != "background_on_manual"@.len());
    }
    assert("background_on_boot"@ != "dark_tray_icon"@) by {
        assert("background_on_boot"@.len() != "dark_tray_icon"@.len());
    }
    assert("background_on_boot"@ != "quit"@) by {
        assert("background_on_boot"@.len() != "quit"@.len());
    }
    assert("background_on_manual"@ != "dark_tray_icon"@) by {
        assert("background_on_manual"@.len() != "dark_tray_icon"@.len());
    }
    assert("background_on_manual"@ != "quit"@) by {
        assert("background_on_manual"@.len() != "quit"@.len());
    }
    assert("dark_tray_icon"@ != "quit"@) by {
        assert("dark_tray_icon"@.len() != "quit"@.len());
    }
}

/// The check marks of the menu mirror the settings it was built from, and
/// every entry that can be picked is in the menu.
pub proof fn lemma_menu_mirrors_settings(settings: AppState, autostart_enabled: bool, id: MenuId)
    ensures
        spec_tray_menu(settings, autostart_enabled).contains(
            match id {
                MenuId::Toggle => MenuEntry::Item(MenuId::Toggle),
                MenuId::Autostart => MenuEntry::Check(MenuId::Autostart, autostart_enabled),
                MenuId::BackgroundOnBoot => MenuEntry::Check(
                    MenuId::BackgroundOnBoot,
                    settings.get(Setting::StartInBackgroundOnBoot),
                ),
                MenuId::BackgroundOnManual => MenuEntry::Check(
                    MenuId::BackgroundOnManual,
                    settings.get(Setting::StartInBackgroundOnManualLaunch),
                ),
                MenuId::DarkTrayIcon => MenuEntry::Check(
                    MenuId::DarkTrayIcon,
                    settings.get(Setting::DarkTrayIcon),
                ),
                MenuId::Quit => MenuEntry::Item(MenuId::Quit),
            },
        ),
{
    let m = spec_tray_menu(settings, autostart_enabled);
    match id {
        MenuId::Toggle => assert(m[0] == MenuEntry::Item(MenuId::Toggle)),
        MenuId::Autostart => assert(m[2] == MenuEntry::Check(MenuId::Autostart, autostart_enabled)),
        MenuId::BackgroundOnBoot => assert(m[3] == MenuEntry::Check(
            MenuId::BackgroundOnBoot,
            settings.start_in_background_on_boot,
        )),
        MenuId::BackgroundOnManual => assert(m[4] == MenuEntry::Check(
            MenuId::BackgroundOnManual,
            settings.start_in_background_on_manual_launch,
        )),
        MenuId::DarkTrayIcon => assert(m[6] == MenuEntry::Check(
            MenuId::DarkTrayIcon,
            settings.dark_tray_icon,
        )),
        MenuId::Quit => assert(m[8] == MenuEntry::Item(MenuId::Quit)),
    }
}

/// After the dark-icon preference is switched, the tray shows the icon that
/// the new settings call for.
pub proof fn lemma_flip_dark_icon_matches_settings(current: AppState)
    ensures
        ({
            let value = !current.get(Setting::DarkTrayIcon);
            let after = current.with_setting(Setting::DarkTrayIcon, value);
            spec_tray_icon(value) == spec_tray_icon(after.dark_tray_icon)
        }),
{
}

} // verus!
