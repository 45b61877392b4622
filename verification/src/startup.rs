//! What happens when the program starts: whether the main window starts in
//! the tray, and with which size.

use vstd::prelude::*;
use crate::settings::{spec_from_stored, spec_to_stored, AppState};
use crate::window::{mark_hidden_in_tray, toggle_actions, restore_actions, TrayTracker, WindowAction};

verus! {

/// Command-line argument that marks a launch at boot; the program registers
/// itself for starting on boot with this argument.
pub const AUTOSTART_ARG: &'static str = "--autostart";

/// Inner size of a window, in physical pixels.
#[derive(Clone, Copy, Debug, PartialEq, Eq, Structural)]
pub struct Size {
    pub width: u32,
    pub height: u32,
}

/// How the main window is created.
#[derive(Clone, Copy, Debug, PartialEq, Eq, Structural)]
pub struct WindowSetup {
    /// Whether the window is created maximized.
    pub maximized: bool,
    /// The inner size to create it with; `None` when it is
    /// created maximized, so that the window's configured size applies.
    pub inner_size: Option<Size>,
    /// Whether the window is created invisible, in the tray.
    pub start_hidden: bool,
}

/// Whether the arguments hold the marker of a launch at boot.
pub open spec fn spec_is_autostart(args: Seq<Seq<char>>) -> bool {
    exists|i: int| 0 <= i < args.len() && args[i] == AUTOSTART_ARG@
}

/// Whether the main window starts in the tray: at boot when the user asked
/// for that at boot, otherwise when the user asked for that at manual launches.
pub open spec fn spec_should_start_hidden(settings: AppState, is_autostart: bool) -> bool {
    (is_autostart && settings.start_in_background_on_boot) || (!is_autostart
        && settings.start_in_background_on_manual_launch)
}

/// How the main window is created for the given settings and kind of launch.
pub open spec fn spec_window_setup(settings: AppState, is_autostart: bool) -> WindowSetup {
    WindowSetup {
        maximized: settings.maximized,
        inner_size: if settings.maximized {
            None
        } else {
            Some(Size { width: settings.width, height: settings.height })
        },
        start_hidden: spec_should_start_hidden(settings, is_autostart),
    }
}

/// Whether the program was launched at boot: one of its arguments is
/// [`AUTOSTART_ARG`].
pub fn is_autostart_launch(args: &Vec<String>) -> (autostart: bool)
    ensures
        autostart == spec_is_autostart(args@.map_values(|a: String| a@)),
        autostart == exists|i: int| 0 <= i < args@.len() && args@[i]@ == AUTOSTART_ARG@,
{
    let marker = String::from_str(AUTOSTART_ARG);
    let ghost views = args@.map_values(|a: String| a@);
    let mut i: usize = 0;
    while i < args.len()
        invariant
            0 <= i <= args.len(),
            marker@ == AUTOSTART_ARG@,
            views == args@.map_values(|a: String| a@),
            forall|j: int| 0 <= j < i ==> views[j] != AUTOSTART_ARG@,
            forall|j: int| 0 <= j < i ==> args@[j]@ != AUTOSTART_ARG@,
        decreases args.len() - i,
    {
        if args[i] == marker {
            assert(views[i as int] == AUTOSTART_ARG@);
            assert(args@[i as int]@ == AUTOSTART_ARG@);
            return true;
        }
        i = i + 1;
    }
    false
}

/// Whether the main window starts in the tray.
pub fn should_start_hidden(settings: &AppState, is_autostart: bool) -> (hidden: bool)
    ensures
        hidden == spec_should_start_hidden(*settings, is_autostart),
        is_autostart ==> hidden == settings.start_in_background_on_boot,
        !is_autostart ==> hidden == settings.start_in_background_on_manual_launch,
{
    (is_autostart && settings.start_in_background_on_boot) || (!is_autostart
        && settings.start_in_background_on_manual_launch)
}

/// How the main window is created at startup: maximized, or with the
/// recorded size; invisible when it starts in the tray.
pub fn window_setup(settings: &AppState, args: &Vec<String>) -> (setup: WindowSetup)
    ensures
        setup == spec_window_setup(*settings, spec_is_autostart(args@.map_values(|a: String| a@))),
        setup.maximized == settings.maximized,
        settings.maximized ==> setup.inner_size is None,
        !settings.maximized ==> setup.inner_size == Some(
            Size { width: settings.width, height: settings.height },
        ),
        setup.start_hidden == (if exists|i: int|
            0 <= i < args@.len() && args@[i]@ == AUTOSTART_ARG@ {
            settings.start_in_background_on_boot
        } else {
            settings.start_in_background_on_manual_launch
        }),
{
    let is_autostart = is_autostart_launch(args);
    let start_hidden = should_start_hidden(settings, is_autostart);
    let inner_size = if settings.maximized {
        None
    } else {
        Some(Size { width: settings.width, height: settings.height })
    };
    WindowSetup { maximized: settings.maximized, inner_size, start_hidden }
}

/// The steps on the main window right after it was created: a window that
/// starts in the tray is taken off the taskbar; otherwise nothing.
pub open spec fn spec_startup_actions(start_hidden: bool) -> Seq<WindowAction> {
    if start_hidden {
        seq![WindowAction::SetSkipTaskbar(true)]
    } else {
        Seq::empty()
    }
}

/// After the main window was created: a window that starts in the tray is
/// recorded as hidden there and taken off the taskbar; otherwise nothing
/// changes.
pub fn finish_startup(tracker: &mut TrayTracker, setup: &WindowSetup) -> (actions: Vec<WindowAction>)
    ensures
        final(tracker).hidden_in_tray == (old(tracker).hidden_in_tray || setup.start_hidden),
        actions@ == spec_startup_actions(setup.start_hidden),
        setup.start_hidden ==> final(tracker).hidden_in_tray && actions@ == seq![
            WindowAction::SetSkipTaskbar(true),
        ],
        !setup.start_hidden ==> *final(tracker) == *old(tracker) && actions@.len() == 0,
{
    let mut actions: Vec<WindowAction> = Vec::new();
    if setup.start_hidden {
        mark_hidden_in_tray(tracker);
        actions.push(WindowAction::SetSkipTaskbar(true));
    }
    assert(actions@ =~= spec_startup_actions(setup.start_hidden));
    actions
}

/// At a launch at boot the window starts in the tray exactly when the boot
/// preference is on, and at a manual launch exactly when the manual-launch
/// preference is on, whatever the other preferences; the window is maximized
/// as recorded, and otherwise gets the recorded size.
pub proof fn lemma_start_hidden_by_launch_kind(settings: AppState, is_autostart: bool)
    ensures
        spec_should_start_hidden(settings, true) == settings.start_in_background_on_boot,
        spec_should_start_hidden(settings, false) == settings.start_in_background_on_manual_launch,
        spec_window_setup(settings, is_autostart).start_hidden == (if is_autostart {
            settings.start_in_background_on_boot
        } else {
            settings.start_in_background_on_manual_launch
        }),
        spec_window_setup(settings, is_autostart).maximized == settings.maximized,
        spec_window_setup(settings, is_autostart).inner_size == (if settings.maximized {
            None
        } else {
            Some(Size { width: settings.width, height: settings.height })
        }),
        spec_startup_actions(true) == seq![WindowAction::SetSkipTaskbar(true)],
        spec_startup_actions(false).len() == 0,
{
}

/// A launch is a launch at boot exactly when one of its arguments is the
/// boot marker.
pub proof fn lemma_autostart_marker(args: Seq<Seq<char>>)
    ensures
        spec_is_autostart(args) <==> args.contains(AUTOSTART_ARG@),
{
}

/// A window that starts in the tray comes back at the first use of the
/// show/hide toggle.
pub proof fn lemma_hidden_start_then_toggle_restores(settings: AppState, is_autostart: bool)
    requires
        spec_window_setup(settings, is_autostart).start_hidden,
    ensures
        toggle_actions(spec_window_setup(settings, is_autostart).start_hidden, true)
            == restore_actions(),
{
}

/// With the settings of a fresh installation, a launch at boot starts in the
/// tray and a manual launch shows the window, with the default size.
pub proof fn lemma_fresh_install_startup()
    ensures
        spec_window_setup(crate::settings::spec_default_state(), true) == (WindowSetup {
            maximized: false,
            inner_size: Some(Size { width: 1100, height: 750 }),
            start_hidden: true,
        }),
        spec_window_setup(crate::settings::spec_default_state(), false) == (WindowSetup {
            maximized: false,
            inner_size: Some(Size { width: 1100, height: 750 }),
            start_hidden: false,
        }),
{
}

/// What the program records is what it starts with next time: after the
/// window's geometry was recorded into the settings and the settings were
/// written out in full, the next start reads them back and creates the window
/// with that geometry, and starts it in the tray by the recorded preferences.
pub proof fn lemma_geometry_restored_next_session(
    settings: AppState,
    width: u32,
    height: u32,
    maximized: bool,
    is_autostart: bool,
)
    ensures
        ({
            let saved = settings.with_geometry(width, height, maximized);
            let next = spec_window_setup(spec_from_stored(spec_to_stored(saved)), is_autostart);
            &&& next.maximized == maximized
            &&& next.inner_size == (if maximized {
                None
            } else {
                Some(Size { width, height })
            })
            &&& next.start_hidden == spec_should_start_hidden(settings, is_autostart)
        }),
{
}

} // verus!
