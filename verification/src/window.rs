//! The main window and the system tray: hiding to the tray, restoring from
//! it, and what a close request does.

use vstd::prelude::*;

verus! {

/// Label of the main window.
pub const MAIN_WINDOW_LABEL: &'static str = "main";

/// Whether the main window is currently hidden in the system tray.
///
/// One value of this type lives for the whole run of the program; every
/// handler that hides or restores the window goes through it.
#[derive(Clone, Copy, Debug, PartialEq, Eq, Structural)]
pub struct TrayTracker {
    pub hidden_in_tray: bool,
}

/// One step that the program performs on the main window.
#[derive(Clone, Copy, Debug, PartialEq, Eq, Structural)]
pub enum WindowAction {
    /// Record the window's current size and maximized state in the settings
    /// (see [`save_window_state`]).
    SaveWindowState,
    /// Hide the window from the taskbar (`true`) or show it there (`false`).
    SetSkipTaskbar(bool),
    Minimize,
    Show,
    Unminimize,
    SetFocus,
    /// Ask the web view to draw itself again (on Linux, where a window that
    /// comes back from the tray may otherwise stay blank).
    RepaintWebview,
}

/// An event that a window of the program receives.
#[derive(Clone, Copy, Debug, PartialEq, Eq, Structural)]
pub enum WindowEventKind {
    /// The user asked to close the window (its close button).
    CloseRequested,
    /// Any other window event.
    Other,
}

/// What the program does with a window event.
pub struct WindowEventResponse {
    /// Whether the close that the event asks for is cancelled.
    pub prevent_close: bool,
    /// Steps to perform on the main window.
    pub actions: Vec<WindowAction>,
}

/// The geometry to record when the main window is saved.
#[derive(Clone, Copy, Debug, PartialEq, Eq, Structural)]
pub struct Geometry {
    pub width: u32,
    pub height: u32,
    pub maximized: bool,
}

/// The steps that move the main window into the tray.
pub open spec fn hide_actions() -> Seq<WindowAction> {
    seq![WindowAction::SaveWindowState, WindowAction::SetSkipTaskbar(true), WindowAction::Minimize]
}

/// The steps that bring the main window back from the tray.
pub open spec fn restore_actions() -> Seq<WindowAction> {
    seq![
        WindowAction::SetSkipTaskbar(false),
        WindowAction::Show,
        WindowAction::Unminimize,
        WindowAction::SetFocus,
        WindowAction::RepaintWebview,
    ]
}

/// The steps of the show/hide toggle: nothing when the main window is not
/// found, else restore it when it is in the tray and hide it when it is not.
pub open spec fn toggle_actions(hidden: bool, window_found: bool) -> Seq<WindowAction> {
    if !window_found {
        Seq::empty()
    } else if hidden {
        restore_actions()
    } else {
        hide_actions()
    }
}

/// Whether the main window is in the tray after the show/hide toggle.
pub open spec fn hidden_after_toggle(hidden: bool, window_found: bool) -> bool {
    if window_found {
        !hidden
    } else {
        hidden
    }
}

impl TrayTracker {
    /// The tracker at program start: the window is not in the tray.
    pub fn new() -> (t: TrayTracker)
        ensures
            !t.hidden_in_tray,
    {
        TrayTracker { hidden_in_tray: false }
    }
}

/// Records that the main window is in the tray (it was created hidden).
pub fn mark_hidden_in_tray(tracker: &mut TrayTracker)
    ensures
        final(tracker).hidden_in_tray,
{
    tracker.hidden_in_tray = true;
}

/// Moves the main window into the tray: save its geometry, take it off the
/// taskbar, minimize it.
pub fn hide_to_tray(tracker: &mut TrayTracker) -> (actions: Vec<WindowAction>)
    ensures
        final(tracker).hidden_in_tray,
        actions@ == hide_actions(),
{
    let mut actions: Vec<WindowAction> = Vec::new();
    actions.push(WindowAction::SaveWindowState);
    actions.push(WindowAction::SetSkipTaskbar(true));
    actions.push(WindowAction::Minimize);
    tracker.hidden_in_tray = true;
    assert(actions@ =~= hide_actions());
    actions
}

/// Brings the main window back from the tray: put it on the taskbar, show,
/// unminimize and focus it, and have the web view draw again.
pub fn restore_from_tray(tracker: &mut TrayTracker) -> (actions: Vec<WindowAction>)
    ensures
        !final(tracker).hidden_in_tray,
        actions@ == restore_actions(),
{
    let mut actions: Vec<WindowAction> = Vec::new();
    actions.push(WindowAction::SetSkipTaskbar(false));
    actions.push(WindowAction::Show);
    actions.push(WindowAction::Unminimize);
    actions.push(WindowAction::SetFocus);
    actions.push(WindowAction::RepaintWebview);
    tracker.hidden_in_tray = false;
    assert(actions@ =~= restore_actions());
    actions
}

/// The show/hide toggle of the tray: restores the main window when it is in
/// the tray, hides it otherwise, and does nothing when the main window is not
/// found.
pub fn toggle_main_window(tracker: &mut TrayTracker, main_window_found: bool) -> (actions: Vec<
    WindowAction,
>)
    ensures
        final(tracker).hidden_in_tray == hidden_after_toggle(
            old(tracker).hidden_in_tray,
            main_window_found,
        ),
        actions@ == toggle_actions(old(tracker).hidden_in_tray, main_window_found),
        main_window_found ==> final(tracker).hidden_in_tray == !old(tracker).hidden_in_tray,
        main_window_found && old(tracker).hidden_in_tray ==> actions@ == restore_actions(),
        main_window_found && !old(tracker).hidden_in_tray ==> actions@ == hide_actions(),
        !main_window_found ==> *final(tracker) == *old(tracker) && actions@.len() == 0,
{
    if !main_window_found {
        let actions: Vec<WindowAction> = Vec::new();
        assert(actions@ =~= Seq::<WindowAction>::empty());
        actions
    } else if tracker.hidden_in_tray {
        restore_from_tray(tracker)
    } else {
        hide_to_tray(tracker)
    }
}

/// The geometry to record for the main window, from what the window reports:
/// nothing when its inner size cannot be read; a maximized state that cannot
/// be read counts as not maximized.
pub fn save_window_state(inner_size: Option<(u32, u32)>, is_maximized: Option<bool>) -> (g: Option<
    Geometry,
>)
    ensures
        g == (match inner_size {
            Some((width, height)) => Some(
                Geometry {
                    width,
                    height,
                    maximized: is_maximized == Some(true),
                },
            ),
            None => None,
        }),
{
    match inner_size {
        Some((width, height)) => {
            let maximized = match is_maximized {
                Some(m) => m,
                None => false,
            };
            Some(Geometry { width, height, maximized })
        },
        None => None,
    }
}

/// A window event: a close request is always cancelled and moves the main
/// window (when found) into the tray instead; other events do nothing.
pub fn handle_window_event(
    tracker: &mut TrayTracker,
    event: WindowEventKind,
    main_window_found: bool,
) -> (response: WindowEventResponse)
    ensures
        response.prevent_close == (event == WindowEventKind::CloseRequested),
        event == WindowEventKind::CloseRequested && main_window_found ==> {
            &&& final(tracker).hidden_in_tray
            &&& response.actions@ == hide_actions()
        },
        !(event == WindowEventKind::CloseRequested && main_window_found) ==> {
            &&& *final(tracker) == *old(tracker)
            &&& response.actions@ == Seq::<WindowAction>::empty()
        },
{
    match event {
        WindowEventKind::CloseRequested => {
            if main_window_found {
                let actions = hide_to_tray(tracker);
                WindowEventResponse { prevent_close: true, actions }
            } else {
                let actions: Vec<WindowAction> = Vec::new();
                assert(actions@ =~= Seq::<WindowAction>::empty());
                WindowEventResponse { prevent_close: true, actions }
            }
        },
        WindowEventKind::Other => {
            let actions: Vec<WindowAction> = Vec::new();
            assert(actions@ =~= Seq::<WindowAction>::empty());
            WindowEventResponse { prevent_close: false, actions }
        },
    }
}

/// Hiding saves the window's geometry before anything else, takes the window
/// off the taskbar and minimizes it, and never shows, unminimizes or focuses
/// it; restoring puts it back on the taskbar, shows, unminimizes and focuses
/// it and repaints the web view, and never minimizes it, takes it off the
/// taskbar or records its geometry.
pub proof fn lemma_hide_and_restore_steps()
    ensures
        hide_actions().len() > 0,
        hide_actions()[0] == WindowAction::SaveWindowState,
        hide_actions().contains(WindowAction::SetSkipTaskbar(true)),
        hide_actions().contains(WindowAction::Minimize),
        !hide_actions().contains(WindowAction::Show),
        !hide_actions().contains(WindowAction::Unminimize),
        !hide_actions().contains(WindowAction::SetFocus),
        !hide_actions().contains(WindowAction::SetSkipTaskbar(false)),
        restore_actions().contains(WindowAction::SetSkipTaskbar(false)),
        restore_actions().contains(WindowAction::Show),
        restore_actions().contains(WindowAction::Unminimize),
        restore_actions().contains(WindowAction::SetFocus),
        restore_actions().contains(WindowAction::RepaintWebview),
        !restore_actions().contains(WindowAction::Minimize),
        !restore_actions().contains(WindowAction::SaveWindowState),
        !restore_actions().contains(WindowAction::SetSkipTaskbar(true)),
{
    let h = hide_actions();
    let r = restore_actions();
    assert(h[1] == WindowAction::SetSkipTaskbar(true));
    assert(h[2] == WindowAction::Minimize);
    assert(r[0] == WindowAction::SetSkipTaskbar(false));
    assert(r[1] == WindowAction::Show);
    assert(r[2] == WindowAction::Unminimize);
    assert(r[3] == WindowAction::SetFocus);
    assert(r[4] == WindowAction::RepaintWebview);
    assert forall|i: int| 0 <= i < h.len() implies h[i] != WindowAction::Show && h[i]
        != WindowAction::Unminimize && h[i] != WindowAction::SetFocus && h[i]
        != WindowAction::SetSkipTaskbar(false) by {
        assert(i == 0 || i == 1 || i == 2);
    }
    assert forall|i: int| 0 <= i < r.len() implies r[i] != WindowAction::Minimize && r[i]
        != WindowAction::SaveWindowState && r[i] != WindowAction::SetSkipTaskbar(true) by {
        assert(i == 0 || i == 1 || i == 2 || i == 3 || i == 4);
    }
}

/// The toggle flips where the window is when the main window is found and
/// does nothing when it is not.
pub proof fn lemma_toggle_flips(hidden: bool)
    ensures
        hidden_after_toggle(hidden, true) == !hidden,
        hidden_after_toggle(hidden, false) == hidden,
        toggle_actions(hidden, false).len() == 0,
{
}

/// Two presses of the show/hide toggle leave the window where it was.
pub proof fn lemma_toggle_twice(hidden: bool, window_found: bool)
    ensures
        hidden_after_toggle(hidden_after_toggle(hidden, window_found), window_found) == hidden,
{
}

/// With the main window present, the toggle alternates: a hide is followed by
/// a restore and a restore by a hide.
pub proof fn lemma_toggle_alternates(hidden: bool)
    ensures
        toggle_actions(hidden, true) == (if hidden {
            restore_actions()
        } else {
            hide_actions()
        }),
        toggle_actions(hidden_after_toggle(hidden, true), true) == (if hidden {
            hide_actions()
        } else {
            restore_actions()
        }),
{
}

/// A window that started in the tray comes back at the first press of the
/// toggle.
pub proof fn lemma_started_hidden_first_toggle_restores()
    ensures
        toggle_actions(true, true) == restore_actions(),
        !hidden_after_toggle(true, true),
{
}

} // verus!
