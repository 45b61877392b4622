//! Window, tray and notification logic of a desktop shell around WhatsApp Web.
//!
//! The crate holds the decisions of the shell: the persisted settings and
//! their defaults, what happens at startup, how the main window moves to and
//! from the system tray, what the tray menu shows and does, and how a web
//! notification becomes a desktop notification. The program around it performs
//! the effects (windows, files, D-Bus) and hands results back.

pub mod notification;
pub mod settings;
pub mod startup;
pub mod text;
pub mod tray;
pub mod window;

pub use settings::{
    default_height, default_true, default_width, set_dark_tray_icon, set_setting,
    set_start_in_background_on_boot, set_start_in_background_on_manual_launch, update_geometry,
    AppState, Setting, StoredSettings,
};
pub use window::{
    handle_window_event, hide_to_tray, mark_hidden_in_tray, restore_from_tray, save_window_state,
    toggle_main_window, TrayTracker, WindowAction,
};
