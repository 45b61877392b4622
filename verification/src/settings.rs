//! The persisted settings of the shell and their defaults.

use vstd::prelude::*;

verus! {

/// Name of the file, inside the application's data directory, that holds the
/// settings.
pub const STATE_FILE: &'static str = "window-state.json";

/// Width of the main window when no width was stored.
pub fn default_width() -> (w: u32)
    ensures
        w == 1100,
{
    1100
}

/// Height of the main window when no height was stored.
pub fn default_height() -> (h: u32)
    ensures
        h == 750,
{
    750
}

/// Value of a setting whose default is on.
pub fn default_true() -> (b: bool)
    ensures
        b,
{
    true
}

/// The settings that survive a restart: the geometry of the main window and
/// the user's preferences from the tray menu.
#[derive(Clone, Copy, Debug, PartialEq, Eq, Structural)]
pub struct AppState {
    pub width: u32,
    pub height: u32,
    pub maximized: bool,
    pub start_in_background_on_boot: bool,
    pub start_in_background_on_manual_launch: bool,
    pub dark_tray_icon: bool,
}

/// The settings of a fresh installation.
pub open spec fn spec_default_state() -> AppState {
    AppState {
        width: 1100,
        height: 750,
        maximized: false,
        start_in_background_on_boot: true,
        start_in_background_on_manual_launch: false,
        dark_tray_icon: false,
    }
}

impl Default for AppState {
    fn default() -> (s: Self)
        ensures
            s == spec_default_state(),
            s.width == 1100,
            s.height == 750,
            !s.maximized,
            s.start_in_background_on_boot,
            !s.start_in_background_on_manual_launch,
            !s.dark_tray_icon,
    {
        AppState {
            width: default_width(),
            height: default_height(),
            maximized: false,
            start_in_background_on_boot: default_true(),
            start_in_background_on_manual_launch: false,
            dark_tray_icon: false,
        }
    }
}


/// The settings as the settings file holds them: a field that the file does
/// not hold is `None`.
#[derive(Clone, Copy, Debug, PartialEq, Eq, Structural)]
pub struct StoredSettings {
    pub width: Option<u32>,
    pub height: Option<u32>,
    pub maximized: Option<bool>,
    pub start_in_background_on_boot: Option<bool>,
    pub start_in_background_on_manual_launch: Option<bool>,
    pub dark_tray_icon: Option<bool>,
}

/// One of the preferences that the tray menu switches on and off.
#[derive(Clone, Copy, Debug, PartialEq, Eq, Structural)]
pub enum Setting {
    StartInBackgroundOnBoot,
    StartInBackgroundOnManualLaunch,
    DarkTrayIcon,
}

/// The field of `stored`, or `default` where the file does not hold it.
pub open spec fn or_default<T>(stored: Option<T>, default: T) -> T {
    match stored {
        Some(v) => v,
        None => default,
    }
}

/// The settings that a settings file describes: each field it does not hold
/// takes its default.
pub open spec fn spec_from_stored(stored: StoredSettings) -> AppState {
    let d = spec_default_state();
    AppState {
        width: or_default(stored.width, d.width),
        height: or_default(stored.height, d.height),
        maximized: or_default(stored.maximized, d.maximized),
        start_in_background_on_boot: or_default(
            stored.start_in_background_on_boot,
            d.start_in_background_on_boot,
        ),
        start_in_background_on_manual_launch: or_default(
            stored.start_in_background_on_manual_launch,
            d.start_in_background_on_manual_launch,
        ),
        dark_tray_icon: or_default(stored.dark_tray_icon, d.dark_tray_icon),
    }
}

/// The settings file that records every field of `s`.
pub open spec fn spec_to_stored(s: AppState) -> StoredSettings {
    StoredSettings {
        width: Some(s.width),
        height: Some(s.height),
        maximized: Some(s.maximized),
        start_in_background_on_boot: Some(s.start_in_background_on_boot),
        start_in_background_on_manual_launch: Some(s.start_in_background_on_manual_launch),
        dark_tray_icon: Some(s.dark_tray_icon),
    }
}

/// A settings file that holds no field at all.
pub open spec fn spec_empty_stored() -> StoredSettings {
    StoredSettings {
        width: None,
        height: None,
        maximized: None,
        start_in_background_on_boot: None,
        start_in_background_on_manual_launch: None,
        dark_tray_icon: None,
    }
}

impl AppState {
    /// `self` with a new window geometry.
    pub open spec fn with_geometry(self, width: u32, height: u32, maximized: bool) -> AppState {
        AppState { width, height, maximized, ..self }
    }

    /// The value of one preference.
    pub open spec fn get(self, which: Setting) -> bool {
        match which {
            Setting::StartInBackgroundOnBoot => self.start_in_background_on_boot,
            Setting::StartInBackgroundOnManualLaunch => self.start_in_background_on_manual_launch,
            Setting::DarkTrayIcon => self.dark_tray_icon,
        }
    }

    /// `self` with one preference set to `value`.
    pub open spec fn with_setting(self, which: Setting, value: bool) -> AppState {
        match which {
            Setting::StartInBackgroundOnBoot => AppState {
                start_in_background_on_boot: value,
                ..self
            },
            Setting::StartInBackgroundOnManualLaunch => AppState {
                start_in_background_on_manual_launch: value,
                ..self
            },
            Setting::DarkTrayIcon => AppState { dark_tray_icon: value, ..self },
        }
    }

    /// The settings that a settings file describes, every field it does not
    /// hold taking its default.
    pub fn from_stored(stored: StoredSettings) -> (s: AppState)
        ensures
            s == spec_from_stored(stored),
            stored.width matches Some(v) ==> s.width == v,
            stored.width is None ==> s.width == 1100,
            stored.height matches Some(v) ==> s.height == v,
            stored.height is None ==> s.height == 750,
            stored.maximized matches Some(v) ==> s.maximized == v,
            stored.maximized is None ==> !s.maximized,
            stored.start_in_background_on_boot matches Some(v) ==> s.start_in_background_on_boot == v,
            stored.start_in_background_on_boot is None ==> s.start_in_background_on_boot,
            stored.start_in_background_on_manual_launch matches Some(v)
                ==> s.start_in_background_on_manual_launch == v,
            stored.start_in_background_on_manual_launch is None
                ==> !s.start_in_background_on_manual_launch,
            stored.dark_tray_icon matches Some(v) ==> s.dark_tray_icon == v,
            stored.dark_tray_icon is None ==> !s.dark_tray_icon,
    {
        AppState {
            width: match stored.width {
                Some(v) => v,
                None => default_width(),
            },
            height: match stored.height {
                Some(v) => v,
                None => default_height(),
            },
            maximized: match stored.maximized {
                Some(v) => v,
                None => false,
            },
            start_in_background_on_boot: match stored.start_in_background_on_boot {
                Some(v) => v,
                None => default_true(),
            },
            start_in_background_on_manual_launch: match stored.start_in_background_on_manual_launch {
                Some(v) => v,
                None => false,
            },
            dark_tray_icon: match stored.dark_tray_icon {
                Some(v) => v,
                None => false,
            },
        }
    }

    /// The settings file to write for `self`: it records every field.
    pub fn to_stored(&self) -> (stored: StoredSettings)
        ensures
            stored == spec_to_stored(*self),
            stored.width == Some(self.width),
            stored.height == Some(self.height),
            stored.maximized == Some(self.maximized),
            stored.start_in_background_on_boot == Some(self.start_in_background_on_boot),
            stored.start_in_background_on_manual_launch == Some(
                self.start_in_background_on_manual_launch,
            ),
            stored.dark_tray_icon == Some(self.dark_tray_icon),
    {
        StoredSettings {
            width: Some(self.width),
            height: Some(self.height),
            maximized: Some(self.maximized),
            start_in_background_on_boot: Some(self.start_in_background_on_boot),
            start_in_background_on_manual_launch: Some(self.start_in_background_on_manual_launch),
            dark_tray_icon: Some(self.dark_tray_icon),
        }
    }

    /// The settings in force after reading the settings file: what the file
    /// describes, or the defaults where there is no file, it cannot be read,
    /// or it does not parse (`None`).
    pub fn from_file(contents: Option<StoredSettings>) -> (s: AppState)
        ensures
            s == (match contents {
                Some(stored) => spec_from_stored(stored),
                None => spec_default_state(),
            }),
            contents is None ==> s == (AppState {
                width: 1100,
                height: 750,
                maximized: false,
                start_in_background_on_boot: true,
                start_in_background_on_manual_launch: false,
                dark_tray_icon: false,
            }),
    {
        match contents {
            Some(stored) => AppState::from_stored(stored),
            None => AppState::default(),
        }
    }

    /// The value of one preference.
    pub fn setting(&self, which: Setting) -> (value: bool)
        ensures
            value == self.get(which),
            which == Setting::StartInBackgroundOnBoot ==> value == self.start_in_background_on_boot,
            which == Setting::StartInBackgroundOnManualLaunch ==> value
                == self.start_in_background_on_manual_launch,
            which == Setting::DarkTrayIcon ==> value == self.dark_tray_icon,
    {
        match which {
            Setting::StartInBackgroundOnBoot => self.start_in_background_on_boot,
            Setting::StartInBackgroundOnManualLaunch => self.start_in_background_on_manual_launch,
            Setting::DarkTrayIcon => self.dark_tray_icon,
        }
    }
}

/// Records the geometry of the main window; the preferences stay as they were.
pub fn update_geometry(state: &mut AppState, width: u32, height: u32, maximized: bool)
    ensures
        *final(state) == old(state).with_geometry(width, height, maximized),
        final(state).width == width,
        final(state).height == height,
        final(state).maximized == maximized,
        final(state).start_in_background_on_boot == old(state).start_in_background_on_boot,
        final(state).start_in_background_on_manual_launch
            == old(state).start_in_background_on_manual_launch,
        final(state).dark_tray_icon == old(state).dark_tray_icon,
{
    state.width = width;
    state.height = height;
    state.maximized = maximized;
}

/// Sets whether a launch at boot starts in the tray; nothing else changes.
pub fn set_start_in_background_on_boot(state: &mut AppState, value: bool)
    ensures
        *final(state) == old(state).with_setting(Setting::StartInBackgroundOnBoot, value),
        final(state).start_in_background_on_boot == value,
        final(state).width == old(state).width,
        final(state).height == old(state).height,
        final(state).maximized == old(state).maximized,
        final(state).start_in_background_on_manual_launch == old(state).start_in_background_on_manual_launch,
        final(state).dark_tray_icon == old(state).dark_tray_icon,
{
    state.start_in_background_on_boot = value;
}

/// Sets whether a launch by the user starts in the tray; nothing else changes.
pub fn set_start_in_background_on_manual_launch(state: &mut AppState, value: bool)
    ensures
        *final(state) == old(state).with_setting(Setting::StartInBackgroundOnManualLaunch, value),
        final(state).start_in_background_on_manual_launch == value,
        final(state).width == old(state).width,
        final(state).height == old(state).height,
        final(state).maximized == old(state).maximized,
        final(state).start_in_background_on_boot == old(state).start_in_background_on_boot,
        final(state).dark_tray_icon == old(state).dark_tray_icon,
{
    state.start_in_background_on_manual_launch = value;
}

/// Sets whether the tray shows the dark icon; nothing else changes.
pub fn set_dark_tray_icon(state: &mut AppState, value: bool)
    ensures
        *final(state) == old(state).with_setting(Setting::DarkTrayIcon, value),
        final(state).dark_tray_icon == value,
        final(state).width == old(state).width,
        final(state).height == old(state).height,
        final(state).maximized == old(state).maximized,
        final(state).start_in_background_on_boot == old(state).start_in_background_on_boot,
        final(state).start_in_background_on_manual_launch == old(state).start_in_background_on_manual_launch,
{
    state.dark_tray_icon = value;
}

/// Sets one preference; nothing else changes.
pub fn set_setting(state: &mut AppState, which: Setting, value: bool)
    ensures
        *final(state) == old(state).with_setting(which, value),
        which == Setting::StartInBackgroundOnBoot ==> final(state).start_in_background_on_boot
            == value && final(state).width == old(state).width && final(state).height == old(state).height && final(state).maximized == old(state).maximized && final(state).start_in_background_on_manual_launch == old(state).start_in_background_on_manual_launch && final(state).dark_tray_icon == old(state).dark_tray_icon,
        which == Setting::StartInBackgroundOnManualLaunch
            ==> final(state).start_in_background_on_manual_launch == value && final(state).width == old(state).width && final(state).height == old(state).height && final(state).maximized == old(state).maximized && final(state).start_in_background_on_boot == old(state).start_in_background_on_boot && final(state).dark_tray_icon == old(state).dark_tray_icon,
        which == Setting::DarkTrayIcon ==> final(state).dark_tray_icon == value && final(state).width == old(state).width && final(state).height == old(state).height && final(state).maximized == old(state).maximized && final(state).start_in_background_on_boot == old(state).start_in_background_on_boot && final(state).start_in_background_on_manual_launch == old(state).start_in_background_on_manual_launch,
{
    match which {
        Setting::StartInBackgroundOnBoot => set_start_in_background_on_boot(state, value),
        Setting::StartInBackgroundOnManualLaunch => set_start_in_background_on_manual_launch(
            state,
            value,
        ),
        Setting::DarkTrayIcon => set_dark_tray_icon(state, value),
    }
}

/// A settings file is read field by field: a field that the file holds is
/// read as written, and a field that it does not hold takes its documented
/// default (width 1100, height 750, not maximized, start in the tray at boot,
/// show the window at manual launches, white tray icon).
pub proof fn lemma_stored_fields_read_as_written(stored: StoredSettings)
    ensures
        ({
            let s = spec_from_stored(stored);
            &&& s.width == (match stored.width { Some(v) => v, None => 1100u32 })
            &&& s.height == (match stored.height { Some(v) => v, None => 750u32 })
            &&& s.maximized == (match stored.maximized { Some(v) => v, None => false })
            &&& s.start_in_background_on_boot == (match stored.start_in_background_on_boot {
                Some(v) => v,
                None => true,
            })
            &&& s.start_in_background_on_manual_launch == (
            match stored.start_in_background_on_manual_launch {
                Some(v) => v,
                None => false,
            })
            &&& s.dark_tray_icon == (match stored.dark_tray_icon { Some(v) => v, None => false })
        }),
{
}

/// Saving writes every field as it is.
pub proof fn lemma_every_field_written_as_is(s: AppState)
    ensures
        spec_to_stored(s).width == Some(s.width),
        spec_to_stored(s).height == Some(s.height),
        spec_to_stored(s).maximized == Some(s.maximized),
        spec_to_stored(s).start_in_background_on_boot == Some(s.start_in_background_on_boot),
        spec_to_stored(s).start_in_background_on_manual_launch == Some(
            s.start_in_background_on_manual_launch,
        ),
        spec_to_stored(s).dark_tray_icon == Some(s.dark_tray_icon),
{
}

/// Each preference is its own field of the settings: reading one gives that
/// field, and writing one changes that field alone; recording the geometry
/// changes the three geometry fields alone.
pub proof fn lemma_setting_fields(s: AppState, value: bool, width: u32, height: u32)
    ensures
        s.get(Setting::StartInBackgroundOnBoot) == s.start_in_background_on_boot,
        s.get(Setting::StartInBackgroundOnManualLaunch) == s.start_in_background_on_manual_launch,
        s.get(Setting::DarkTrayIcon) == s.dark_tray_icon,
        s.with_setting(Setting::StartInBackgroundOnBoot, value) == (AppState {
            start_in_background_on_boot: value,
            ..s
        }),
        s.with_setting(Setting::StartInBackgroundOnManualLaunch, value) == (AppState {
            start_in_background_on_manual_launch: value,
            ..s
        }),
        s.with_setting(Setting::DarkTrayIcon, value) == (AppState { dark_tray_icon: value, ..s }),
        s.with_geometry(width, height, value) == (AppState {
            width,
            height,
            maximized: value,
            ..s
        }),
{
}

/// Writing every field of the settings and reading them back gives the same
/// settings.
pub proof fn lemma_stored_round_trip(s: AppState)
    ensures
        spec_from_stored(spec_to_stored(s)) == s,
{
}

/// A settings file that holds no field describes the defaults.
pub proof fn lemma_empty_file_is_default()
    ensures
        spec_from_stored(spec_empty_stored()) == spec_default_state(),
{
}

/// A preference reads back the value last written to it, and the others keep
/// theirs, as does the window geometry.
pub proof fn lemma_setting_read_after_write(s: AppState, which: Setting, other: Setting, value: bool)
    ensures
        s.with_setting(which, value).get(which) == value,
        other != which ==> s.with_setting(which, value).get(other) == s.get(other),
        s.with_setting(which, value).width == s.width,
        s.with_setting(which, value).height == s.height,
        s.with_setting(which, value).maximized == s.maximized,
{
}

/// Of two writes to one preference, the later one wins.
pub proof fn lemma_setting_last_write_wins(s: AppState, which: Setting, first: bool, second: bool)
    ensures
        s.with_setting(which, first).with_setting(which, second) == s.with_setting(which, second),
{
}

/// Writes to two different preferences can happen in either order.
pub proof fn lemma_settings_commute(s: AppState, a: Setting, x: bool, b: Setting, y: bool)
    requires
        a != b,
    ensures
        s.with_setting(a, x).with_setting(b, y) == s.with_setting(b, y).with_setting(a, x),
{
}

/// Recording the window geometry and writing a preference can happen in either
/// order; the geometry leaves every preference as it was.
pub proof fn lemma_geometry_keeps_settings(
    s: AppState,
    width: u32,
    height: u32,
    maximized: bool,
    which: Setting,
    value: bool,
)
    ensures
        s.with_geometry(width, height, maximized).get(which) == s.get(which),
        s.with_geometry(width, height, maximized).with_setting(which, value) == s.with_setting(
            which,
            value,
        ).with_geometry(width, height, maximized),
{
}

/// Switching a preference twice from the tray menu gives back the settings one
/// started with.
pub proof fn lemma_flip_twice(s: AppState, which: Setting)
    ensures
        ({
            let once = s.with_setting(which, !s.get(which));
            once.with_setting(which, !once.get(which)) == s
        }),
{
}

} // verus!
