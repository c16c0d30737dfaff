//! The settings file of the enhancement runtime.

use crate::toml::{document_text, parsed_entries, boolean_at, document_entries, get_boolean, get_integer, get_string, integer_at, new_document, no_entries, parse_from_text, save_to_text, set_boolean, set_integer, set_text, string_at, EntryView, FileError, ValueError, ValueErrorView};
use crate::screen::Screen;
use crate::worker_loop::{Edit, EditView};
use vstd::prelude::*;

verus! {

pub const CFG_APP_PATH: &'static str = "app_path";

pub const CFG_RENDERER_BACKEND: &'static str = "renderer_backend";

pub const CFG_FULLSCREEN: &'static str = "fullscreen";

pub const CFG_BORDERLESS: &'static str = "borderless";

pub const CFG_ENABLE_VSYNC: &'static str = "enable_vsync";

pub const CFG_ENABLE_ANTIALIASING: &'static str = "enable_antialiasing";

pub const CFG_ENABLE_ANISOTROPIC: &'static str = "enable_anisotropic";

pub const CFG_ENABLE_BILINEAR: &'static str = "enable_bilinear";

pub const CFG_FF8_USE_GAMEPAD_ICONS: &'static str = "ff8_use_gamepad_icons";

pub const CFG_REFRESH_RATE: &'static str = "refresh_rate";

pub const CFG_INTERNAL_RESOLUTION_SCALE: &'static str = "internal_resolution_scale";

pub const CFG_WINDOW_SIZE_X: &'static str = "window_size_x";

pub const CFG_WINDOW_SIZE_Y: &'static str = "window_size_y";

pub const CFG_WINDOW_SIZE_X_FULLSCREEN: &'static str = "window_size_x_fullscreen";

pub const CFG_WINDOW_SIZE_Y_FULLSCREEN: &'static str = "window_size_y_fullscreen";

pub const CFG_WINDOW_SIZE_X_WINDOW: &'static str = "window_size_x_window";

pub const CFG_WINDOW_SIZE_Y_WINDOW: &'static str = "window_size_y_window";

/// The settings of the enhancement runtime.
pub struct FfnxConfig {
    inner: toml_edit::DocumentMut,
}

impl FfnxConfig {
    /// The top-level keys of the settings, each with what it holds.
    pub closed spec fn entries(&self) -> Map<Seq<char>, EntryView> {
        document_entries(self.inner)
    }

    /// The settings written out as text, with the spaces and comments that
    /// they were read with.
    pub closed spec fn text(&self) -> Seq<char> {
        document_text(self.inner)
    }

    /// Empty settings.
    pub fn new() -> (config: FfnxConfig)
        ensures
            config.entries() == no_entries(),
    {
        FfnxConfig { inner: new_document() }
    }

    /// The settings that the contents of a settings file hold: those that
    /// the parser reads from them, or the parser's error where it reads
    /// none.
    pub fn from_file(contents: &str) -> (config: Result<FfnxConfig, FileError>)
        ensures
            match config {
                Ok(c) => parsed_entries(contents@) == Some(c.entries()),
                Err(e) => e is TomlError && parsed_entries(contents@) is None,
            },
    {
        match parse_from_text(contents) {
            Ok(inner) => Ok(FfnxConfig { inner }),
            Err(e) => Err(e),
        }
    }

    /// The contents that a settings file is to hold for these settings:
    /// the settings written out.
    pub fn save(&self) -> (contents: String)
        ensures
            contents@ == self.text(),
    {
        save_to_text(&self.inner)
    }

    /// The directory of the game that the runtime is to work on; empty where
    /// none is set.
    pub fn app_path(&self) -> (path: Result<String, ValueError>)
        ensures
            match path {
                Ok(p) => string_at(self.entries(), CFG_APP_PATH@, ""@) == Ok::<
                    Seq<char>,
                    ValueErrorView,
                >(p@),
                Err(e) => string_at(self.entries(), CFG_APP_PATH@, ""@) == Err::<
                    Seq<char>,
                    ValueErrorView,
                >(e@),
            },
    {
        get_string(&self.inner, CFG_APP_PATH, "")
    }

    /// Sets the directory of the game that the runtime is to work on.
    pub fn set_app_path(&mut self, value: String)
        ensures
            final(self).entries() == old(self).entries().insert(
                CFG_APP_PATH@,
                EntryView::Text(value@),
            ),
    {
        self.set_string(CFG_APP_PATH, value)
    }

    /// Stores a boolean under a key.
    pub fn set_bool(&mut self, key: &str, value: bool)
        ensures
            final(self).entries() == old(self).entries().insert(key@, EntryView::Boolean(value)),
    {
        set_boolean(&mut self.inner, key, value)
    }

    /// Reads the boolean under a key, or `default` where the key is absent.
    pub fn get_bool(&self, key: &str, default: bool) -> (value: Result<bool, ValueError>)
        ensures
            match value {
                Ok(b) => boolean_at(self.entries(), key@, default) == Ok::<bool, ValueErrorView>(b),
                Err(e) => boolean_at(self.entries(), key@, default) == Err::<bool, ValueErrorView>(
                    e@,
                ),
            },
    {
        get_boolean(&self.inner, key, default)
    }

    /// Stores an integer under a key.
    pub fn set_int(&mut self, key: &str, value: i64)
        ensures
            final(self).entries() == old(self).entries().insert(key@, EntryView::Integer(value)),
    {
        set_integer(&mut self.inner, key, value)
    }

    /// Reads the integer under a key, or `default` where the key is absent.
    pub fn get_int(&self, key: &str, default: i64) -> (value: Result<i64, ValueError>)
        ensures
            match value {
                Ok(n) => integer_at(self.entries(), key@, default) == Ok::<i64, ValueErrorView>(n),
                Err(e) => integer_at(self.entries(), key@, default) == Err::<i64, ValueErrorView>(
                    e@,
                ),
            },
    {
        get_integer(&self.inner, key, default)
    }

    /// Stores a text under a key.
    pub fn set_string(&mut self, key: &str, value: String)
        ensures
            final(self).entries() == old(self).entries().insert(key@, EntryView::Text(value@)),
    {
        set_text(&mut self.inner, key, value)
    }

    /// Reads the text under a key, or `default` where the key is absent.
    pub fn get_string(&self, key: &str, default: &str) -> (value: Result<String, ValueError>)
        ensures
            match value {
                Ok(s) => string_at(self.entries(), key@, default@) == Ok::<
                    Seq<char>,
                    ValueErrorView,
                >(s@),
                Err(e) => string_at(self.entries(), key@, default@) == Err::<
                    Seq<char>,
                    ValueErrorView,
                >(e@),
            },
    {
        get_string(&self.inner, key, default)
    }

    /// Reads a boolean as the settings dialog does: a key that holds no
    /// boolean counts as absent.
    pub fn bool_or(&self, key: &str, default: bool) -> (value: bool)
        ensures
            value == match boolean_at(self.entries(), key@, default) {
                Ok(b) => b,
                Err(_) => default,
            },
    {
        match self.get_bool(key, default) {
            Ok(b) => b,
            Err(_) => default,
        }
    }

    /// Reads an integer as the settings dialog does: a key that holds no
    /// integer counts as absent.
    pub fn int_or(&self, key: &str, default: i64) -> (value: i64)
        ensures
            value == match integer_at(self.entries(), key@, default) {
                Ok(n) => n,
                Err(_) => default,
            },
    {
        match self.get_int(key, default) {
            Ok(n) => n,
            Err(_) => default,
        }
    }
}

impl Default for FfnxConfig {
    fn default() -> (config: FfnxConfig)
        ensures
            config.entries() == no_entries(),
    {
        FfnxConfig::new()
    }
}


/// What the settings dialog shows.
#[derive(Clone, Copy, Debug, PartialEq, Eq, Structural)]
pub struct UiFfnxConfig {
    pub renderer_backend: i32,
    pub fullscreen: bool,
    pub borderless: bool,
    pub enable_vsync: bool,
    pub enable_antialiasing: i32,
    pub enable_anisotropic: bool,
    pub enable_bilinear: bool,
    pub ff8_use_gamepad_icons: bool,
    /// The place of the resolution among those of the screen.
    pub current_resolution: i32,
    /// The place of the refresh rate among those of the resolution.
    pub current_refresh_rate: i32,
    pub internal_resolution_scale: i32,
    pub window_size_x: i32,
    pub window_size_y: i32,
}

/// The boolean under a key, as the dialog reads it.
pub open spec fn bool_of(entries: Map<Seq<char>, EntryView>, key: Seq<char>, default: bool) -> bool {
    match boolean_at(entries, key, default) {
        Ok(b) => b,
        Err(_) => default,
    }
}

/// The integer under a key, as the dialog reads it.
pub open spec fn int_of(entries: Map<Seq<char>, EntryView>, key: Seq<char>, default: i64) -> i64 {
    match integer_at(entries, key, default) {
        Ok(n) => n,
        Err(_) => default,
    }
}

/// The integer under a key, as the dialog shows it: cut down to 32 bits.
pub open spec fn shown_int(entries: Map<Seq<char>, EntryView>, key: Seq<char>, default: i32) -> i32 {
    int_of(entries, key, default as i64) as i32
}

/// Whether the game fills the screen; it does unless the settings say
/// otherwise.
pub open spec fn fullscreen_of(entries: Map<Seq<char>, EntryView>) -> bool {
    bool_of(entries, CFG_FULLSCREEN@, true)
}

/// The size of the resolution at a place of the screen's list; zero where
/// the list has no such place.
pub open spec fn size_at(screen: Screen, place: i64) -> (u32, u32) {
    if 0 <= place < screen.resolutions.len() {
        (screen.resolutions[place as int].w, screen.resolutions[place as int].h)
    } else {
        (0, 0)
    }
}

/// The refresh rates of the resolution at a place of the screen's list;
/// none where the list has no such place.
pub open spec fn rates_at(screen: Screen, place: i64) -> Seq<u32> {
    if 0 <= place < screen.resolutions.len() {
        screen.resolutions[place as int].freqs@
    } else {
        Seq::empty()
    }
}

/// The refresh rate at a place among those of a resolution; zero where
/// there is none.
pub open spec fn rate_at(screen: Screen, resolution: i32, rate: i32) -> i64 {
    let rates = rates_at(screen, resolution as i64);
    if 0 <= rate < rates.len() {
        rates[rate as int] as i64
    } else {
        0
    }
}

/// The settings after a resolution of the screen has been chosen. The size
/// for the full screen becomes that of the resolution. The size in force
/// becomes that one too where the game fills the screen, else the size kept
/// for the window.
pub open spec fn with_resolution(entries: Map<Seq<char>, EntryView>, screen: Screen, place: i64) -> Map<
    Seq<char>,
    EntryView,
> {
    let (w, h) = size_at(screen, place);
    let (x, y) = if fullscreen_of(entries) {
        (w as i64, h as i64)
    } else {
        (
            int_of(entries, CFG_WINDOW_SIZE_X_WINDOW@, 0),
            int_of(entries, CFG_WINDOW_SIZE_Y_WINDOW@, 0),
        )
    };
    entries.insert(CFG_WINDOW_SIZE_X@, EntryView::Integer(x)).insert(
        CFG_WINDOW_SIZE_Y@,
        EntryView::Integer(y),
    ).insert(CFG_WINDOW_SIZE_X_FULLSCREEN@, EntryView::Integer(w as i64)).insert(
        CFG_WINDOW_SIZE_Y_FULLSCREEN@,
        EntryView::Integer(h as i64),
    )
}

/// The settings after one side of the window's size has been chosen. The
/// size is kept for the window. The size in force becomes that one too,
/// unless the game fills the screen: then it becomes the size kept for the
/// full screen.
pub open spec fn with_window_size(entries: Map<Seq<char>, EntryView>, key: Seq<char>, value: i64) -> Map<
    Seq<char>,
    EntryView,
> {
    let in_force = if fullscreen_of(entries) {
        int_of(entries, key + "_fullscreen"@, 0)
    } else {
        value
    };
    entries.insert(key, EntryView::Integer(in_force)).insert(
        key + "_window"@,
        EntryView::Integer(value),
    )
}

/// The settings after an edit.
pub open spec fn edited(entries: Map<Seq<char>, EntryView>, edit: EditView, screen: Screen) -> Map<
    Seq<char>,
    EntryView,
> {
    match edit {
        EditView::Bool(key, value) => entries.insert(key, EntryView::Boolean(value)),
        EditView::Text(key, value) => entries.insert(key, EntryView::Text(value)),
        EditView::AppPath(path) => entries.insert(CFG_APP_PATH@, EntryView::Text(path)),
        EditView::RefreshRate(resolution, rate) => entries.insert(
            CFG_REFRESH_RATE@,
            EntryView::Integer(rate_at(screen, resolution, rate)),
        ),
        EditView::Int(key, value) => if key == "current_resolution"@ {
            with_resolution(entries, screen, value)
        } else if key == CFG_WINDOW_SIZE_X@ || key == CFG_WINDOW_SIZE_Y@ {
            with_window_size(entries, key, value)
        } else {
            entries.insert(key, EntryView::Integer(value))
        },
    }
}

/// The refresh rates that the dialog has to show after an edit: those of
/// the resolution that was chosen, where one was chosen.
pub open spec fn rates_after(edit: EditView, screen: Screen) -> Option<Seq<u32>> {
    match edit {
        EditView::Int(key, value) => if key == "current_resolution"@ {
            Some(rates_at(screen, value))
        } else {
            None
        },
        _ => None,
    }
}

impl FfnxConfig {
    /// Switches the overlays of the runtime off.
    pub fn hide_overlays(&mut self)
        ensures
            final(self).entries() == old(self).entries().insert(
                "show_fps"@,
                EntryView::Boolean(false),
            ).insert("show_renderer_backend"@, EntryView::Boolean(false)).insert(
                "show_stats"@,
                EntryView::Boolean(false),
            ).insert("show_version"@, EntryView::Boolean(false)),
    {
        self.set_bool("show_fps", false);
        self.set_bool("show_renderer_backend", false);
        self.set_bool("show_stats", false);
        self.set_bool("show_version", false);
    }

    /// Carries an edit of the user out. Where the edit chooses a resolution,
    /// the refresh rates of that resolution are handed back for the dialog
    /// to show.
    pub fn apply(&mut self, edit: &Edit, screen: &Screen) -> (rates: Option<Vec<u32>>)
        ensures
            final(self).entries() == edited(old(self).entries(), edit@, *screen),
            match rates {
                Some(r) => rates_after(edit@, *screen) == Some(r@),
                None => rates_after(edit@, *screen) is None,
            },
    {
        match edit {
            Edit::Bool(key, value) => {
                self.set_bool(key.as_str(), *value);
                None
            },
            Edit::Text(key, value) => {
                self.set_string(key.as_str(), value.clone());
                None
            },
            Edit::AppPath(path) => {
                self.set_app_path(path.clone());
                None
            },
            Edit::RefreshRate(resolution, rate) => {
                let mut value: i64 = 0;
                if *resolution >= 0 && (*resolution as usize) < screen.resolutions.len() {
                    let freqs = &screen.resolutions[*resolution as usize].freqs;
                    if *rate >= 0 && (*rate as usize) < freqs.len() {
                        value = freqs[*rate as usize] as i64;
                    }
                }
                self.set_int(CFG_REFRESH_RATE, value);
                None
            },
            Edit::Int(key, value) => {
                let value: i64 = *value;
                if *key == "current_resolution".to_string() {
                    let chosen = value >= 0 && (value as u64) < (screen.resolutions.len() as u64);
                    let (w, h): (u32, u32) = if chosen {
                        (screen.resolutions[value as usize].w, screen.resolutions[value as usize].h)
                    } else {
                        (0, 0)
                    };
                    let (x, y): (i64, i64) = if self.bool_or(CFG_FULLSCREEN, true) {
                        (w as i64, h as i64)
                    } else {
                        (
                            self.int_or(CFG_WINDOW_SIZE_X_WINDOW, 0),
                            self.int_or(CFG_WINDOW_SIZE_Y_WINDOW, 0),
                        )
                    };
                    self.set_int(CFG_WINDOW_SIZE_X, x);
                    self.set_int(CFG_WINDOW_SIZE_Y, y);
                    self.set_int(CFG_WINDOW_SIZE_X_FULLSCREEN, w as i64);
                    self.set_int(CFG_WINDOW_SIZE_Y_FULLSCREEN, h as i64);
                    if chosen {
                        Some(screen.resolutions[value as usize].freqs.clone())
                    } else {
                        Some(Vec::new())
                    }
                } else if *key == CFG_WINDOW_SIZE_X.to_string() || *key == CFG_WINDOW_SIZE_Y.to_string() {
                    let mut fullscreen_key = key.clone();
                    fullscreen_key.append("_fullscreen");
                    let mut window_key = key.clone();
                    window_key.append("_window");
                    let in_force: i64 = if self.bool_or(CFG_FULLSCREEN, true) {
                        self.int_or(fullscreen_key.as_str(), 0)
                    } else {
                        value
                    };
                    self.set_int(key.as_str(), in_force);
                    self.set_int(window_key.as_str(), value);
                    None
                } else {
                    self.set_int(key.as_str(), value);
                    None
                }
            },
        }
    }
}


/// What the settings dialog shows for the given settings and screen.
///
/// The size in force counts as the size for the full screen where the game
/// fills the screen; it is overridden by the size kept for the full screen.
/// Where the game does not fill the screen, the width in force stands for
/// both sides of the window; each is overridden by the side kept for the
/// window. A window without a size is shown as 640 by 480.
pub open spec fn ui_settings_spec(entries: Map<Seq<char>, EntryView>, screen: Screen) -> UiFfnxConfig {
    let fullscreen = fullscreen_of(entries);
    let x = shown_int(entries, CFG_WINDOW_SIZE_X@, 0);
    let y = shown_int(entries, CFG_WINDOW_SIZE_Y@, 0);
    let window_x = if fullscreen {
        0
    } else {
        x
    };
    let window_y = if fullscreen {
        0
    } else {
        x
    };
    let full_x = shown_int(
        entries,
        CFG_WINDOW_SIZE_X_FULLSCREEN@,
        if fullscreen {
            x
        } else {
            0
        },
    ) as u32;
    let full_y = shown_int(
        entries,
        CFG_WINDOW_SIZE_Y_FULLSCREEN@,
        if fullscreen {
            y
        } else {
            0
        },
    ) as u32;
    let resolution = match screen.position_of(full_x, full_y) {
        Some(i) => i,
        None => if screen.resolutions.len() == 0 {
            0
        } else {
            screen.resolutions.len() - 1
        },
    };
    let rate = match screen.rate_position_of(
        resolution,
        shown_int(entries, CFG_REFRESH_RATE@, 0) as u32,
    ) {
        Some(i) => i,
        None => 0,
    };
    UiFfnxConfig {
        renderer_backend: shown_int(entries, CFG_RENDERER_BACKEND@, 0),
        fullscreen,
        borderless: bool_of(entries, CFG_BORDERLESS@, false),
        enable_vsync: bool_of(entries, CFG_ENABLE_VSYNC@, true),
        enable_antialiasing: shown_int(entries, CFG_ENABLE_ANTIALIASING@, 0),
        enable_anisotropic: bool_of(entries, CFG_ENABLE_ANISOTROPIC@, true),
        enable_bilinear: bool_of(entries, CFG_ENABLE_BILINEAR@, false),
        ff8_use_gamepad_icons: bool_of(entries, CFG_FF8_USE_GAMEPAD_ICONS@, true),
        current_resolution: (resolution as usize) as i32,
        current_refresh_rate: (rate as usize) as i32,
        internal_resolution_scale: shown_int(entries, CFG_INTERNAL_RESOLUTION_SCALE@, 0),
        window_size_x: shown_int(
            entries,
            CFG_WINDOW_SIZE_X_WINDOW@,
            if window_x == 0 {
                640
            } else {
                window_x
            },
        ),
        window_size_y: shown_int(
            entries,
            CFG_WINDOW_SIZE_Y_WINDOW@,
            if window_y == 0 {
                480
            } else {
                window_y
            },
        ),
    }
}

impl FfnxConfig {
    /// Reads an integer as the settings dialog shows it.
    pub fn shown(&self, key: &str, default: i32) -> (value: i32)
        ensures
            value == shown_int(self.entries(), key@, default),
    {
        #[verifier::truncate]
        (self.int_or(key, default as i64) as i32)
    }

    /// What the settings dialog shows for these settings and a screen.
    pub fn ui_settings(&self, screen: &Screen) -> (shown: UiFfnxConfig)
        ensures
            shown == ui_settings_spec(self.entries(), *screen),
    {
        let fullscreen = self.bool_or(CFG_FULLSCREEN, true);
        let x: i32 = self.shown(CFG_WINDOW_SIZE_X, 0);
        let y: i32 = self.shown(CFG_WINDOW_SIZE_Y, 0);
        let window_x: i32 = if fullscreen {
            0
        } else {
            x
        };
        let window_y: i32 = if fullscreen {
            0
        } else {
            x
        };
        let full_x: u32 = #[verifier::truncate]
        (self.shown(
            CFG_WINDOW_SIZE_X_FULLSCREEN,
            if fullscreen {
                x
            } else {
                0
            },
        ) as u32);
        let full_y: u32 = #[verifier::truncate]
        (self.shown(
            CFG_WINDOW_SIZE_Y_FULLSCREEN,
            if fullscreen {
                y
            } else {
                0
            },
        ) as u32);
        let resolution: usize = match screen.position(full_x, full_y) {
            Some(i) => i,
            None => if screen.resolutions.len() == 0 {
                0
            } else {
                screen.resolutions.len() - 1
            },
        };
        let refresh: u32 = #[verifier::truncate]
        (self.shown(CFG_REFRESH_RATE, 0) as u32);
        let rate: usize = match screen.refresh_rate_position(resolution, refresh) {
            Some(i) => i,
            None => 0,
        };
        UiFfnxConfig {
            renderer_backend: self.shown(CFG_RENDERER_BACKEND, 0),
            fullscreen,
            borderless: self.bool_or(CFG_BORDERLESS, false),
            enable_vsync: self.bool_or(CFG_ENABLE_VSYNC, true),
            enable_antialiasing: self.shown(CFG_ENABLE_ANTIALIASING, 0),
            enable_anisotropic: self.bool_or(CFG_ENABLE_ANISOTROPIC, true),
            enable_bilinear: self.bool_or(CFG_ENABLE_BILINEAR, false),
            ff8_use_gamepad_icons: self.bool_or(CFG_FF8_USE_GAMEPAD_ICONS, true),
            current_resolution: #[verifier::truncate]
            (resolution as i32),
            current_refresh_rate: #[verifier::truncate]
            (rate as i32),
            internal_resolution_scale: self.shown(CFG_INTERNAL_RESOLUTION_SCALE, 0),
            window_size_x: self.shown(
                CFG_WINDOW_SIZE_X_WINDOW,
                if window_x == 0 {
                    640
                } else {
                    window_x
                },
            ),
            window_size_y: self.shown(
                CFG_WINDOW_SIZE_Y_WINDOW,
                if window_y == 0 {
                    480
                } else {
                    window_y
                },
            ),
        }
    }
}

} // verus!
