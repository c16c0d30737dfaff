use mumba_core::game::ffnx_config::{FfnxConfig, UiFfnxConfig};
use mumba_core::screen::{
    keep_unique_rates, rate_labels, rates_before, Resolution, Screen, XrandrLine,
};
use mumba_core::worker_loop::Edit;

fn screen() -> Screen {
    Screen {
        resolutions: vec![
            Resolution { w: 640, h: 480, freqs: vec![60] },
            Resolution { w: 1280, h: 960, freqs: vec![60, 75] },
            Resolution { w: 1600, h: 1200, freqs: vec![50, 60, 120] },
            Resolution { w: 1280, h: 960, freqs: vec![144] },
        ],
        current_resolution: Some(Resolution { w: 1600, h: 1200, freqs: vec![60] }),
    }
}

fn edit_int(key: &str, value: i64) -> Edit {
    Edit::Int(String::from(key), value)
}

#[test]
fn position_finds_the_first_resolution_of_a_size() {
    let s = screen();
    assert_eq!(s.position(640, 480), Some(0));
    assert_eq!(s.position(1280, 960), Some(1));
    assert_eq!(s.position(1600, 1200), Some(2));
    assert_eq!(s.position(800, 600), None);
    assert_eq!(s.position(1280, 1200), None);
    // A zero side stands for the current size.
    assert_eq!(s.position(0, 0), Some(2));
    assert_eq!(s.position(0, 480), Some(2));
    assert_eq!(s.position(640, 0), Some(2));
    let blind = Screen { resolutions: vec![Resolution { w: 0, h: 0, freqs: vec![] }], current_resolution: None };
    assert_eq!(blind.position(0, 5), Some(0));
    let empty = Screen { resolutions: vec![], current_resolution: None };
    assert_eq!(empty.position(640, 480), None);
    assert_eq!(empty.position(0, 0), None);
}

#[test]
fn refresh_rates_are_found_by_place() {
    let s = screen();
    assert_eq!(s.refresh_rates_len(0), Some(1));
    assert_eq!(s.refresh_rates_len(2), Some(3));
    assert_eq!(s.refresh_rates_len(4), None);
    assert_eq!(s.refresh_rate_position(2, 60), Some(1));
    assert_eq!(s.refresh_rate_position(2, 120), Some(2));
    assert_eq!(s.refresh_rate_position(2, 75), None);
    assert_eq!(s.refresh_rate_position(1, 75), Some(1));
    assert_eq!(s.refresh_rate_position(9, 60), None);
    // A zero rate stands for the current rate.
    assert_eq!(s.refresh_rate_position(2, 0), Some(1));
    assert_eq!(s.refresh_rate_position(3, 0), None);
    let unset = Screen {
        resolutions: vec![Resolution { w: 1, h: 1, freqs: vec![0, 60] }],
        current_resolution: Some(Resolution { w: 1, h: 1, freqs: vec![] }),
    };
    assert_eq!(unset.refresh_rate_position(0, 0), Some(0));
    let none = Screen { resolutions: vec![Resolution { w: 1, h: 1, freqs: vec![60] }], current_resolution: None };
    assert_eq!(none.refresh_rate_position(0, 0), None);
}

#[test]
fn choosing_a_resolution_sets_the_sizes() {
    let s = screen();
    let mut config = FfnxConfig::new();
    let rates = config.apply(&edit_int("current_resolution", 2), &s);
    assert_eq!(rates, Some(vec![50, 60, 120]));
    assert_eq!(config.get_int("window_size_x", 0).ok(), Some(1600));
    assert_eq!(config.get_int("window_size_y", 0).ok(), Some(1200));
    assert_eq!(config.get_int("window_size_x_fullscreen", 0).ok(), Some(1600));
    assert_eq!(config.get_int("window_size_y_fullscreen", 0).ok(), Some(1200));

    // In a window the size in force is the one kept for the window.
    let mut config = FfnxConfig::from_file(
        "fullscreen = false\nwindow_size_x_window = 800\nwindow_size_y_window = 600\n",
    )
    .ok()
    .unwrap();
    assert_eq!(config.apply(&edit_int("current_resolution", 1), &s), Some(vec![60, 75]));
    assert_eq!(config.get_int("window_size_x", 0).ok(), Some(800));
    assert_eq!(config.get_int("window_size_y", 0).ok(), Some(600));
    assert_eq!(config.get_int("window_size_x_fullscreen", 0).ok(), Some(1280));
    assert_eq!(config.get_int("window_size_y_fullscreen", 0).ok(), Some(960));

    // A place that the screen does not have stands for no size.
    for place in [-1, 4, i64::MAX, i64::MIN] {
        let mut config = FfnxConfig::new();
        assert_eq!(config.apply(&edit_int("current_resolution", place), &s), Some(vec![]));
        assert_eq!(config.get_int("window_size_x", 7).ok(), Some(0));
        assert_eq!(config.get_int("window_size_y_fullscreen", 7).ok(), Some(0));
    }
}

#[test]
fn choosing_a_window_size_keeps_it_for_the_window() {
    let s = screen();
    let mut config = FfnxConfig::from_file("window_size_x_fullscreen = 1600\n").ok().unwrap();
    assert_eq!(config.apply(&edit_int("window_size_x", 800), &s), None);
    assert_eq!(config.get_int("window_size_x", 0).ok(), Some(1600));
    assert_eq!(config.get_int("window_size_x_window", 0).ok(), Some(800));
    assert_eq!(config.apply(&edit_int("window_size_y", 600), &s), None);
    assert_eq!(config.get_int("window_size_y", 9).ok(), Some(0));
    assert_eq!(config.get_int("window_size_y_window", 0).ok(), Some(600));

    let mut config = FfnxConfig::from_file("fullscreen = false\n").ok().unwrap();
    config.apply(&edit_int("window_size_y", 600), &s);
    assert_eq!(config.get_int("window_size_y", 0).ok(), Some(600));
    assert_eq!(config.get_int("window_size_y_window", 0).ok(), Some(600));
}

#[test]
fn other_edits_are_stored_as_they_come() {
    let s = screen();
    let mut config = FfnxConfig::new();
    assert_eq!(config.apply(&edit_int("renderer_backend", 3), &s), None);
    assert_eq!(config.apply(&Edit::Bool(String::from("enable_vsync"), false), &s), None);
    assert_eq!(config.apply(&Edit::Text(String::from("mod_path"), String::from("mods")), &s), None);
    assert_eq!(config.apply(&Edit::AppPath(String::from("..")), &s), None);
    assert_eq!(config.get_int("renderer_backend", 0).ok(), Some(3));
    assert_eq!(config.get_bool("enable_vsync", true).ok(), Some(false));
    assert_eq!(config.get_string("mod_path", "").ok().unwrap(), "mods");
    assert_eq!(config.app_path().ok().unwrap(), "..");

    assert_eq!(config.apply(&Edit::RefreshRate(2, 2), &s), None);
    assert_eq!(config.get_int("refresh_rate", -1).ok(), Some(120));
    for (resolution, rate) in [(2, 3), (4, 0), (-1, 0), (0, -1), (i32::MIN, i32::MAX)] {
        config.apply(&Edit::RefreshRate(resolution, rate), &s);
        assert_eq!(config.get_int("refresh_rate", -1).ok(), Some(0));
    }

    config.hide_overlays();
    for key in ["show_fps", "show_renderer_backend", "show_stats", "show_version"] {
        assert_eq!(config.get_bool(key, true).ok(), Some(false));
    }
}

#[test]
fn the_dialog_shows_defaults_for_empty_settings() {
    let shown = FfnxConfig::new().ui_settings(&screen());
    assert_eq!(
        shown,
        UiFfnxConfig {
            renderer_backend: 0,
            fullscreen: true,
            borderless: false,
            enable_vsync: true,
            enable_antialiasing: 0,
            enable_anisotropic: true,
            enable_bilinear: false,
            ff8_use_gamepad_icons: true,
            current_resolution: 2,
            current_refresh_rate: 1,
            internal_resolution_scale: 0,
            window_size_x: 640,
            window_size_y: 480,
        }
    );
    let empty = Screen { resolutions: vec![], current_resolution: None };
    let shown = FfnxConfig::new().ui_settings(&empty);
    assert_eq!(shown.current_resolution, 0);
    assert_eq!(shown.current_refresh_rate, 0);
}

#[test]
fn the_dialog_shows_what_the_settings_hold() {
    let config = FfnxConfig::from_file(
        "renderer_backend = 2\nfullscreen = true\nborderless = true\nenable_vsync = false\n\
         enable_antialiasing = 4\nenable_anisotropic = false\nenable_bilinear = true\n\
         ff8_use_gamepad_icons = false\nrefresh_rate = 75\ninternal_resolution_scale = 3\n\
         window_size_x = 1280\nwindow_size_y = 960\nwindow_size_x_window = 800\nwindow_size_y_window = 600\n",
    )
    .ok()
    .unwrap();
    assert_eq!(
        config.ui_settings(&screen()),
        UiFfnxConfig {
            renderer_backend: 2,
            fullscreen: true,
            borderless: true,
            enable_vsync: false,
            enable_antialiasing: 4,
            enable_anisotropic: false,
            enable_bilinear: true,
            ff8_use_gamepad_icons: false,
            current_resolution: 1,
            current_refresh_rate: 1,
            internal_resolution_scale: 3,
            window_size_x: 800,
            window_size_y: 600,
        }
    );
    // A size that the screen does not offer shows the last resolution.
    let odd = FfnxConfig::from_file("window_size_x = 1024\nwindow_size_y = 768\nrefresh_rate = 144\n")
        .ok()
        .unwrap();
    let shown = odd.ui_settings(&screen());
    assert_eq!(shown.current_resolution, 3);
    assert_eq!(shown.current_refresh_rate, 0);
    // In a window the size in force is that of the window.
    let windowed = FfnxConfig::from_file("fullscreen = false\nwindow_size_x = 1024\nwindow_size_y = 768\n")
        .ok()
        .unwrap();
    let shown = windowed.ui_settings(&screen());
    assert!(!shown.fullscreen);
    assert_eq!(shown.window_size_x, 1024);
    assert_eq!(shown.window_size_y, 1024);
    assert_eq!(shown.current_resolution, 2);
    // Integers are cut down to 32 bits, and values of another type count as absent.
    let wide = FfnxConfig::from_file("renderer_backend = 4294967298\nenable_antialiasing = \"x\"\n")
        .ok()
        .unwrap();
    assert_eq!(wide.shown("renderer_backend", 0), 2);
    assert_eq!(wide.shown("enable_antialiasing", 5), 5);
}

fn sizes(screen: &Screen) -> Vec<(u32, u32, Vec<u32>)> {
    screen.resolutions.iter().map(|r| (r.w, r.h, r.freqs.clone())).collect()
}

#[test]
fn the_modes_of_the_primary_output_are_listed_in_order() {
    let report = vec![
        XrandrLine::Current(1920, 1080),
        XrandrLine::Other,
        XrandrLine::Mode(3840, 2160, vec![60]),
        XrandrLine::Primary,
        XrandrLine::Mode(1920, 1080, vec![60, 0, 50, 60, 59]),
        XrandrLine::Mode(1280, 720, vec![60, 50]),
        XrandrLine::Mode(1600, 1200, vec![60]),
        XrandrLine::Mode(640, 360, vec![60]),
        XrandrLine::Mode(853, 480, vec![60]),
        XrandrLine::Mode(1280, 720, vec![50, 60]),
        XrandrLine::Mode(3840, 2160, vec![0, 0]),
        XrandrLine::Mode(1280, 720, vec![50]),
        XrandrLine::Other,
        XrandrLine::Mode(2560, 1440, vec![60]),
    ];
    let screen = Screen::list_screens_resolutions(&report);
    assert_eq!(
        sizes(&screen),
        vec![
            (1280, 720, vec![50]),
            (1280, 720, vec![50, 60]),
            (1280, 720, vec![60, 50]),
            (1920, 1080, vec![60, 50, 59]),
            (3840, 2160, vec![]),
        ]
    );
    let current = screen.current_resolution.unwrap();
    assert_eq!((current.w, current.h, current.freqs), (1920, 1080, vec![0]));
}

#[test]
fn nothing_is_offered_before_the_current_size_is_known() {
    let report = vec![
        XrandrLine::Primary,
        XrandrLine::Mode(1920, 1080, vec![60]),
        XrandrLine::Current(1920, 1080),
        XrandrLine::Mode(1280, 720, vec![60]),
        XrandrLine::Current(1280, 960),
        XrandrLine::Mode(640, 480, vec![75]),
        XrandrLine::Mode(1280, 720, vec![75]),
    ];
    let screen = Screen::list_screens_resolutions(&report);
    assert_eq!(sizes(&screen), vec![(640, 480, vec![75]), (1280, 720, vec![60])]);
    let current = screen.current_resolution.unwrap();
    assert_eq!((current.w, current.h), (1280, 960));

    let empty = Screen::list_screens_resolutions(&vec![]);
    assert!(empty.resolutions.is_empty());
    assert!(empty.current_resolution.is_none());
    let flat = Screen::list_screens_resolutions(&vec![
        XrandrLine::Current(1920, 0),
        XrandrLine::Primary,
        XrandrLine::Mode(1920, 1080, vec![60]),
    ]);
    assert!(flat.resolutions.is_empty());
}

#[test]
fn rates_are_kept_once_and_lists_of_rates_are_ordered() {
    assert_eq!(keep_unique_rates(&vec![60, 60, 0, 59, 60, 0, 144, 59]), vec![60, 59, 144]);
    assert_eq!(keep_unique_rates(&vec![0, 0]), Vec::<u32>::new());
    assert_eq!(keep_unique_rates(&vec![]), Vec::<u32>::new());
    let lists: Vec<Vec<u32>> =
        vec![vec![], vec![0], vec![50], vec![50, 60], vec![60], vec![60, 50], vec![60, 50, 0], vec![61]];
    for a in &lists {
        for b in &lists {
            assert_eq!(rates_before(a, b), a <= b, "{:?} {:?}", a, b);
        }
    }
    let a = Resolution { w: 1, h: 2, freqs: vec![3] };
    let b = Resolution { w: 1, h: 3, freqs: vec![] };
    let c = Resolution { w: 2, h: 0, freqs: vec![] };
    assert!(a.comes_before(&b) && b.comes_before(&c) && a.comes_before(&c) && a.comes_before(&a));
    assert!(!b.comes_before(&a) && !c.comes_before(&b));
}

#[test]
fn resolutions_and_rates_are_offered_under_labels() {
    assert_eq!(Resolution { w: 1920, h: 1080, freqs: vec![] }.label(), "1920x1080");
    assert_eq!(Resolution { w: 0, h: u32::MAX, freqs: vec![60] }.label(), "0x4294967295");
    assert_eq!(rate_labels(&vec![60, 0, 144]), vec!["60 Hz", "0 Hz", "144 Hz"]);
    assert!(rate_labels(&vec![]).is_empty());
}
