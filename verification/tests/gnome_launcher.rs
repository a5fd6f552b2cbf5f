use dynamic_launcher::clock::{window_title, ClockMode};
use dynamic_launcher::gnome::{
    desktop_is_gnome_like, detect_magnifier_backend, gnome_close_magnifier_async, gnome_launch_magnifier_fullscreen_175,
    gnome_launch_magnifier_lens_175, gnome_magnifier_enabled, gnome_magnifier_mode, gnome_zoom_writes, gsettings_value, is_gnome_desktop,
    DynamicLauncherApp, Effect, GSettingWrite, MagnifierBackend, APP_SCHEMA, HELP_TEXT, MAG_SCHEMA,
};
use dynamic_launcher::strip::KeyPresses;
use dynamic_launcher::zoom::ZoomRequest;

fn press(tab_or_right: bool, left: bool, enter_or_space: bool, esc: bool, f1: bool) -> KeyPresses {
    KeyPresses { tab_or_right, left, enter_or_space, esc, f1 }
}

fn s(x: &str) -> Option<String> {
    Some(x.to_string())
}

fn triples(ws: &[GSettingWrite]) -> Vec<(&str, &str, &str)> {
    ws.iter().map(|w| (w.schema, w.key, w.value)).collect()
}

#[test]
fn gnome_desktops_are_recognised() {
    assert!(is_gnome_desktop("ubuntu:gnome"));
    assert!(!is_gnome_desktop("ubuntu:GNOME"));
    assert!(desktop_is_gnome_like(s("ubuntu:GNOME"), None));
    assert!(desktop_is_gnome_like(None, s("Gnome-Classic")));
    assert!(desktop_is_gnome_like(s("GNOME"), s("kde")));
    assert!(!desktop_is_gnome_like(s("KDE"), s("gnome")));
    assert!(!desktop_is_gnome_like(None, None));
}

#[test]
fn backend_needs_gnome_and_gsettings() {
    assert_eq!(detect_magnifier_backend(true, Some(true)), MagnifierBackend::Gnome);
    assert_eq!(detect_magnifier_backend(true, Some(false)), MagnifierBackend::Unavailable);
    assert_eq!(detect_magnifier_backend(false, None), MagnifierBackend::Unavailable);
}

#[test]
fn gsettings_output_is_decoded_and_trimmed() {
    assert_eq!(gsettings_value(true, b"true\n"), s("true"));
    assert_eq!(gsettings_value(true, b"  'full-screen'\n"), s("'full-screen'"));
    assert_eq!(gsettings_value(true, b"a\xffb"), s("a\u{FFFD}b"));
    assert_eq!(gsettings_value(false, b"true\n"), None);
    assert_eq!(gsettings_value(true, b""), s(""));
}

#[test]
fn zoom_is_on_only_when_gsettings_says_true() {
    assert!(gnome_magnifier_enabled(true, Some(s("true"))));
    assert!(!gnome_magnifier_enabled(true, Some(s("false"))));
    assert!(!gnome_magnifier_enabled(true, Some(None)));
    assert!(!gnome_magnifier_enabled(false, None));
}

#[test]
fn zoom_mode_from_position_and_lens() {
    assert_eq!(gnome_magnifier_mode(false, None, None), (false, false));
    assert_eq!(gnome_magnifier_mode(true, Some(s("'full-screen'")), Some(s("false"))), (true, false));
    assert_eq!(gnome_magnifier_mode(true, Some(s("'full-screen'")), Some(s(" true "))), (false, true));
    assert_eq!(gnome_magnifier_mode(true, Some(s("'top-half'")), Some(s("false"))), (false, false));
    assert_eq!(gnome_magnifier_mode(true, Some(None), Some(None)), (false, false));
}

#[test]
fn fullscreen_zoom_writes() {
    let w = gnome_launch_magnifier_fullscreen_175(true);
    assert_eq!(
        triples(&w),
        vec![
            (MAG_SCHEMA, "mag-factor", "1.75"),
            (MAG_SCHEMA, "screen-position", "'full-screen'"),
            (MAG_SCHEMA, "lens-mode", "false"),
            (MAG_SCHEMA, "mouse-tracking", "'proportional'"),
            (MAG_SCHEMA, "focus-tracking", "'proportional'"),
            (MAG_SCHEMA, "caret-tracking", "'centered'"),
            (MAG_SCHEMA, "show-cross-hairs", "false"),
            (MAG_SCHEMA, "invert-lightness", "false"),
            (MAG_SCHEMA, "scroll-at-edges", "true"),
            (APP_SCHEMA, "screen-magnifier-enabled", "true"),
        ]
    );
    assert!(gnome_launch_magnifier_fullscreen_175(false).is_empty());
}

#[test]
fn lens_zoom_writes() {
    let w = gnome_launch_magnifier_lens_175(true);
    assert_eq!(w.len(), 10);
    assert_eq!(triples(&w)[0], (MAG_SCHEMA, "mag-factor", "2.5"));
    assert_eq!(triples(&w)[1], (MAG_SCHEMA, "screen-position", "'top-half'"));
    assert_eq!(triples(&w)[2], (MAG_SCHEMA, "lens-mode", "true"));
    assert_eq!(triples(&w)[7], (MAG_SCHEMA, "scroll-at-edges", "false"));
    assert_eq!(triples(&w)[9], (APP_SCHEMA, "screen-magnifier-enabled", "true"));
    assert!(gnome_launch_magnifier_lens_175(false).is_empty());
}

#[test]
fn closing_switches_zoom_off() {
    assert_eq!(
        triples(&gnome_close_magnifier_async(true)),
        vec![("org.gnome.desktop.a11y.applications", "screen-magnifier-enabled", "false")]
    );
    assert!(gnome_close_magnifier_async(false).is_empty());
}

#[test]
fn gnome_start_up_state() {
    let a = DynamicLauncherApp::new("t".to_string(), window_title("d"), MagnifierBackend::Gnome, (false, true));
    assert!(a.zoom_lens_active() && !a.zoom_full_active());
    assert_eq!(a.magnifier_backend(), MagnifierBackend::Gnome);
    assert_eq!(a.help_text(), HELP_TEXT);
    assert_eq!(a.clock_mode(), ClockMode::Time);
    let b = DynamicLauncherApp::new("t".to_string(), window_title("d"), MagnifierBackend::Unavailable, (true, false));
    assert!(!b.zoom_full_active() && !b.zoom_lens_active());
    assert_eq!(b.tile_label(4), "t");
    assert_eq!(b.tile_label(2), "\u{1F5D6}Lens Zoom");
}

#[test]
fn zoom_tiles_with_gnome() {
    let mut a = DynamicLauncherApp::new("t".to_string(), "x".to_string(), MagnifierBackend::Gnome, (false, true));
    assert_eq!(a.toggle_full_zoom(), Effect::Zoom(ZoomRequest::CloseThenLaunchFullscreen));
    assert!(a.zoom_full_active() && !a.zoom_lens_active());
    assert_eq!(a.toggle_full_zoom(), Effect::Zoom(ZoomRequest::Close));
    assert!(!a.zoom_full_active() && !a.zoom_lens_active());
    assert_eq!(a.toggle_lens_zoom(), Effect::Zoom(ZoomRequest::CloseThenLaunchLens));
    assert_eq!(a.close_magnifier(), Some(Effect::Zoom(ZoomRequest::Close)));
}

#[test]
fn zoom_tiles_without_backend() {
    let mut a = DynamicLauncherApp::new("t".to_string(), "x".to_string(), MagnifierBackend::Unavailable, (false, false));
    assert_eq!(a.toggle_full_zoom(), Effect::NoBackend);
    assert_eq!(a.toggle_lens_zoom(), Effect::NoBackend);
    assert!(!a.zoom_full_active() && !a.zoom_lens_active());
    assert_eq!(a.close_magnifier(), None);
    assert!(a.handle_keys(press(false, false, false, true, false)).is_empty());
    a.apply_magnifier_mode((true, false));
    assert!(!a.zoom_full_active());
}

#[test]
fn keys_and_dialogs() {
    let mut a = DynamicLauncherApp::new("t".to_string(), "x".to_string(), MagnifierBackend::Gnome, (false, false));
    assert!(a.handle_keys(press(false, false, true, false, false)).is_empty());
    assert!(a.show_shutdown_confirm());
    assert_eq!(a.handle_keys(press(false, false, true, false, false)), vec![Effect::Shutdown]);
    assert!(a.handle_keys(press(false, false, false, true, false)).is_empty());
    assert!(!a.show_shutdown_confirm());
    assert_eq!(a.handle_keys(press(false, false, false, true, false)), vec![Effect::Zoom(ZoomRequest::Close)]);
    a.hover_tile(3);
    assert_eq!(a.handle_keys(press(false, false, true, false, true)), vec![Effect::OpenSearch]);
    assert!(a.show_help());
    a.handle_action(0);
    assert_eq!(a.answer_shutdown_dialog(true, true), Some(Effect::Shutdown));
    assert!(!a.show_shutdown_confirm());
    a.apply_magnifier_mode((true, false));
    assert!(a.zoom_full_active());
    assert!(a.refresh_clock("u".to_string(), "y".to_string()));
    assert_eq!(a.clock_tile_text(), "u");
}

#[test]
fn zoom_requests_write_in_one_order() {
    let full = gnome_zoom_writes(ZoomRequest::CloseThenLaunchFullscreen, true);
    assert_eq!(full.len(), 11);
    assert_eq!(triples(&full)[0], (APP_SCHEMA, "screen-magnifier-enabled", "false"));
    assert_eq!(triples(&full)[1..], triples(&gnome_launch_magnifier_fullscreen_175(true))[..]);
    assert_eq!(triples(&full)[10], (APP_SCHEMA, "screen-magnifier-enabled", "true"));
    let lens = gnome_zoom_writes(ZoomRequest::CloseThenLaunchLens, true);
    assert_eq!(triples(&lens)[1..], triples(&gnome_launch_magnifier_lens_175(true))[..]);
    assert_eq!(triples(&gnome_zoom_writes(ZoomRequest::Close, true)), vec![(APP_SCHEMA, "screen-magnifier-enabled", "false")]);
    assert!(gnome_zoom_writes(ZoomRequest::CloseThenLaunchLens, false).is_empty());
}
