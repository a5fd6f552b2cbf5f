use dynamic_launcher::clock::{window_title, ClockMode};
use dynamic_launcher::strip::KeyPresses;
use dynamic_launcher::windows::{
    close_magnifier_async, get_magnifier_state, get_time_strings, launch_magnifier_fullscreen_175,
    launch_magnifier_lens_175, must_terminate, send_win_chord, wstr, DynamicLauncherApp, Effect,
    KeyStroke, SystemTime, HELP_TEXT, VK_ESCAPE, VK_LWIN, WAIT_TIMEOUT,
};
use dynamic_launcher::zoom::ZoomRequest;

fn press(tab_or_right: bool, left: bool, enter_or_space: bool, esc: bool, f1: bool) -> KeyPresses {
    KeyPresses { tab_or_right, left, enter_or_space, esc, f1 }
}

fn app() -> DynamicLauncherApp {
    DynamicLauncherApp::new("12:00:00".to_string(), window_title("2025-01-01"), false, None)
}

#[test]
fn system_time_is_formatted_with_padding() {
    let st = SystemTime { year: 2025, month: 3, day: 4, hour: 9, minute: 5, second: 1 };
    let (clock, title) = get_time_strings(ClockMode::Time, st);
    assert_eq!(clock, "09:05:01");
    assert_eq!(title, "Dynamic Launcher [2025-03-04] \u{2014} PNSL licensed (press F1 for more information)");
    let (clock, title) = get_time_strings(ClockMode::Date, st);
    assert_eq!(clock, "2025-03-04");
    assert_eq!(title, window_title("09:05:01"));
    let early = SystemTime { year: 987, month: 12, day: 31, hour: 23, minute: 59, second: 59 };
    assert_eq!(get_time_strings(ClockMode::Date, early).0, "0987-12-31");
}

#[test]
fn wide_strings_end_in_nul() {
    assert_eq!(wstr("open"), vec![0x6F, 0x70, 0x65, 0x6E, 0]);
    assert_eq!(wstr(""), vec![0]);
    assert_eq!(wstr("\u{e9}"), vec![0xE9, 0]);
    assert_eq!(wstr("\u{1F310}"), vec![0xD83C, 0xDF10, 0]);
    let s = "magnify.exe \u{2014} \u{1F5A5}";
    let mut expected: Vec<u16> = s.encode_utf16().collect();
    expected.push(0);
    assert_eq!(wstr(s), expected);
}

#[test]
fn magnifier_state_from_process_and_registry() {
    assert_eq!(get_magnifier_state(false, None), (false, false));
    assert_eq!(get_magnifier_state(true, Some(1)), (true, false));
    assert_eq!(get_magnifier_state(true, Some(2)), (false, true));
    assert_eq!(get_magnifier_state(true, Some(0)), (false, false));
    assert_eq!(get_magnifier_state(true, Some(3)), (false, false));
}

#[test]
fn magnifier_launch_plans() {
    let f = launch_magnifier_fullscreen_175();
    assert_eq!(f.registry.len(), 2);
    assert_eq!(f.registry[0].subkey, "Software\\Microsoft\\ScreenMagnifier");
    assert_eq!(f.registry[0].name, "MagnificationMode");
    assert_eq!(f.registry[0].value, 1);
    assert_eq!(f.registry[1].name, "Magnification");
    assert_eq!(f.registry[1].value, 175);
    assert_eq!(f.program, "magnify.exe");
    assert_eq!(f.argument, "/fullscreen");
    let l = launch_magnifier_lens_175();
    assert_eq!(l.registry[0].value, 2);
    assert_eq!(l.registry[1].value, 175);
    assert_eq!(l.argument, "/lens");
}

#[test]
fn windows_escape_chord() {
    assert_eq!(
        send_win_chord(VK_ESCAPE),
        vec![
            KeyStroke { vk: VK_LWIN, key_up: false },
            KeyStroke { vk: 0x1B, key_up: false },
            KeyStroke { vk: 0x1B, key_up: true },
            KeyStroke { vk: VK_LWIN, key_up: true },
        ]
    );
}

#[test]
fn closing_only_when_running_and_idle() {
    assert!(close_magnifier_async(true, false));
    assert!(!close_magnifier_async(true, true));
    assert!(!close_magnifier_async(false, false));
    assert!(must_terminate(WAIT_TIMEOUT));
    assert!(!must_terminate(0));
}

#[test]
fn windows_start_up_state() {
    let a = DynamicLauncherApp::new("12:00:00".to_string(), "t".to_string(), true, Some(2));
    assert_eq!(a.clock_mode(), ClockMode::Time);
    assert_eq!(a.focus_index(), 0);
    assert!(!a.zoom_full_active());
    assert!(a.zoom_lens_active());
    assert!(!a.show_help());
    assert!(!a.show_shutdown_confirm());
    assert_eq!(a.help_text(), HELP_TEXT.replace("\r\n", "\n"));
    assert!(!a.help_text().contains('\r'));
    assert_eq!(a.window_title(), "t");
}

#[test]
fn tile_labels() {
    let a = app();
    assert_eq!(a.tile_label(0), "Halt");
    assert_eq!(a.tile_label(1), "\u{1F5A5}Full Zoom");
    assert_eq!(a.tile_label(2), "\u{1F5D6}Lens Zoom");
    assert_eq!(a.tile_label(3), "\u{1F310}WWW");
    assert_eq!(a.tile_label(4), "12:00:00");
    assert_eq!(a.tile_label(5), "");
}

#[test]
fn zoom_tiles_toggle_and_exclude_each_other() {
    let mut a = app();
    assert_eq!(a.toggle_full_zoom(), ZoomRequest::CloseThenLaunchFullscreen);
    assert!(a.zoom_full_active() && !a.zoom_lens_active());
    assert!(a.tile_is_active(1) && !a.tile_is_active(2) && !a.tile_is_active(0));
    assert_eq!(a.toggle_lens_zoom(), ZoomRequest::CloseThenLaunchLens);
    assert!(!a.zoom_full_active() && a.zoom_lens_active());
    assert_eq!(a.toggle_lens_zoom(), ZoomRequest::Close);
    assert!(!a.zoom_full_active() && !a.zoom_lens_active());
    assert_eq!(a.toggle_full_zoom(), ZoomRequest::CloseThenLaunchFullscreen);
    assert_eq!(a.toggle_full_zoom(), ZoomRequest::Close);
    assert!(!a.zoom_full_active());
}

#[test]
fn tile_actions() {
    let mut a = app();
    assert_eq!(a.handle_action(0), None);
    assert!(a.show_shutdown_confirm());
    assert_eq!(a.handle_action(3), Some(Effect::OpenSearch));
    assert_eq!(a.handle_action(4), None);
    assert_eq!(a.clock_mode(), ClockMode::Date);
    assert_eq!(a.handle_action(4), None);
    assert_eq!(a.clock_mode(), ClockMode::Time);
    assert_eq!(a.handle_action(1), Some(Effect::Zoom(ZoomRequest::CloseThenLaunchFullscreen)));
    assert_eq!(a.handle_action(7), None);
}

#[test]
fn keys_navigate_and_activate() {
    let mut a = app();
    assert!(a.handle_keys(press(true, false, false, false, false)).is_empty());
    assert_eq!(a.focus_index(), 1);
    assert_eq!(
        a.handle_keys(press(false, false, true, false, false)),
        vec![Effect::Zoom(ZoomRequest::CloseThenLaunchFullscreen)]
    );
    assert!(a.zoom_full_active());
    a.handle_keys(press(false, true, false, false, false));
    a.handle_keys(press(false, true, false, false, false));
    assert_eq!(a.focus_index(), 4);
    a.handle_keys(press(true, false, false, false, false));
    assert_eq!(a.focus_index(), 0);
}

#[test]
fn halt_asks_before_shutting_down() {
    let mut a = app();
    assert!(a.handle_keys(press(false, false, true, false, false)).is_empty());
    assert!(a.show_shutdown_confirm());
    assert_eq!(a.handle_keys(press(false, false, true, false, false)), vec![Effect::Shutdown]);
    assert_eq!(a.handle_keys(press(true, false, true, true, false)), vec![Effect::Shutdown]);
    assert!(!a.show_shutdown_confirm());
}

#[test]
fn escape_closes_topmost_then_the_magnifier() {
    let mut a = app();
    a.handle_action(0);
    a.set_show_help(true);
    assert!(a.handle_keys(press(false, false, false, true, false)).is_empty());
    assert!(!a.show_shutdown_confirm());
    assert!(a.show_help());
    assert!(a.handle_keys(press(false, false, false, true, false)).is_empty());
    assert!(!a.show_help());
    assert_eq!(a.handle_keys(press(false, false, false, true, false)), vec![Effect::Zoom(ZoomRequest::Close)]);
}

#[test]
fn f1_twice_restores_help() {
    let mut a = app();
    a.handle_keys(press(false, false, false, false, true));
    assert!(a.show_help());
    a.handle_keys(press(false, false, false, false, true));
    assert!(!a.show_help());
    a.set_show_help(true);
    a.handle_keys(press(false, false, false, true, true));
    assert!(a.show_help());
}

#[test]
fn clock_refresh_reports_title_changes() {
    let mut a = app();
    assert!(!a.refresh_clock("12:00:01".to_string(), window_title("2025-01-01")));
    assert_eq!(a.clock_tile_text(), "12:00:01");
    assert!(a.refresh_clock("12:00:02".to_string(), window_title("2025-01-02")));
    assert_eq!(a.window_title(), window_title("2025-01-02"));
}

#[test]
fn read_back_replaces_zoom_state() {
    let mut a = app();
    a.toggle_full_zoom();
    a.apply_magnifier_state(false, None);
    assert!(!a.zoom_full_active() && !a.zoom_lens_active());
    a.apply_magnifier_state(true, Some(2));
    assert!(a.zoom_lens_active());
}

#[test]
fn pointer_and_dialog() {
    let mut a = app();
    a.hover_tile(3);
    assert_eq!(a.focus_index(), 3);
    a.handle_action(0);
    assert_eq!(a.answer_shutdown_dialog(false, false), None);
    assert!(a.show_shutdown_confirm());
    assert_eq!(a.answer_shutdown_dialog(true, false), Some(Effect::Shutdown));
    assert_eq!(a.answer_shutdown_dialog(false, true), None);
    assert!(!a.show_shutdown_confirm());
}
