use dynamic_launcher::clock::{get_time_strings, local_time_text, time_strings, window_title, year_text, zero_padded_text, ClockMode, LocalTime};
use dynamic_launcher::strip::{move_focus, next_focus, prev_focus, KeyPresses, SEARCH_URL, TILE_COUNT};
use dynamic_launcher::text::{chars_of, contains_text, is_white_space_char, join_lines, normalize_line_endings, text_eq, trim_text};
use dynamic_launcher::zoom::magnifier_check_due;

fn keys(tab_or_right: bool, left: bool) -> KeyPresses {
    KeyPresses { tab_or_right, left, enter_or_space: false, esc: false, f1: false }
}

#[test]
fn contains_finds_a_pattern() {
    assert!(contains_text("ubuntu:gnome", "gnome"));
    assert!(contains_text("gnome", "gnome"));
    assert!(contains_text("anything", ""));
    assert!(!contains_text("gnom", "gnome"));
    assert!(!contains_text("kde", "gnome"));
    assert!(contains_text("'full-screen'", "full-screen"));
}

#[test]
fn chars_keep_order() {
    assert_eq!(chars_of("a\u{1F310}b"), vec!['a', '\u{1F310}', 'b']);
    assert_eq!(chars_of(""), Vec::<char>::new());
}

#[test]
fn text_equality() {
    assert!(text_eq("true", "true"));
    assert!(!text_eq("true", "True"));
    assert!(!text_eq("true", "true "));
}

#[test]
fn crlf_pairs_become_lf() {
    assert_eq!(normalize_line_endings("a\r\nb\r\n"), "a\nb\n");
    assert_eq!(normalize_line_endings("a\rb\nc"), "a\rb\nc");
    assert_eq!(normalize_line_endings("\r\r\n"), "\r\n");
    assert_eq!(normalize_line_endings(""), "");
    let s = "x\r\n\r\ny\r\n";
    assert_eq!(normalize_line_endings(s), s.replace("\r\n", "\n"));
}

#[test]
fn lines_join_with_lf() {
    let parts = vec!["first".to_string(), "second".to_string()];
    assert_eq!(join_lines(&parts), "first\nsecond");
    assert_eq!(join_lines(&vec!["only".to_string()]), "only");
    assert_eq!(join_lines(&Vec::new()), "");
}

#[test]
fn numbers_are_zero_padded() {
    assert_eq!(zero_padded_text(7, 2), "07");
    assert_eq!(zero_padded_text(42, 2), "42");
    assert_eq!(zero_padded_text(123, 2), "123");
    assert_eq!(zero_padded_text(0, 2), "00");
    assert_eq!(zero_padded_text(2025, 4), "2025");
    assert_eq!(zero_padded_text(987, 4), "0987");
    assert_eq!(zero_padded_text(5, 0), "5");
    assert_eq!(zero_padded_text(4294967295, 2), "4294967295");
}

#[test]
fn title_wraps_the_other_text() {
    assert_eq!(
        window_title("2025-03-04"),
        "Dynamic Launcher [2025-03-04] \u{2014} PNSL licensed (press F1 for more information)"
    );
}

#[test]
fn tile_and_title_swap_with_the_mode() {
    let (clock, title) = time_strings(ClockMode::Time, "09:05:01", "2025-03-04");
    assert_eq!(clock, "09:05:01");
    assert_eq!(title, window_title("2025-03-04"));
    let (clock, title) = time_strings(ClockMode::Date, "09:05:01", "2025-03-04");
    assert_eq!(clock, "2025-03-04");
    assert_eq!(title, window_title("09:05:01"));
}

fn at(year: i32, month: u32, day: u32, hour: u32, minute: u32, second: u32) -> LocalTime {
    LocalTime { year, month, day, hour, minute, second }
}

#[test]
fn local_time_is_written_as_percent_formats() {
    assert_eq!(local_time_text(at(2025, 3, 4, 9, 5, 1)), ("09:05:01".to_string(), "2025-03-04".to_string()));
    assert_eq!(local_time_text(at(987, 12, 31, 23, 59, 60)), ("23:59:60".to_string(), "0987-12-31".to_string()));
}

#[test]
fn years_outside_four_digits_carry_a_sign() {
    assert_eq!(year_text(2025), "2025");
    assert_eq!(year_text(0), "0000");
    assert_eq!(year_text(9999), "9999");
    assert_eq!(year_text(10000), "+10000");
    assert_eq!(year_text(-1), "-0001");
    assert_eq!(year_text(-262144), "-262144");
    assert_eq!(year_text(i32::MIN), "-2147483648");
}

#[test]
fn clock_texts_at_a_local_time() {
    let t = at(2025, 3, 4, 9, 5, 1);
    let (clock, title) = get_time_strings(ClockMode::Time, t);
    assert_eq!(clock, "09:05:01");
    assert_eq!(title, "Dynamic Launcher [2025-03-04] \u{2014} PNSL licensed (press F1 for more information)");
    let (date, title) = get_time_strings(ClockMode::Date, t);
    assert_eq!(date, "2025-03-04");
    assert_eq!(title, window_title("09:05:01"));
}

#[test]
fn trimming_removes_unicode_white_space() {
    assert_eq!(trim_text("  true\n"), "true");
    assert_eq!(trim_text("\u{3000}\u{a0}x y\u{2029}"), "x y");
    assert_eq!(trim_text(" \t\r\n"), "");
    assert_eq!(trim_text(""), "");
    assert_eq!(trim_text("a"), "a");
    for s in ["  a b ", "\u{85}z", "q\u{200a}", "\u{1c}k"] {
        assert_eq!(trim_text(s), s.trim());
    }
    assert!(is_white_space_char('\u{205f}'));
    assert!(!is_white_space_char('\u{200b}'));
}

#[test]
fn clock_mode_toggle_twice_is_identity() {
    assert_eq!(ClockMode::Time.toggled(), ClockMode::Date);
    assert_eq!(ClockMode::Date.toggled(), ClockMode::Time);
    assert_eq!(ClockMode::Time.toggled().toggled(), ClockMode::Time);
}

#[test]
fn focus_wraps_both_ways() {
    assert_eq!(TILE_COUNT, 5);
    assert_eq!(next_focus(0), 1);
    assert_eq!(next_focus(4), 0);
    assert_eq!(prev_focus(0), 4);
    assert_eq!(prev_focus(3), 2);
    for i in 0..TILE_COUNT {
        assert_eq!(prev_focus(next_focus(i)), i);
        assert_eq!(next_focus(prev_focus(i)), i);
        let mut f = i;
        for _ in 0..TILE_COUNT {
            f = next_focus(f);
        }
        assert_eq!(f, i);
    }
}

#[test]
fn right_then_left_in_one_frame() {
    assert_eq!(move_focus(2, keys(true, false)), 3);
    assert_eq!(move_focus(2, keys(false, true)), 1);
    assert_eq!(move_focus(4, keys(true, true)), 4);
    assert_eq!(move_focus(0, keys(false, false)), 0);
}

#[test]
fn magnifier_is_read_back_every_one_and_a_half_seconds() {
    assert!(!magnifier_check_due(1499));
    assert!(magnifier_check_due(1500));
    assert!(magnifier_check_due(60_000));
}

#[test]
fn search_page() {
    assert_eq!(SEARCH_URL, "https://duckduckgo.com/");
}
