//! The clock tile: what it shows, what the window title shows, and the
//! decimal formatting behind both.
use vstd::prelude::*;
use crate::text::push_char;

verus! {

/// What the clock tile shows; the window title shows the other one.
#[derive(Clone, Copy, PartialEq, Eq, Structural, Debug)]
pub enum ClockMode {
    Time,
    Date,
}

/// The mode a click on the clock tile switches to.
pub open spec fn toggled_mode(m: ClockMode) -> ClockMode {
    match m {
        ClockMode::Time => ClockMode::Date,
        ClockMode::Date => ClockMode::Time,
    }
}

impl ClockMode {
    /// The other mode.
    pub fn toggled(self) -> (r: ClockMode)
        ensures
            r == toggled_mode(self),
    {
        match self {
            ClockMode::Time => ClockMode::Date,
            ClockMode::Date => ClockMode::Time,
        }
    }
}

/// A local calendar date and wall-clock time, field by field.
#[derive(Clone, Copy, PartialEq, Eq, Structural, Debug)]
pub struct LocalTime {
    pub year: i32,
    pub month: u32,
    pub day: u32,
    pub hour: u32,
    pub minute: u32,
    /// 60 stands for a leap second.
    pub second: u32,
}

impl LocalTime {
    /// The ranges every local time keeps.
    pub open spec fn in_range(self) -> bool {
        &&& 1 <= self.month <= 12
        &&& 1 <= self.day <= 31
        &&& self.hour < 24
        &&& self.minute < 60
        &&& self.second <= 60
    }
}

/// The decimal digit character for `d` in 0..10.
pub open spec fn digit_char(d: int) -> char {
    if d == 0 {
        '0'
    } else if d == 1 {
        '1'
    } else if d == 2 {
        '2'
    } else if d == 3 {
        '3'
    } else if d == 4 {
        '4'
    } else if d == 5 {
        '5'
    } else if d == 6 {
        '6'
    } else if d == 7 {
        '7'
    } else if d == 8 {
        '8'
    } else {
        '9'
    }
}

/// The decimal digits of `n`, most significant first, with no leading zero.
pub open spec fn digits(n: nat) -> Seq<char>
    decreases n,
{
    if n < 10 {
        seq![digit_char(n as int)]
    } else {
        digits(n / 10).push(digit_char((n % 10) as int))
    }
}

/// `n` in decimal, left-padded with zeros to at least `width` characters
/// (the `{:0width}` format).
pub open spec fn zero_padded(n: nat, width: nat) -> Seq<char> {
    let d = digits(n);
    if d.len() >= width {
        d
    } else {
        Seq::new((width - d.len()) as nat, |_i: int| '0') + d
    }
}

/// A year as the `%Y` field writes it: four digits for years 0 through
/// 9999, otherwise a sign and at least four digits.
pub open spec fn year_field(y: int) -> Seq<char> {
    if 0 <= y <= 9999 {
        zero_padded(y as nat, 4)
    } else if y < 0 {
        seq!['-'] + zero_padded((-y) as nat, 4)
    } else {
        seq!['+'] + zero_padded(y as nat, 4)
    }
}

/// `HH:MM:SS`.
pub open spec fn hms_text(hour: nat, minute: nat, second: nat) -> Seq<char> {
    zero_padded(hour, 2) + seq![':'] + zero_padded(minute, 2) + seq![':'] + zero_padded(second, 2)
}

/// `<year>-MM-DD`.
pub open spec fn ymd_text(year: Seq<char>, month: nat, day: nat) -> Seq<char> {
    year + seq!['-'] + zero_padded(month, 2) + seq!['-'] + zero_padded(day, 2)
}

/// The `%H:%M:%S` and `%Y-%m-%d` texts of a local time.
pub open spec fn local_time_texts(t: LocalTime) -> (Seq<char>, Seq<char>) {
    (
        hms_text(t.hour as nat, t.minute as nat, t.second as nat),
        ymd_text(year_field(t.year as int), t.month as nat, t.day as nat),
    )
}

/// The window title around the text in brackets.
pub open spec fn title_text(inner: Seq<char>) -> Seq<char> {
    "Dynamic Launcher ["@ + inner + "] \u{2014} PNSL licensed (press F1 for more information)"@
}

/// The clock tile's text and the window title for a mode: the tile shows
/// the time or the date, the title the other one.
pub open spec fn clock_and_title(mode: ClockMode, hms: Seq<char>, ymd: Seq<char>) -> (Seq<char>, Seq<char>) {
    match mode {
        ClockMode::Time => (hms, title_text(ymd)),
        ClockMode::Date => (ymd, title_text(hms)),
    }
}

/// The decimal digit character for `d`.
fn digit(d: u32) -> (c: char)
    requires
        d < 10,
    ensures
        c == digit_char(d as int),
{
    match d {
        0 => '0',
        1 => '1',
        2 => '2',
        3 => '3',
        4 => '4',
        5 => '5',
        6 => '6',
        7 => '7',
        8 => '8',
        _ => '9',
    }
}

/// Appends the decimal digits of `n`.
fn push_digits(s: &mut String, n: u32)
    ensures
        final(s)@ == old(s)@ + digits(n as nat),
    decreases n,
{
    if n >= 10 {
        push_digits(s, n / 10);
    }
    push_char(s, digit(n % 10));
    assert(final(s)@ =~= old(s)@ + digits(n as nat));
}

/// `n` in decimal, zero-padded to at least `width` characters.
pub fn zero_padded_text(n: u32, width: usize) -> (r: String)
    ensures
        r@ == zero_padded(n as nat, width as nat),
{
    let mut d = String::new();
    push_digits(&mut d, n);
    assert(d@ =~= digits(n as nat));
    let len = d.as_str().unicode_len();
    let mut r = String::new();
    if len < width {
        let mut k: usize = 0;
        while k < width - len
            invariant
                len < width,
                k <= width - len,
                r@ == Seq::new(k as nat, |_i: int| '0'),
            decreases width - len - k,
        {
            push_char(&mut r, '0');
            k = k + 1;
            assert(r@ =~= Seq::new(k as nat, |_i: int| '0'));
        }
    }
    r.append(d.as_str());
    if len >= width {
        assert(r@ =~= d@);
    }
    r
}

/// The window title with `inner` in brackets.
pub fn window_title(inner: &str) -> (r: String)
    ensures
        r@ == title_text(inner@),
{
    let mut r = String::from_str("Dynamic Launcher [");
    r.append(inner);
    r.append("] \u{2014} PNSL licensed (press F1 for more information)");
    r
}

/// The clock tile's text and the window title, from the time text
/// (`HH:MM:SS`) and the date text.
pub fn time_strings(mode: ClockMode, hms: &str, ymd: &str) -> (r: (String, String))
    ensures
        (r.0@, r.1@) == clock_and_title(mode, hms@, ymd@),
{
    match mode {
        ClockMode::Time => (String::from_str(hms), window_title(ymd)),
        ClockMode::Date => (String::from_str(ymd), window_title(hms)),
    }
}

/// A year as `%Y` writes it: four digits for years 0 through 9999,
/// otherwise a sign and at least four digits.
pub fn year_text(year: i32) -> (r: String)
    ensures
        r@ == year_field(year as int),
{
    if 0 <= year && year <= 9999 {
        zero_padded_text(year as u32, 4)
    } else if year < 0 {
        let magnitude: u32 = (0 - (year as i64)) as u32;
        let mut r = String::new();
        push_char(&mut r, '-');
        r.append(zero_padded_text(magnitude, 4).as_str());
        assert(r@ =~= year_field(year as int));
        r
    } else {
        let mut r = String::new();
        push_char(&mut r, '+');
        r.append(zero_padded_text(year as u32, 4).as_str());
        assert(r@ =~= year_field(year as int));
        r
    }
}

/// The `%H:%M:%S` and `%Y-%m-%d` texts of a local time.
pub fn local_time_text(t: LocalTime) -> (r: (String, String))
    ensures
        (r.0@, r.1@) == local_time_texts(t),
{
    let mut hms = zero_padded_text(t.hour, 2);
    push_char(&mut hms, ':');
    hms.append(zero_padded_text(t.minute, 2).as_str());
    push_char(&mut hms, ':');
    hms.append(zero_padded_text(t.second, 2).as_str());
    let mut ymd = year_text(t.year);
    push_char(&mut ymd, '-');
    ymd.append(zero_padded_text(t.month, 2).as_str());
    push_char(&mut ymd, '-');
    ymd.append(zero_padded_text(t.day, 2).as_str());
    assert(hms@ =~= local_time_texts(t).0);
    assert(ymd@ =~= local_time_texts(t).1);
    (hms, ymd)
}

/// The clock tile's text and the window title at local time `t`.
pub fn get_time_strings(mode: ClockMode, t: LocalTime) -> (r: (String, String))
    ensures
        (r.0@, r.1@) == clock_and_title(mode, local_time_texts(t).0, local_time_texts(t).1),
{
    let (hms, ymd) = local_time_text(t);
    time_strings(mode, hms.as_str(), ymd.as_str())
}

/// A number below ten has one digit, and a number from ten to ninety-nine
/// has two.
proof fn lemma_small_digits(n: nat)
    requires
        n < 100,
    ensures
        n < 10 ==> digits(n).len() == 1,
        10 <= n ==> digits(n).len() == 2,
        zero_padded(n, 2).len() == 2,
{
    if n >= 10 {
        assert(digits(n / 10).len() == 1);
    }
}

/// The time text `HH:MM:SS` is always eight characters wide, with the colons
/// in the third and sixth places.
pub proof fn lemma_time_text_width(hour: nat, minute: nat, second: nat)
    requires
        hour < 100,
        minute < 100,
        second < 100,
    ensures
        hms_text(hour, minute, second).len() == 8,
        hms_text(hour, minute, second)[2] == ':',
        hms_text(hour, minute, second)[5] == ':',
{
    lemma_small_digits(hour);
    lemma_small_digits(minute);
    lemma_small_digits(second);
}

/// Ten to the power `k`.
pub open spec fn pow10(k: nat) -> nat
    decreases k,
{
    if k == 0 {
        1
    } else {
        10 * pow10((k - 1) as nat)
    }
}

/// A number below ten to the `k` has at most `k` digits.
proof fn lemma_digits_len(n: nat, k: nat)
    requires
        1 <= k,
        n < pow10(k),
    ensures
        digits(n).len() <= k,
    decreases k,
{
    if n >= 10 {
        if k == 1 {
            assert(pow10(1) == 10) by {
                reveal_with_fuel(pow10, 2);
            }
        }
        lemma_digits_len(n / 10, (k - 1) as nat);
    }
}

/// For a local time whose year lies in 0..=9999, the tile texts read
/// `HH:MM:SS` and `YYYY-MM-DD`: eight and ten characters, with the
/// separators in their places.
pub proof fn lemma_local_time_text_shape(t: LocalTime)
    requires
        t.in_range(),
        0 <= t.year <= 9999,
    ensures
        local_time_texts(t).0.len() == 8,
        local_time_texts(t).0[2] == ':',
        local_time_texts(t).0[5] == ':',
        local_time_texts(t).1.len() == 10,
        local_time_texts(t).1[4] == '-',
        local_time_texts(t).1[7] == '-',
{
    lemma_time_text_width(t.hour as nat, t.minute as nat, t.second as nat);
    lemma_small_digits(t.month as nat);
    lemma_small_digits(t.day as nat);
    assert(pow10(4) == 10000) by {
        reveal_with_fuel(pow10, 5);
    }
    lemma_digits_len(t.year as nat, 4);
    assert(zero_padded(t.year as nat, 4).len() == 4);
}

/// The character of a decimal digit.
pub open spec fn dc(d: int) -> char {
    digit_char(d)
}

/// A number below a hundred, zero-padded to two places, is its tens digit
/// then its ones digit.
pub proof fn lemma_two_digits(n: nat)
    requires
        n < 100,
    ensures
        zero_padded(n, 2) == seq![dc(n as int / 10), dc(n as int % 10)],
{
    if n < 10 {
        assert(digits(n) == seq![digit_char(n as int)]);
        assert(zero_padded(n, 2) =~= seq!['0', digit_char(n as int)]);
    } else {
        assert(digits(n / 10) == seq![digit_char((n / 10) as int)]);
        assert(zero_padded(n, 2) =~= seq![dc(n as int / 10), dc(n as int % 10)]);
    }
}

/// A number below ten thousand, zero-padded to four places, is its
/// thousands, hundreds, tens and ones digits.
pub proof fn lemma_four_digits(n: nat)
    requires
        n < 10000,
    ensures
        zero_padded(n, 4) == seq![dc(n as int / 1000), dc(n as int / 100 % 10), dc(n as int / 10 % 10), dc(n as int % 10)],
{
    let d = seq![dc(n as int / 1000), dc(n as int / 100 % 10), dc(n as int / 10 % 10), dc(n as int % 10)];
    if n < 10 {
        assert(digits(n) == seq![digit_char(n as int)]);
        assert(zero_padded(n, 4) =~= d);
    } else if n < 100 {
        assert(digits(n / 10) == seq![digit_char((n / 10) as int)]);
        assert(digits(n) =~= seq![dc(n as int / 10), dc(n as int % 10)]);
        assert(zero_padded(n, 4) =~= d);
    } else if n < 1000 {
        assert(digits(n / 100) == seq![digit_char((n / 100) as int)]);
        assert((n / 10) / 10 == n / 100);
        assert(digits(n / 10) =~= seq![dc(n as int / 100), dc(n as int / 10 % 10)]);
        assert(digits(n) =~= seq![dc(n as int / 100), dc(n as int / 10 % 10), dc(n as int % 10)]);
        assert(zero_padded(n, 4) =~= d);
    } else {
        assert(digits(n / 1000) == seq![digit_char((n / 1000) as int)]);
        assert((n / 10) / 10 == n / 100);
        assert((n / 100) / 10 == n / 1000);
        assert(digits(n / 100) =~= seq![dc(n as int / 1000), dc(n as int / 100 % 10)]);
        assert(digits(n / 10) =~= seq![dc(n as int / 1000), dc(n as int / 100 % 10), dc(n as int / 10 % 10)]);
        assert(digits(n) =~= d);
        assert(zero_padded(n, 4) =~= d);
    }
}

/// The texts of a local time, character by character: `HH:MM:SS` with each
/// field's two digits, and `YYYY-MM-DD` for years 0 through 9999.
pub proof fn lemma_local_time_digits(t: LocalTime)
    requires
        t.in_range(),
        0 <= t.year <= 9999,
    ensures
        local_time_texts(t).0 == seq![
            dc(t.hour as int / 10), dc(t.hour as int % 10), ':',
            dc(t.minute as int / 10), dc(t.minute as int % 10), ':',
            dc(t.second as int / 10), dc(t.second as int % 10),
        ],
        local_time_texts(t).1 == seq![
            dc(t.year as int / 1000), dc(t.year as int / 100 % 10), dc(t.year as int / 10 % 10), dc(t.year as int % 10), '-',
            dc(t.month as int / 10), dc(t.month as int % 10), '-',
            dc(t.day as int / 10), dc(t.day as int % 10),
        ],
{
    lemma_two_digits(t.hour as nat);
    lemma_two_digits(t.minute as nat);
    lemma_two_digits(t.second as nat);
    lemma_two_digits(t.month as nat);
    lemma_two_digits(t.day as nat);
    lemma_four_digits(t.year as nat);
    assert(local_time_texts(t).0 =~= seq![
        dc(t.hour as int / 10), dc(t.hour as int % 10), ':',
        dc(t.minute as int / 10), dc(t.minute as int % 10), ':',
        dc(t.second as int / 10), dc(t.second as int % 10),
    ]);
    assert(local_time_texts(t).1 =~= seq![
        dc(t.year as int / 1000), dc(t.year as int / 100 % 10), dc(t.year as int / 10 % 10), dc(t.year as int % 10), '-',
        dc(t.month as int / 10), dc(t.month as int % 10), '-',
        dc(t.day as int / 10), dc(t.day as int % 10),
    ]);
}

/// The tile shows the time in Time mode and the date in Date mode; the
/// title always holds the other one, between the fixed words.
pub proof fn lemma_tile_and_title(hms: Seq<char>, ymd: Seq<char>)
    ensures
        clock_and_title(ClockMode::Time, hms, ymd).0 == hms,
        clock_and_title(ClockMode::Date, hms, ymd).0 == ymd,
        clock_and_title(ClockMode::Time, hms, ymd).1
            == "Dynamic Launcher ["@ + ymd + "] \u{2014} PNSL licensed (press F1 for more information)"@,
        clock_and_title(ClockMode::Date, hms, ymd).1
            == "Dynamic Launcher ["@ + hms + "] \u{2014} PNSL licensed (press F1 for more information)"@,
{
}

/// Clicking the clock tile twice shows what it showed before.
pub proof fn lemma_clock_mode_toggle_twice(m: ClockMode)
    ensures
        toggled_mode(toggled_mode(m)) == m,
        toggled_mode(m) != m,
{
}

} // verus!
