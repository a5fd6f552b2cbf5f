//! The launcher on Windows. Its tiles are Halt, Full Zoom, Lens Zoom, WWW and
//! the clock; the zoom tiles drive the system Magnifier (`magnify.exe`)
//! through its registry settings.
use vstd::prelude::*;
use crate::clock::{ClockMode, toggled_mode, clock_and_title, hms_text, ymd_text, zero_padded, dc};
use crate::clock;
use crate::strip::{TILE_COUNT, KeyPresses, focus_after, move_focus};
use crate::zoom::ZoomRequest;
use crate::text::{crlf_to_lf, normalize_line_endings, chars_of};

verus! {

/// How long a polite close of the Magnifier is waited for, in milliseconds.
pub const MAG_SAFEWAIT_MS: u32 = 800;

/// How long a forced close of the Magnifier is waited for, in milliseconds.
pub const MAG_FORCEWAIT_MS: u32 = 2000;

/// The value a wait on a process returns when the wait timed out.
pub const WAIT_TIMEOUT: u32 = 0x0000_0102;

/// Virtual-key code of the left Windows key.
pub const VK_LWIN: u16 = 0x5B;

/// Virtual-key code of Escape.
pub const VK_ESCAPE: u16 = 0x1B;

/// The About & License text, with CR LF line ends.
pub const HELP_TEXT: &'static str = "Dynamic launcher (Rust/egui) 1.0.0 \u{2014} PNSL licensed.\r\n\r\nPNSL (Permissive Non-Sale License)\r\nCopyright \u{a9} 2025 Christopher Forster\r\n\r\n1. Permission\r\nPermission to use, copy, modify, and distribute this software for any purpose, without charging a fee specifically for the software itself, is hereby granted, provided that the above copyright notice and this permission notice appear in all copies. You may not introduce more restrictions.\r\n\r\n2. No warranty\r\nTHIS SOFTWARE IS PROVIDED 'AS IS' AND WITHOUT ANY WARRANTIES. IN NO EVENT SHALL THE COPYRIGHT OWNER OR CONTRIBUTORS BE LIABLE FOR ANY DIRECT OR INDIRECT LOSSES OR DAMAGES ARISING FROM THE USE OF THIS SOFTWARE.\r\n\r\n3. Derivative works\r\nAny binary or combined work that directly incorporates PNSL-licensed code is considered a derivative work and must comply with this license. However, merely calling, linking to, or interacting with unmodified, separately distributed PNSL-licensed code does not, by itself, constitute a derivative work.\r\n\r\n";

/// The local time as the system reports it, field by field.
#[derive(Clone, Copy, PartialEq, Eq, Structural, Debug)]
pub struct SystemTime {
    pub year: u16,
    pub month: u16,
    pub day: u16,
    pub hour: u16,
    pub minute: u16,
    pub second: u16,
}

/// The time and date texts of a system time (`{:02}` fields, `{:04}` year).
pub open spec fn system_time_texts(st: SystemTime) -> (Seq<char>, Seq<char>) {
    (
        hms_text(st.hour as nat, st.minute as nat, st.second as nat),
        ymd_text(zero_padded(st.year as nat, 4), st.month as nat, st.day as nat),
    )
}

/// The clock tile's text and the window title for a system time.
pub fn get_time_strings(mode: ClockMode, st: SystemTime) -> (r: (String, String))
    ensures
        (r.0@, r.1@) == clock_and_title(mode, system_time_texts(st).0, system_time_texts(st).1),
{
    let mut hms = clock::zero_padded_text(st.hour as u32, 2);
    hms.append(":");
    hms.append(clock::zero_padded_text(st.minute as u32, 2).as_str());
    hms.append(":");
    hms.append(clock::zero_padded_text(st.second as u32, 2).as_str());
    let mut ymd = clock::zero_padded_text(st.year as u32, 4);
    ymd.append("-");
    ymd.append(clock::zero_padded_text(st.month as u32, 2).as_str());
    ymd.append("-");
    ymd.append(clock::zero_padded_text(st.day as u32, 2).as_str());
    proof {
        reveal_strlit(":");
        reveal_strlit("-");
    }
    assert(hms@ =~= system_time_texts(st).0);
    assert(ymd@ =~= system_time_texts(st).1);
    clock::time_strings(mode, hms.as_str(), ymd.as_str())
}

/// The UTF-16 code units of one character.
pub open spec fn utf16_units(c: char) -> Seq<u16> {
    let v = c as u32;
    if v < 0x10000 {
        seq![v as u16]
    } else {
        let u = v - 0x10000;
        seq![(0xD800 + u / 0x400) as u16, (0xDC00 + u % 0x400) as u16]
    }
}

/// The UTF-16 encoding of a text.
pub open spec fn utf16_of(s: Seq<char>) -> Seq<u16>
    decreases s.len(),
{
    if s.len() == 0 {
        seq![]
    } else {
        utf16_of(s.drop_last()) + utf16_units(s.last())
    }
}

/// `s` as a NUL-terminated UTF-16 string, the form the system's wide-string
/// calls take.
pub fn wstr(s: &str) -> (r: Vec<u16>)
    ensures
        r@ == utf16_of(s@).push(0),
{
    let chars = chars_of(s);
    let mut r: Vec<u16> = Vec::new();
    let mut i: usize = 0;
    while i < chars.len()
        invariant
            chars@ == s@,
            i <= chars.len(),
            r@ == utf16_of(chars@.take(i as int)),
        decreases chars.len() - i,
    {
        let c = chars[i];
        let v = c as u32;
        if v < 0x10000 {
            r.push(v as u16);
        } else {
            let u = v - 0x10000;
            r.push((0xD800 + u / 0x400) as u16);
            r.push((0xDC00 + u % 0x400) as u16);
        }
        assert(chars@.take(i + 1).drop_last() =~= chars@.take(i as int));
        assert(r@ =~= utf16_of(chars@.take(i as int)) + utf16_units(c));
        i = i + 1;
    }
    assert(chars@.take(chars.len() as int) =~= s@);
    r.push(0);
    r
}

/// Whether the Magnifier shows full screen and whether it shows a lens,
/// from whether it runs and the mode it keeps in the registry (1 full
/// screen, 2 lens), which is read only while it runs.
pub open spec fn magnifier_state(running: bool, mode: Option<u32>) -> (bool, bool) {
    if !running {
        (false, false)
    } else if mode == Some(1u32) {
        (true, false)
    } else if mode == Some(2u32) {
        (false, true)
    } else {
        (false, false)
    }
}

/// Whether the registry's mode is read: only while the Magnifier runs.
pub open spec fn mode_read_when_running(running: bool, mode: Option<u32>) -> bool {
    mode is Some <==> running
}

/// Whether the Magnifier shows full screen and whether it shows a lens.
pub fn get_magnifier_state(running: bool, mode: Option<u32>) -> (r: (bool, bool))
    requires
        mode_read_when_running(running, mode),
    ensures
        r == magnifier_state(running, mode),
        !(r.0 && r.1),
{
    if !running {
        return (false, false);
    }
    match mode {
        Some(1) => (true, false),
        Some(2) => (false, true),
        _ => (false, false),
    }
}

/// A value of type DWORD to store under the current user's registry.
#[derive(Clone, Copy, Debug)]
pub struct RegistryWrite {
    pub subkey: &'static str,
    pub name: &'static str,
    pub value: u32,
}

/// How to start the Magnifier in one mode: the registry values to store
/// first, then the program to open and its argument.
pub struct MagnifierLaunch {
    pub registry: Vec<RegistryWrite>,
    pub program: &'static str,
    pub argument: &'static str,
}

/// Whether `l` stores magnification mode `mode` and magnification 175%, then
/// opens `magnify.exe` with `argument`.
pub open spec fn is_launch(l: MagnifierLaunch, mode: u32, argument: Seq<char>) -> bool {
    &&& l.registry@.len() == 2
    &&& l.registry@[0].subkey@ == "Software\\Microsoft\\ScreenMagnifier"@
    &&& l.registry@[0].name@ == "MagnificationMode"@
    &&& l.registry@[0].value == mode
    &&& l.registry@[1].subkey@ == "Software\\Microsoft\\ScreenMagnifier"@
    &&& l.registry@[1].name@ == "Magnification"@
    &&& l.registry@[1].value == 175
    &&& l.program@ == "magnify.exe"@
    &&& l.argument@ == argument
}

fn magnifier_launch(mode: u32, argument: &'static str) -> (r: MagnifierLaunch)
    ensures
        is_launch(r, mode, argument@),
{
    let mut registry: Vec<RegistryWrite> = Vec::new();
    registry.push(RegistryWrite { subkey: "Software\\Microsoft\\ScreenMagnifier", name: "MagnificationMode", value: mode });
    registry.push(RegistryWrite { subkey: "Software\\Microsoft\\ScreenMagnifier", name: "Magnification", value: 175 });
    MagnifierLaunch { registry, program: "magnify.exe", argument }
}

/// Full-screen zoom at 175%.
pub fn launch_magnifier_fullscreen_175() -> (r: MagnifierLaunch)
    ensures
        is_launch(r, 1, "/fullscreen"@),
{
    magnifier_launch(1, "/fullscreen")
}

/// Lens zoom at 175%.
pub fn launch_magnifier_lens_175() -> (r: MagnifierLaunch)
    ensures
        is_launch(r, 2, "/lens"@),
{
    magnifier_launch(2, "/lens")
}

/// One key event: a key going down or coming up.
#[derive(Clone, Copy, PartialEq, Eq, Structural, Debug)]
pub struct KeyStroke {
    pub vk: u16,
    pub key_up: bool,
}

/// The chord Windows + `vk`: Windows down, `vk` down, `vk` up, Windows up.
pub open spec fn chord(vk: u16) -> Seq<KeyStroke> {
    seq![
        KeyStroke { vk: VK_LWIN, key_up: false },
        KeyStroke { vk: vk, key_up: false },
        KeyStroke { vk: vk, key_up: true },
        KeyStroke { vk: VK_LWIN, key_up: true },
    ]
}

/// The key events that press Windows + `vk`.
pub fn send_win_chord(vk: u16) -> (r: Vec<KeyStroke>)
    ensures
        r@ == chord(vk),
{
    let mut r: Vec<KeyStroke> = Vec::new();
    r.push(KeyStroke { vk: VK_LWIN, key_up: false });
    r.push(KeyStroke { vk, key_up: false });
    r.push(KeyStroke { vk, key_up: true });
    r.push(KeyStroke { vk: VK_LWIN, key_up: true });
    r
}

/// Whether a close of the Magnifier is started: only while it runs and no
/// other close is under way.
pub fn close_magnifier_async(running: bool, close_under_way: bool) -> (r: bool)
    ensures
        r == (running && !close_under_way),
{
    running && !close_under_way
}

/// Whether a Magnifier process that did not end within the wait is
/// terminated: exactly when the wait timed out.
pub fn must_terminate(wait_result: u32) -> (r: bool)
    ensures
        r == (wait_result == WAIT_TIMEOUT),
{
    wait_result == WAIT_TIMEOUT
}

/// Outside work that a step of the launcher asks for.
#[derive(Clone, Copy, PartialEq, Eq, Structural, Debug)]
pub enum Effect {
    /// Shut the computer down now.
    Shutdown,
    /// Close and maybe restart the Magnifier (a close waits `MAG_SAFEWAIT_MS`).
    Zoom(ZoomRequest),
    /// Open `SEARCH_URL` in the web browser.
    OpenSearch,
}

/// The launcher's state, as values.
pub struct LauncherModel {
    pub clock_mode: ClockMode,
    pub clock_tile_text: Seq<char>,
    pub window_title: Seq<char>,
    pub zoom_full_active: bool,
    pub zoom_lens_active: bool,
    pub focus_index: int,
    pub show_help: bool,
    pub show_shutdown_confirm: bool,
    pub help_text: Seq<char>,
}

impl LauncherModel {
    /// At most one zoom tile is lit.
    pub open spec fn zoom_exclusive(self) -> bool {
        !(self.zoom_full_active && self.zoom_lens_active)
    }
}

/// The label of tile `idx`.
pub open spec fn tile_label_of(m: LauncherModel, idx: int) -> Seq<char> {
    if idx == 0 {
        "Halt"@
    } else if idx == 1 {
        "\u{1F5A5}Full Zoom"@
    } else if idx == 2 {
        "\u{1F5D6}Lens Zoom"@
    } else if idx == 3 {
        "\u{1F310}WWW"@
    } else if idx == 4 {
        m.clock_tile_text
    } else {
        Seq::empty()
    }
}

/// The Full Zoom tile: when lit it closes the Magnifier and goes dark,
/// otherwise it restarts the Magnifier full screen and lights alone.
pub open spec fn full_zoom_step(m: LauncherModel) -> (LauncherModel, ZoomRequest) {
    if m.zoom_full_active {
        (LauncherModel { zoom_full_active: false, ..m }, ZoomRequest::Close)
    } else {
        (LauncherModel { zoom_full_active: true, zoom_lens_active: false, ..m }, ZoomRequest::CloseThenLaunchFullscreen)
    }
}

/// The Lens Zoom tile, the same way round.
pub open spec fn lens_zoom_step(m: LauncherModel) -> (LauncherModel, ZoomRequest) {
    if m.zoom_lens_active {
        (LauncherModel { zoom_lens_active: false, ..m }, ZoomRequest::Close)
    } else {
        (LauncherModel { zoom_lens_active: true, zoom_full_active: false, ..m }, ZoomRequest::CloseThenLaunchLens)
    }
}

/// Activating tile `idx`.
pub open spec fn action_step(m: LauncherModel, idx: int) -> (LauncherModel, Option<Effect>) {
    if idx == 0 {
        (LauncherModel { show_shutdown_confirm: true, ..m }, None)
    } else if idx == 1 {
        (full_zoom_step(m).0, Some(Effect::Zoom(full_zoom_step(m).1)))
    } else if idx == 2 {
        (lens_zoom_step(m).0, Some(Effect::Zoom(lens_zoom_step(m).1)))
    } else if idx == 3 {
        (m, Some(Effect::OpenSearch))
    } else if idx == 4 {
        (LauncherModel { clock_mode: toggled_mode(m.clock_mode), ..m }, None)
    } else {
        (m, None)
    }
}

/// The effects of an optional effect, as a sequence.
pub open spec fn effects_of(e: Option<Effect>) -> Seq<Effect> {
    match e {
        Some(x) => seq![x],
        None => seq![],
    }
}

/// Enter/Space: with the shutdown question open it answers Yes, otherwise
/// it activates the focused tile.
pub open spec fn enter_step(m: LauncherModel) -> (LauncherModel, Seq<Effect>) {
    if m.show_shutdown_confirm {
        (m, seq![Effect::Shutdown])
    } else {
        (action_step(m, m.focus_index).0, effects_of(action_step(m, m.focus_index).1))
    }
}

/// Escape closes the shutdown question, else the help, else the Magnifier.
pub open spec fn esc_step(m: LauncherModel) -> (LauncherModel, Seq<Effect>) {
    if m.show_shutdown_confirm {
        (LauncherModel { show_shutdown_confirm: false, ..m }, seq![])
    } else if m.show_help {
        (LauncherModel { show_help: false, ..m }, seq![])
    } else {
        (m, seq![Effect::Zoom(ZoomRequest::Close)])
    }
}

/// One frame's keys, in the order the launcher takes them: navigation,
/// Enter/Space, Escape, F1.
pub open spec fn key_step(m: LauncherModel, keys: KeyPresses) -> (LauncherModel, Seq<Effect>) {
    let m1 = LauncherModel { focus_index: focus_after(m.focus_index, keys), ..m };
    let s2 = if keys.enter_or_space { enter_step(m1) } else { (m1, seq![]) };
    let s3 = if keys.esc { esc_step(s2.0) } else { (s2.0, seq![]) };
    let m4 = if keys.f1 { LauncherModel { show_help: !s3.0.show_help, ..s3.0 } } else { s3.0 };
    (m4, s2.1 + s3.1)
}

/// The launcher window's state.
pub struct DynamicLauncherApp {
    clock_mode: ClockMode,
    clock_tile_text: String,
    window_title: String,
    zoom_full_active: bool,
    zoom_lens_active: bool,
    focus_index: usize,
    show_help: bool,
    show_shutdown_confirm: bool,
    help_text: String,
}

impl View for DynamicLauncherApp {
    type V = LauncherModel;

    closed spec fn view(&self) -> LauncherModel {
        LauncherModel {
            clock_mode: self.clock_mode,
            clock_tile_text: self.clock_tile_text@,
            window_title: self.window_title@,
            zoom_full_active: self.zoom_full_active,
            zoom_lens_active: self.zoom_lens_active,
            focus_index: self.focus_index as int,
            show_help: self.show_help,
            show_shutdown_confirm: self.show_shutdown_confirm,
            help_text: self.help_text@,
        }
    }
}

impl DynamicLauncherApp {
    /// The focus always stands on a tile.
    #[verifier::type_invariant]
    closed spec fn focus_on_a_tile(self) -> bool {
        self.focus_index < TILE_COUNT
    }

    /// The state at start-up: the clock shows the time, the focus is on
    /// Halt, no dialog is open, and the zoom tiles show the Magnifier's state.
    pub fn new(clock_tile_text: String, window_title: String, magnifier_running: bool, magnifier_mode: Option<u32>) -> (r: Self)
        requires
            mode_read_when_running(magnifier_running, magnifier_mode),
        ensures
            r@ == (LauncherModel {
                clock_mode: ClockMode::Time,
                clock_tile_text: clock_tile_text@,
                window_title: window_title@,
                zoom_full_active: magnifier_state(magnifier_running, magnifier_mode).0,
                zoom_lens_active: magnifier_state(magnifier_running, magnifier_mode).1,
                focus_index: 0,
                show_help: false,
                show_shutdown_confirm: false,
                help_text: crlf_to_lf(HELP_TEXT@),
            }),
            r@.zoom_exclusive(),
    {
        let (zf, zl) = get_magnifier_state(magnifier_running, magnifier_mode);
        DynamicLauncherApp {
            clock_mode: ClockMode::Time,
            clock_tile_text,
            window_title,
            zoom_full_active: zf,
            zoom_lens_active: zl,
            focus_index: 0,
            show_help: false,
            show_shutdown_confirm: false,
            help_text: normalize_line_endings(HELP_TEXT),
        }
    }

    pub fn clock_mode(&self) -> (r: ClockMode)
        ensures
            r == self@.clock_mode,
    {
        self.clock_mode
    }

    pub fn clock_tile_text(&self) -> (r: &str)
        ensures
            r@ == self@.clock_tile_text,
    {
        self.clock_tile_text.as_str()
    }

    pub fn window_title(&self) -> (r: &str)
        ensures
            r@ == self@.window_title,
    {
        self.window_title.as_str()
    }

    pub fn zoom_full_active(&self) -> (r: bool)
        ensures
            r == self@.zoom_full_active,
    {
        self.zoom_full_active
    }

    pub fn zoom_lens_active(&self) -> (r: bool)
        ensures
            r == self@.zoom_lens_active,
    {
        self.zoom_lens_active
    }

    pub fn focus_index(&self) -> (r: usize)
        ensures
            r == self@.focus_index,
            r < TILE_COUNT,
    {
        proof {
            use_type_invariant(self);
        }
        self.focus_index
    }

    pub fn show_help(&self) -> (r: bool)
        ensures
            r == self@.show_help,
    {
        self.show_help
    }

    pub fn show_shutdown_confirm(&self) -> (r: bool)
        ensures
            r == self@.show_shutdown_confirm,
    {
        self.show_shutdown_confirm
    }

    pub fn help_text(&self) -> (r: &str)
        ensures
            r@ == self@.help_text,
    {
        self.help_text.as_str()
    }

    /// The label of tile `idx`; the clock tile shows the clock's text.
    pub fn tile_label(&self, idx: usize) -> (r: String)
        ensures
            r@ == tile_label_of(self@, idx as int),
    {
        match idx {
            0 => String::from_str("Halt"),
            1 => String::from_str("\u{1F5A5}Full Zoom"),
            2 => String::from_str("\u{1F5D6}Lens Zoom"),
            3 => String::from_str("\u{1F310}WWW"),
            4 => self.clock_tile_text.clone(),
            _ => String::new(),
        }
    }

    /// Whether tile `idx` is lit: the zoom tiles while their zoom is on.
    pub fn tile_is_active(&self, idx: usize) -> (r: bool)
        ensures
            r == (idx == 1 && self@.zoom_full_active || idx == 2 && self@.zoom_lens_active),
    {
        match idx {
            1 => self.zoom_full_active,
            2 => self.zoom_lens_active,
            _ => false,
        }
    }

    /// The Full Zoom tile.
    pub fn toggle_full_zoom(&mut self) -> (r: ZoomRequest)
        ensures
            (final(self)@, r) == full_zoom_step(old(self)@),
            old(self)@.zoom_exclusive() ==> final(self)@.zoom_exclusive(),
    {
        proof {
            use_type_invariant(&*self);
        }
        if self.zoom_full_active {
            self.zoom_full_active = false;
            ZoomRequest::Close
        } else {
            self.zoom_lens_active = false;
            self.zoom_full_active = true;
            ZoomRequest::CloseThenLaunchFullscreen
        }
    }

    /// The Lens Zoom tile.
    pub fn toggle_lens_zoom(&mut self) -> (r: ZoomRequest)
        ensures
            (final(self)@, r) == lens_zoom_step(old(self)@),
            old(self)@.zoom_exclusive() ==> final(self)@.zoom_exclusive(),
    {
        proof {
            use_type_invariant(&*self);
        }
        if self.zoom_lens_active {
            self.zoom_lens_active = false;
            ZoomRequest::Close
        } else {
            self.zoom_full_active = false;
            self.zoom_lens_active = true;
            ZoomRequest::CloseThenLaunchLens
        }
    }

    /// Activating tile `idx` (a click, or Enter on the focused tile).
    pub fn handle_action(&mut self, idx: usize) -> (r: Option<Effect>)
        ensures
            (final(self)@, r) == action_step(old(self)@, idx as int),
            old(self)@.zoom_exclusive() ==> final(self)@.zoom_exclusive(),
    {
        proof {
            use_type_invariant(&*self);
        }
        match idx {
            0 => {
                self.show_shutdown_confirm = true;
                None
            },
            1 => Some(Effect::Zoom(self.toggle_full_zoom())),
            2 => Some(Effect::Zoom(self.toggle_lens_zoom())),
            3 => Some(Effect::OpenSearch),
            4 => {
                self.clock_mode = self.clock_mode.toggled();
                None
            },
            _ => None,
        }
    }

    /// Enter/Space.
    fn press_enter(&mut self) -> (r: Option<Effect>)
        ensures
            (final(self)@, effects_of(r)) == enter_step(old(self)@),
            old(self)@.zoom_exclusive() ==> final(self)@.zoom_exclusive(),
    {
        proof {
            use_type_invariant(&*self);
        }
        if self.show_shutdown_confirm {
            Some(Effect::Shutdown)
        } else {
            let idx = self.focus_index;
            self.handle_action(idx)
        }
    }

    /// Escape.
    fn press_esc(&mut self) -> (r: Option<Effect>)
        ensures
            (final(self)@, effects_of(r)) == esc_step(old(self)@),
    {
        proof {
            use_type_invariant(&*self);
        }
        if self.show_shutdown_confirm {
            self.show_shutdown_confirm = false;
            None
        } else if self.show_help {
            self.show_help = false;
            None
        } else {
            Some(Effect::Zoom(ZoomRequest::Close))
        }
    }

    /// One frame's keys; the effects come in the order they are to be done.
    pub fn handle_keys(&mut self, keys: KeyPresses) -> (r: Vec<Effect>)
        ensures
            (final(self)@, r@) == key_step(old(self)@, keys),
            old(self)@.zoom_exclusive() ==> final(self)@.zoom_exclusive(),
    {
        proof {
            use_type_invariant(&*self);
        }
        let mut effects: Vec<Effect> = Vec::new();
        self.focus_index = move_focus(self.focus_index, keys);
        let ghost m1 = self@;
        assert(m1 == (LauncherModel { focus_index: focus_after(old(self)@.focus_index, keys), ..old(self)@ }));
        if keys.enter_or_space {
            match self.press_enter() {
                Some(e) => effects.push(e),
                None => {},
            }
        }
        let ghost m2 = self@;
        let ghost e2 = effects@;
        assert((m2, e2) == (if keys.enter_or_space { enter_step(m1) } else { (m1, seq![]) }));
        if keys.esc {
            match self.press_esc() {
                Some(e) => effects.push(e),
                None => {},
            }
        }
        let ghost m3 = self@;
        assert(m3 == (if keys.esc { esc_step(m2).0 } else { m2 }));
        if keys.f1 {
            self.show_help = !self.show_help;
        }
        assert(effects@ =~= key_step(old(self)@, keys).1);
        effects
    }

    /// Takes a new clock text and window title; tells whether the title
    /// changed (and so is to be sent to the window).
    pub fn refresh_clock(&mut self, clock_tile_text: String, window_title: String) -> (changed: bool)
        ensures
            changed == (old(self)@.window_title != window_title@),
            final(self)@ == (LauncherModel {
                clock_tile_text: clock_tile_text@,
                window_title: window_title@,
                ..old(self)@
            }),
    {
        proof {
            use_type_invariant(&*self);
        }
        self.clock_tile_text = clock_tile_text;
        if self.window_title != window_title {
            self.window_title = window_title;
            true
        } else {
            false
        }
    }

    /// Takes the Magnifier's state as read back.
    pub fn apply_magnifier_state(&mut self, running: bool, mode: Option<u32>)
        requires
            mode_read_when_running(running, mode),
        ensures
            final(self)@ == (LauncherModel {
                zoom_full_active: magnifier_state(running, mode).0,
                zoom_lens_active: magnifier_state(running, mode).1,
                ..old(self)@
            }),
            final(self)@.zoom_exclusive(),
    {
        proof {
            use_type_invariant(&*self);
        }
        let (full, lens) = get_magnifier_state(running, mode);
        self.zoom_full_active = full;
        self.zoom_lens_active = lens;
    }

    /// The pointer rests on tile `idx`: the focus follows it.
    pub fn hover_tile(&mut self, idx: usize)
        requires
            idx < TILE_COUNT,
        ensures
            final(self)@ == (LauncherModel { focus_index: idx as int, ..old(self)@ }),
    {
        proof {
            use_type_invariant(&*self);
        }
        self.focus_index = idx;
    }

    /// The shutdown question's buttons: Yes shuts down, No closes the question.
    pub fn answer_shutdown_dialog(&mut self, yes: bool, no: bool) -> (r: Option<Effect>)
        ensures
            r == (if yes { Some(Effect::Shutdown) } else { None::<Effect> }),
            final(self)@ == (LauncherModel {
                show_shutdown_confirm: old(self)@.show_shutdown_confirm && !no,
                ..old(self)@
            }),
    {
        proof {
            use_type_invariant(&*self);
        }
        if no {
            self.show_shutdown_confirm = false;
        }
        if yes {
            Some(Effect::Shutdown)
        } else {
            None
        }
    }

    /// The help window was opened or closed from the window itself.
    pub fn set_show_help(&mut self, open: bool)
        ensures
            final(self)@ == (LauncherModel { show_help: open, ..old(self)@ }),
    {
        proof {
            use_type_invariant(&*self);
        }
        self.show_help = open;
    }
}

/// The keys of a frame in which only F1 is pressed.
pub open spec fn f1_only() -> KeyPresses {
    KeyPresses { tab_or_right: false, left: false, enter_or_space: false, esc: false, f1: true }
}

/// The computer is never shut down without the question having been asked:
/// activating a tile (Halt included) never shuts down, and a frame's keys
/// shut down only when Enter/Space answers the open shutdown question.
pub proof fn lemma_shutdown_only_when_confirmed(m: LauncherModel, idx: int, keys: KeyPresses)
    ensures
        action_step(m, idx).1 != Some(Effect::Shutdown),
        key_step(m, keys).1.contains(Effect::Shutdown) ==> m.show_shutdown_confirm && keys.enter_or_space,
        idx == 0 ==> action_step(m, idx).0.show_shutdown_confirm,
{
    let m1 = LauncherModel { focus_index: focus_after(m.focus_index, keys), ..m };
    let s2 = if keys.enter_or_space { enter_step(m1) } else { (m1, seq![]) };
    let s3 = if keys.esc { esc_step(s2.0) } else { (s2.0, seq![]) };
    if key_step(m, keys).1.contains(Effect::Shutdown) {
        let k = choose|k: int| 0 <= k < key_step(m, keys).1.len() && key_step(m, keys).1[k] == Effect::Shutdown;
        assert(key_step(m, keys).1 == s2.1 + s3.1);
        if k >= s2.1.len() {
            assert(s3.1[k - s2.1.len()] == Effect::Shutdown);
        } else {
            assert(s2.1[k] == Effect::Shutdown);
            assert(keys.enter_or_space);
            if !m1.show_shutdown_confirm {
                assert(action_step(m1, m1.focus_index).1 != Some(Effect::Shutdown));
            }
        }
    }
}

/// Escape closes only the topmost open layer: the shutdown question if it
/// is open, else the help; it never opens either.
pub proof fn lemma_escape_closes_topmost(m: LauncherModel)
    ensures
        m.show_shutdown_confirm ==> !esc_step(m).0.show_shutdown_confirm && esc_step(m).0.show_help == m.show_help,
        !m.show_shutdown_confirm && m.show_help ==> !esc_step(m).0.show_help && !esc_step(m).0.show_shutdown_confirm,
        esc_step(m).0.show_help ==> m.show_help,
        esc_step(m).0.show_shutdown_confirm ==> m.show_shutdown_confirm,
{
}

/// F1 pressed in two frames leaves the launcher as it was.
pub proof fn lemma_help_key_twice(m: LauncherModel)
    ensures
        key_step(key_step(m, f1_only()).0, f1_only()).0 == m,
        key_step(m, f1_only()).0.show_help == !m.show_help,
        key_step(m, f1_only()).1.len() == 0,
{
}

/// Clicking the clock tile twice leaves the launcher as it was.
pub proof fn lemma_clock_tile_twice(m: LauncherModel)
    ensures
        action_step(action_step(m, 4).0, 4).0 == m,
        action_step(m, 4).0.clock_mode != m.clock_mode,
{
}

/// Activating a tile that does not exist changes nothing and asks for
/// nothing.
pub proof fn lemma_no_such_tile(m: LauncherModel, idx: int)
    requires
        idx < 0 || idx >= TILE_COUNT,
    ensures
        action_step(m, idx) == (m, None::<Effect>),
{
}

/// A zoom tile clicked twice switches its zoom on and off again (or off and
/// on): its light comes back to what it was, the first click asks to close
/// the Magnifier exactly when the tile was lit, and the other zoom tile is
/// dark after either click that lights one.
pub proof fn lemma_zoom_tile_twice(m: LauncherModel)
    ensures
        full_zoom_step(full_zoom_step(m).0).0.zoom_full_active == m.zoom_full_active,
        (full_zoom_step(m).1 == ZoomRequest::Close) == m.zoom_full_active,
        full_zoom_step(m).0.zoom_full_active ==> !full_zoom_step(m).0.zoom_lens_active,
        lens_zoom_step(lens_zoom_step(m).0).0.zoom_lens_active == m.zoom_lens_active,
        (lens_zoom_step(m).1 == ZoomRequest::Close) == m.zoom_lens_active,
        lens_zoom_step(m).0.zoom_lens_active ==> !lens_zoom_step(m).0.zoom_full_active,
{
}

/// The Magnifier is never seen as both full screen and lens.
pub proof fn lemma_magnifier_state_exclusive(running: bool, mode: Option<u32>)
    ensures
        !(magnifier_state(running, mode).0 && magnifier_state(running, mode).1),
        !running ==> magnifier_state(running, mode) == (false, false),
{
}


/// Each zoom tile drives its own zoom. The Full Zoom tile (1) closes the
/// Magnifier and goes dark when it is lit, and otherwise restarts the
/// Magnifier full screen and lights alone; the Lens Zoom tile (2) does the
/// same with the lens. Halt (0) only opens the shutdown question and WWW (3)
/// only opens the search page.
pub proof fn lemma_tile_actions(m: LauncherModel)
    ensures
        tile_label_of(m, 1) == "\u{1F5A5}Full Zoom"@,
        tile_label_of(m, 2) == "\u{1F5D6}Lens Zoom"@,
        action_step(m, 1) == (if m.zoom_full_active {
            (LauncherModel { zoom_full_active: false, ..m }, Some(Effect::Zoom(ZoomRequest::Close)))
        } else {
            (LauncherModel { zoom_full_active: true, zoom_lens_active: false, ..m }, Some(Effect::Zoom(ZoomRequest::CloseThenLaunchFullscreen)))
        }),
        action_step(m, 2) == (if m.zoom_lens_active {
            (LauncherModel { zoom_lens_active: false, ..m }, Some(Effect::Zoom(ZoomRequest::Close)))
        } else {
            (LauncherModel { zoom_full_active: false, zoom_lens_active: true, ..m }, Some(Effect::Zoom(ZoomRequest::CloseThenLaunchLens)))
        }),
        action_step(m, 0) == (LauncherModel { show_shutdown_confirm: true, ..m }, None::<Effect>),
        action_step(m, 3) == (m, Some(Effect::OpenSearch)),
{
}

/// The keys of a frame in which only Escape is pressed.
pub open spec fn esc_only() -> KeyPresses {
    KeyPresses { tab_or_right: false, left: false, enter_or_space: false, esc: true, f1: false }
}

/// Escape asks for outside work only when it closes no window: with the
/// shutdown question or the help open it asks for nothing; with neither open
/// it changes nothing and closes the Magnifier. A frame in which only Escape
/// is pressed asks for just that.
pub proof fn lemma_escape_effects(m: LauncherModel)
    ensures
        esc_step(m).1.len() > 0 ==> !m.show_shutdown_confirm && !m.show_help,
        m.show_shutdown_confirm || m.show_help ==> esc_step(m).1 == Seq::<Effect>::empty(),
        !m.show_shutdown_confirm && !m.show_help ==> esc_step(m) == (m, seq![Effect::Zoom(ZoomRequest::Close)]),
        key_step(m, esc_only()).1 == (if !m.show_shutdown_confirm && !m.show_help {
            seq![Effect::Zoom(ZoomRequest::Close)]
        } else {
            Seq::<Effect>::empty()
        }),
{
    let m1 = LauncherModel { focus_index: focus_after(m.focus_index, esc_only()), ..m };
    assert(key_step(m, esc_only()).1 =~= esc_step(m1).1);
}

/// The texts of a system time, character by character: `HH:MM:SS` with each
/// field's two digits, and `YYYY-MM-DD`, for fields below a hundred and
/// years below ten thousand.
#[verifier::spinoff_prover]
#[verifier::rlimit(30)]
pub proof fn lemma_system_time_digits(st: SystemTime)
    requires
        st.hour < 100,
        st.minute < 100,
        st.second < 100,
        st.month < 100,
        st.day < 100,
        st.year < 10000,
    ensures
        system_time_texts(st).0 == seq![
            dc(st.hour as int / 10), dc(st.hour as int % 10), ':',
            dc(st.minute as int / 10), dc(st.minute as int % 10), ':',
            dc(st.second as int / 10), dc(st.second as int % 10),
        ],
        system_time_texts(st).1 == seq![
            dc(st.year as int / 1000), dc(st.year as int / 100 % 10), dc(st.year as int / 10 % 10), dc(st.year as int % 10), '-',
            dc(st.month as int / 10), dc(st.month as int % 10), '-',
            dc(st.day as int / 10), dc(st.day as int % 10),
        ],
{
    clock::lemma_two_digits(st.hour as nat);
    clock::lemma_two_digits(st.minute as nat);
    clock::lemma_two_digits(st.second as nat);
    clock::lemma_two_digits(st.month as nat);
    clock::lemma_two_digits(st.day as nat);
    clock::lemma_four_digits(st.year as nat);
    assert(system_time_texts(st).0 =~= seq![
        dc(st.hour as int / 10), dc(st.hour as int % 10), ':',
        dc(st.minute as int / 10), dc(st.minute as int % 10), ':',
        dc(st.second as int / 10), dc(st.second as int % 10),
    ]);
    assert(system_time_texts(st).1 =~= seq![
        dc(st.year as int / 1000), dc(st.year as int / 100 % 10), dc(st.year as int / 10 % 10), dc(st.year as int % 10), '-',
        dc(st.month as int / 10), dc(st.month as int % 10), '-',
        dc(st.day as int / 10), dc(st.day as int % 10),
    ]);
}

/// What a launch stores reads back as the tile it lit: the
/// `MagnificationMode` that the full-screen launch stores is seen, while the
/// Magnifier runs, as full-screen zoom, and the lens launch's as lens zoom.
pub proof fn lemma_launch_reads_back(full: MagnifierLaunch, lens: MagnifierLaunch)
    requires
        is_launch(full, 1, "/fullscreen"@),
        is_launch(lens, 2, "/lens"@),
    ensures
        full.registry@[0].name@ == "MagnificationMode"@,
        lens.registry@[0].name@ == "MagnificationMode"@,
        magnifier_state(true, Some(full.registry@[0].value)) == (true, false),
        magnifier_state(true, Some(lens.registry@[0].value)) == (false, true),
{
}

/// The keys of a frame in which only Enter or Space is pressed.
pub open spec fn enter_only() -> KeyPresses {
    KeyPresses { tab_or_right: false, left: false, enter_or_space: true, esc: false, f1: false }
}

/// Enter or Space answers Yes to an open shutdown question, which shuts
/// down and changes nothing else; with no question open it does exactly
/// what a click on the focused tile does.
pub proof fn lemma_enter_answers_or_activates(m: LauncherModel)
    ensures
        m.show_shutdown_confirm ==> key_step(m, enter_only()) == (m, seq![Effect::Shutdown]),
        !m.show_shutdown_confirm ==> key_step(m, enter_only())
            == (action_step(m, m.focus_index).0, effects_of(action_step(m, m.focus_index).1)),
{
    let m1 = LauncherModel { focus_index: focus_after(m.focus_index, enter_only()), ..m };
    assert(m1 == m);
    assert(key_step(m, enter_only()).1 =~= enter_step(m).1);
}

} // verus!
