//! The launcher on Linux. Its tiles are Halt, Full Zoom, Lens Zoom, WWW and
//! the clock; on a GNOME desktop the zoom tiles drive GNOME's Accessibility
//! Zoom through GSettings, so the desktop's own Zoom settings stay in step.
use vstd::prelude::*;
use crate::clock::{ClockMode, toggled_mode};
use crate::strip::{TILE_COUNT, KeyPresses, focus_after, move_focus};
use crate::text::{seq_contains, trimmed, is_white_space, lossy_utf8, lowercase, contains_text, text_eq, trim_text, utf8_lossy, to_lowercase};
use crate::zoom::ZoomRequest;

verus! {

/// The GSettings schema that switches Accessibility Zoom on and off.
pub const APP_SCHEMA: &'static str = "org.gnome.desktop.a11y.applications";

/// The GSettings schema of the Zoom's own settings.
pub const MAG_SCHEMA: &'static str = "org.gnome.desktop.a11y.magnifier";

/// The About & License text.
pub const HELP_TEXT: &'static str = "Dynamic launcher (Rust/egui, Linux) 1.0.0 \u{2014} PNSL licensed.\n\nPNSL (Permissive Non-Sale License)\nCopyright \u{a9} 2025 Christopher Forster\n\n1. Permission\nPermission to use, copy, modify, and distribute this software for any purpose, without charging a fee specifically for the software itself, is hereby granted, provided that the above copyright notice and this permission notice appear in all copies. You may not introduce more restrictions.\n\n2. No warranty\nTHIS SOFTWARE IS PROVIDED 'AS IS' AND WITHOUT ANY WARRANTIES. IN NO EVENT SHALL THE COPYRIGHT OWNER OR CONTRIBUTORS BE LIABLE FOR ANY DIRECT OR INDIRECT LOSSES OR DAMAGES ARISING FROM THE USE OF THIS SOFTWARE.\n\n3. Derivative works\nAny binary or combined work that directly incorporates PNSL-licensed code is considered a derivative work and must comply with this license. However, merely calling, linking to, or interacting with unmodified, separately distributed PNSL-licensed code does not, by itself, constitute a derivative work.\n\nLinux notes:\nOn Fedora GNOME, the Full Zoom and Lens Zoom tiles control the built-in\nAccessibility \"Zoom\" feature (GNOME screen magnifier) via GSettings.\nThis means your normal GNOME Zoom keyboard shortcuts and Settings panel\nstay in sync with Dynamic Launcher.\n";

/// Which screen magnifier the zoom tiles drive.
#[derive(Clone, Copy, PartialEq, Eq, Structural, Debug)]
pub enum MagnifierBackend {
    /// GNOME's Accessibility Zoom, through GSettings.
    Gnome,
    /// No backend: the zoom tiles only say so.
    Unavailable,
}

/// The desktop's name: `XDG_CURRENT_DESKTOP` if set, else `DESKTOP_SESSION`,
/// else empty.
pub open spec fn desktop_name(xdg_current_desktop: Option<Seq<char>>, desktop_session: Option<Seq<char>>) -> Seq<char> {
    match xdg_current_desktop {
        Some(d) => d,
        None => match desktop_session {
            Some(d) => d,
            None => Seq::empty(),
        },
    }
}

/// The text of an optional string, empty when there is none.
pub open spec fn opt_view(s: Option<String>) -> Option<Seq<char>> {
    match s {
        Some(x) => Some(x@),
        None => None,
    }
}

/// Whether a lower-cased desktop name names a GNOME session (most do,
/// e.g. `ubuntu:gnome`).
pub fn is_gnome_desktop(lowered: &str) -> (r: bool)
    ensures
        r == seq_contains(lowered@, "gnome"@),
{
    contains_text(lowered, "gnome")
}

/// Whether the desktop, named by the two environment variables, is
/// GNOME-like: its lower-cased name contains `gnome`.
pub fn desktop_is_gnome_like(xdg_current_desktop: Option<String>, desktop_session: Option<String>) -> (r: bool)
    ensures
        r == seq_contains(lowercase(desktop_name(opt_view(xdg_current_desktop), opt_view(desktop_session))), "gnome"@),
{
    let desktop = match xdg_current_desktop {
        Some(d) => d,
        None => match desktop_session {
            Some(d) => d,
            None => String::new(),
        },
    };
    let lowered = to_lowercase(desktop.as_str());
    is_gnome_desktop(lowered.as_str())
}

/// The backend: GNOME's Zoom on a GNOME-like desktop where GSettings runs,
/// none otherwise. Whether GSettings runs is found out only on a GNOME-like
/// desktop.
pub fn detect_magnifier_backend(gnome_like: bool, gsettings_available: Option<bool>) -> (r: MagnifierBackend)
    requires
        gsettings_available is Some <==> gnome_like,
    ensures
        r == (if gnome_like && gsettings_available == Some(true) { MagnifierBackend::Gnome } else { MagnifierBackend::Unavailable }),
{
    match gsettings_available {
        Some(true) => MagnifierBackend::Gnome,
        _ => MagnifierBackend::Unavailable,
    }
}

/// The text of a value read from GSettings: none when it was not read or
/// the read failed.
pub open spec fn read_view(value: Option<Option<String>>) -> Option<Seq<char>> {
    match value {
        Some(Some(v)) => Some(v@),
        _ => None,
    }
}

/// The value `gsettings get` printed: its output decoded and trimmed when
/// the command succeeded, none otherwise.
pub fn gsettings_value(success: bool, stdout: &[u8]) -> (r: Option<String>)
    ensures
        r is Some <==> success,
        r matches Some(v) ==> v@ == trimmed(lossy_utf8(stdout@)),
{
    if !success {
        return None;
    }
    let text = utf8_lossy(stdout);
    Some(trim_text(text.as_str()))
}

/// Whether Accessibility Zoom is on: GSettings runs and the
/// `screen-magnifier-enabled` value read is `true`. The value is read
/// (`Some`, holding the read's result) exactly when GSettings runs.
pub fn gnome_magnifier_enabled(gsettings_available: bool, enabled_value: Option<Option<String>>) -> (r: bool)
    requires
        enabled_value is Some <==> gsettings_available,
    ensures
        r == (gsettings_available && read_view(enabled_value) == Some("true"@)),
{
    match enabled_value {
        Some(Some(v)) => text_eq(v.as_str(), "true"),
        _ => false,
    }
}

/// Whether the Zoom shows full screen and whether it shows a lens, from
/// whether it is on and the `screen-position` and `lens-mode` values read
/// (a missing value counts as empty).
pub open spec fn magnifier_mode(enabled: bool, position: Option<Seq<char>>, lens_mode: Option<Seq<char>>) -> (bool, bool) {
    if !enabled {
        (false, false)
    } else {
        let pos = match position { Some(p) => p, None => Seq::empty() };
        let lens = match lens_mode { Some(l) => l, None => Seq::empty() };
        let lens_active = trimmed(lens) == "true"@;
        (!lens_active && seq_contains(pos, "full-screen"@), lens_active)
    }
}

/// Whether the Zoom shows full screen and whether it shows a lens. The
/// `screen-position` and `lens-mode` values are read (`Some`, holding the
/// read's result) exactly when Zoom is on.
pub fn gnome_magnifier_mode(enabled: bool, position: Option<Option<String>>, lens_mode: Option<Option<String>>) -> (r: (bool, bool))
    requires
        position is Some <==> enabled,
        lens_mode is Some <==> enabled,
    ensures
        r == magnifier_mode(enabled, read_view(position), read_view(lens_mode)),
        !(r.0 && r.1),
{
    if !enabled {
        return (false, false);
    }
    let pos = match position {
        Some(Some(p)) => p,
        _ => String::new(),
    };
    let lens = match lens_mode {
        Some(Some(l)) => l,
        _ => String::new(),
    };
    let lens_active = text_eq(trim_text(lens.as_str()).as_str(), "true");
    let fullscreen_active = !lens_active && contains_text(pos.as_str(), "full-screen");
    (fullscreen_active, lens_active)
}

/// One `gsettings set <schema> <key> <value>`.
#[derive(Clone, Copy, Debug)]
pub struct GSettingWrite {
    pub schema: &'static str,
    pub key: &'static str,
    pub value: &'static str,
}

/// A write, as its three texts.
pub open spec fn write_view(w: GSettingWrite) -> (Seq<char>, Seq<char>, Seq<char>) {
    (w.schema@, w.key@, w.value@)
}

/// Writes, as their texts.
pub open spec fn writes_view(ws: Seq<GSettingWrite>) -> Seq<(Seq<char>, Seq<char>, Seq<char>)> {
    ws.map_values(|w: GSettingWrite| write_view(w))
}

/// General-purpose zoom: full screen, 1.75 times, calm tracking, then Zoom on.
pub open spec fn fullscreen_writes() -> Seq<(Seq<char>, Seq<char>, Seq<char>)> {
    seq![
        (MAG_SCHEMA@, "mag-factor"@, "1.75"@),
        (MAG_SCHEMA@, "screen-position"@, "'full-screen'"@),
        (MAG_SCHEMA@, "lens-mode"@, "false"@),
        (MAG_SCHEMA@, "mouse-tracking"@, "'proportional'"@),
        (MAG_SCHEMA@, "focus-tracking"@, "'proportional'"@),
        (MAG_SCHEMA@, "caret-tracking"@, "'centered'"@),
        (MAG_SCHEMA@, "show-cross-hairs"@, "false"@),
        (MAG_SCHEMA@, "invert-lightness"@, "false"@),
        (MAG_SCHEMA@, "scroll-at-edges"@, "true"@),
        (APP_SCHEMA@, "screen-magnifier-enabled"@, "true"@),
    ]
}

/// Reading zoom: the top half of the screen, 2.5 times, a lens that
/// follows the pointer, then Zoom on.
pub open spec fn lens_writes() -> Seq<(Seq<char>, Seq<char>, Seq<char>)> {
    seq![
        (MAG_SCHEMA@, "mag-factor"@, "2.5"@),
        (MAG_SCHEMA@, "screen-position"@, "'top-half'"@),
        (MAG_SCHEMA@, "lens-mode"@, "true"@),
        (MAG_SCHEMA@, "mouse-tracking"@, "'centered'"@),
        (MAG_SCHEMA@, "focus-tracking"@, "'centered'"@),
        (MAG_SCHEMA@, "caret-tracking"@, "'centered'"@),
        (MAG_SCHEMA@, "show-cross-hairs"@, "false"@),
        (MAG_SCHEMA@, "scroll-at-edges"@, "false"@),
        (MAG_SCHEMA@, "invert-lightness"@, "false"@),
        (APP_SCHEMA@, "screen-magnifier-enabled"@, "true"@),
    ]
}

/// Zoom off.
pub open spec fn close_writes() -> Seq<(Seq<char>, Seq<char>, Seq<char>)> {
    seq![(APP_SCHEMA@, "screen-magnifier-enabled"@, "false"@)]
}

fn write(schema: &'static str, key: &'static str, value: &'static str) -> (r: GSettingWrite)
    ensures
        write_view(r) == (schema@, key@, value@),
{
    GSettingWrite { schema, key, value }
}

/// The writes that start full-screen zoom, in order; none when GSettings
/// does not run.
pub fn gnome_launch_magnifier_fullscreen_175(gsettings_available: bool) -> (r: Vec<GSettingWrite>)
    ensures
        writes_view(r@) == (if gsettings_available { fullscreen_writes() } else { Seq::empty() }),
{
    let mut r: Vec<GSettingWrite> = Vec::new();
    if !gsettings_available {
        assert(writes_view(r@) =~= Seq::empty());
        return r;
    }
    r.push(write(MAG_SCHEMA, "mag-factor", "1.75"));
    r.push(write(MAG_SCHEMA, "screen-position", "'full-screen'"));
    r.push(write(MAG_SCHEMA, "lens-mode", "false"));
    r.push(write(MAG_SCHEMA, "mouse-tracking", "'proportional'"));
    r.push(write(MAG_SCHEMA, "focus-tracking", "'proportional'"));
    r.push(write(MAG_SCHEMA, "caret-tracking", "'centered'"));
    r.push(write(MAG_SCHEMA, "show-cross-hairs", "false"));
    r.push(write(MAG_SCHEMA, "invert-lightness", "false"));
    r.push(write(MAG_SCHEMA, "scroll-at-edges", "true"));
    r.push(write(APP_SCHEMA, "screen-magnifier-enabled", "true"));
    assert(writes_view(r@) =~= fullscreen_writes());
    r
}

/// The writes that start lens zoom, in order; none when GSettings does not
/// run.
pub fn gnome_launch_magnifier_lens_175(gsettings_available: bool) -> (r: Vec<GSettingWrite>)
    ensures
        writes_view(r@) == (if gsettings_available { lens_writes() } else { Seq::empty() }),
{
    let mut r: Vec<GSettingWrite> = Vec::new();
    if !gsettings_available {
        assert(writes_view(r@) =~= Seq::empty());
        return r;
    }
    r.push(write(MAG_SCHEMA, "mag-factor", "2.5"));
    r.push(write(MAG_SCHEMA, "screen-position", "'top-half'"));
    r.push(write(MAG_SCHEMA, "lens-mode", "true"));
    r.push(write(MAG_SCHEMA, "mouse-tracking", "'centered'"));
    r.push(write(MAG_SCHEMA, "focus-tracking", "'centered'"));
    r.push(write(MAG_SCHEMA, "caret-tracking", "'centered'"));
    r.push(write(MAG_SCHEMA, "show-cross-hairs", "false"));
    r.push(write(MAG_SCHEMA, "scroll-at-edges", "false"));
    r.push(write(MAG_SCHEMA, "invert-lightness", "false"));
    r.push(write(APP_SCHEMA, "screen-magnifier-enabled", "true"));
    assert(writes_view(r@) =~= lens_writes());
    r
}

/// The write that switches Zoom off, to be done off the UI thread; none
/// when GSettings does not run.
pub fn gnome_close_magnifier_async(gsettings_available: bool) -> (r: Vec<GSettingWrite>)
    ensures
        writes_view(r@) == (if gsettings_available { close_writes() } else { Seq::empty() }),
{
    let mut r: Vec<GSettingWrite> = Vec::new();
    if gsettings_available {
        r.push(write(APP_SCHEMA, "screen-magnifier-enabled", "false"));
    }
    assert(writes_view(r@) =~= (if gsettings_available { close_writes() } else { Seq::empty() }));
    r
}

/// The launch writes a zoom request asks for after switching Zoom off.
pub open spec fn launch_writes(request: ZoomRequest) -> Seq<(Seq<char>, Seq<char>, Seq<char>)> {
    match request {
        ZoomRequest::Close => Seq::empty(),
        ZoomRequest::CloseThenLaunchFullscreen => fullscreen_writes(),
        ZoomRequest::CloseThenLaunchLens => lens_writes(),
    }
}

/// All the writes of a zoom request, in the order they are to be done on
/// one thread: Zoom off, then the new mode's settings and Zoom on; none when
/// GSettings does not run.
pub open spec fn zoom_writes(request: ZoomRequest, gsettings_available: bool) -> Seq<(Seq<char>, Seq<char>, Seq<char>)> {
    if gsettings_available {
        close_writes() + launch_writes(request)
    } else {
        Seq::empty()
    }
}

/// The writes that carry out a zoom request, in order.
pub fn gnome_zoom_writes(request: ZoomRequest, gsettings_available: bool) -> (r: Vec<GSettingWrite>)
    ensures
        writes_view(r@) == zoom_writes(request, gsettings_available),
{
    let mut r = gnome_close_magnifier_async(gsettings_available);
    let mut launch = match request {
        ZoomRequest::Close => Vec::new(),
        ZoomRequest::CloseThenLaunchFullscreen => gnome_launch_magnifier_fullscreen_175(gsettings_available),
        ZoomRequest::CloseThenLaunchLens => gnome_launch_magnifier_lens_175(gsettings_available),
    };
    let ghost first = r@;
    let ghost second = launch@;
    r.append(&mut launch);
    assert(writes_view(r@) =~= writes_view(first) + writes_view(second));
    assert(writes_view(Seq::<GSettingWrite>::empty()) =~= Seq::empty());
    r
}

/// Outside work that a step of the launcher asks for.
#[derive(Clone, Copy, PartialEq, Eq, Structural, Debug)]
pub enum Effect {
    /// Power the computer off now.
    Shutdown,
    /// Switch Zoom off and maybe on again in a new mode: the writes of
    /// `gnome_zoom_writes`, in order, on one thread.
    Zoom(ZoomRequest),
    /// Tell the user that no magnifier backend was found.
    NoBackend,
    /// Open `SEARCH_URL` in the web browser.
    OpenSearch,
}

/// The launcher's state, as values.
pub struct LauncherModel {
    pub clock_mode: ClockMode,
    pub clock_tile_text: Seq<char>,
    pub window_title: Seq<char>,
    pub magnifier_backend: MagnifierBackend,
    pub zoom_full_active: bool,
    pub zoom_lens_active: bool,
    pub focus_index: int,
    pub show_help: bool,
    pub show_shutdown_confirm: bool,
    pub help_text: Seq<char>,
}

impl LauncherModel {
    /// At most one zoom tile is lit.
    pub open spec fn zoom_exclusive(self) -> bool {
        !(self.zoom_full_active && self.zoom_lens_active)
    }
}

/// The label of tile `idx`.
pub open spec fn tile_label_of(m: LauncherModel, idx: int) -> Seq<char> {
    if idx == 0 {
        "Halt"@
    } else if idx == 1 {
        "\u{1F5A5}Full Zoom"@
    } else if idx == 2 {
        "\u{1F5D6}Lens Zoom"@
    } else if idx == 3 {
        "\u{1F310}WWW"@
    } else if idx == 4 {
        m.clock_tile_text
    } else {
        Seq::empty()
    }
}

/// The Full Zoom tile: with GNOME's Zoom, when lit it switches Zoom off,
/// otherwise it restarts Zoom full screen; either way only it can stay lit.
/// Without a backend it says so and both zoom tiles go dark.
pub open spec fn full_zoom_step(m: LauncherModel) -> (LauncherModel, Effect) {
    match m.magnifier_backend {
        MagnifierBackend::Gnome => if m.zoom_full_active {
            (LauncherModel { zoom_full_active: false, zoom_lens_active: false, ..m }, Effect::Zoom(ZoomRequest::Close))
        } else {
            (LauncherModel { zoom_full_active: true, zoom_lens_active: false, ..m }, Effect::Zoom(ZoomRequest::CloseThenLaunchFullscreen))
        },
        MagnifierBackend::Unavailable => (LauncherModel { zoom_full_active: false, zoom_lens_active: false, ..m }, Effect::NoBackend),
    }
}

/// The Lens Zoom tile, the same way round.
pub open spec fn lens_zoom_step(m: LauncherModel) -> (LauncherModel, Effect) {
    match m.magnifier_backend {
        MagnifierBackend::Gnome => if m.zoom_lens_active {
            (LauncherModel { zoom_lens_active: false, zoom_full_active: false, ..m }, Effect::Zoom(ZoomRequest::Close))
        } else {
            (LauncherModel { zoom_lens_active: true, zoom_full_active: false, ..m }, Effect::Zoom(ZoomRequest::CloseThenLaunchLens))
        },
        MagnifierBackend::Unavailable => (LauncherModel { zoom_lens_active: false, zoom_full_active: false, ..m }, Effect::NoBackend),
    }
}

/// What closing the magnifier asks for: a Zoom close with GNOME's Zoom,
/// nothing without a backend.
pub open spec fn close_effects(m: LauncherModel) -> Seq<Effect> {
    match m.magnifier_backend {
        MagnifierBackend::Gnome => seq![Effect::Zoom(ZoomRequest::Close)],
        MagnifierBackend::Unavailable => seq![],
    }
}

/// Activating tile `idx`.
pub open spec fn action_step(m: LauncherModel, idx: int) -> (LauncherModel, Option<Effect>) {
    if idx == 0 {
        (LauncherModel { show_shutdown_confirm: true, ..m }, None)
    } else if idx == 1 {
        (full_zoom_step(m).0, Some(full_zoom_step(m).1))
    } else if idx == 2 {
        (lens_zoom_step(m).0, Some(lens_zoom_step(m).1))
    } else if idx == 3 {
        (m, Some(Effect::OpenSearch))
    } else if idx == 4 {
        (LauncherModel { clock_mode: toggled_mode(m.clock_mode), ..m }, None)
    } else {
        (m, None)
    }
}

/// The effects of an optional effect, as a sequence.
pub open spec fn effects_of(e: Option<Effect>) -> Seq<Effect> {
    match e {
        Some(x) => seq![x],
        None => seq![],
    }
}

/// Enter/Space: with the shutdown question open it answers Yes, otherwise
/// it activates the focused tile.
pub open spec fn enter_step(m: LauncherModel) -> (LauncherModel, Seq<Effect>) {
    if m.show_shutdown_confirm {
        (m, seq![Effect::Shutdown])
    } else {
        (action_step(m, m.focus_index).0, effects_of(action_step(m, m.focus_index).1))
    }
}

/// Escape closes the shutdown question, else the help, else the magnifier.
pub open spec fn esc_step(m: LauncherModel) -> (LauncherModel, Seq<Effect>) {
    if m.show_shutdown_confirm {
        (LauncherModel { show_shutdown_confirm: false, ..m }, seq![])
    } else if m.show_help {
        (LauncherModel { show_help: false, ..m }, seq![])
    } else {
        (m, close_effects(m))
    }
}

/// One frame's keys, in the order the launcher takes them: navigation,
/// Enter/Space, Escape, F1.
pub open spec fn key_step(m: LauncherModel, keys: KeyPresses) -> (LauncherModel, Seq<Effect>) {
    let m1 = LauncherModel { focus_index: focus_after(m.focus_index, keys), ..m };
    let s2 = if keys.enter_or_space { enter_step(m1) } else { (m1, seq![]) };
    let s3 = if keys.esc { esc_step(s2.0) } else { (s2.0, seq![]) };
    let m4 = if keys.f1 { LauncherModel { show_help: !s3.0.show_help, ..s3.0 } } else { s3.0 };
    (m4, s2.1 + s3.1)
}

/// The launcher window's state.
pub struct DynamicLauncherApp {
    clock_mode: ClockMode,
    clock_tile_text: String,
    window_title: String,
    magnifier_backend: MagnifierBackend,
    zoom_full_active: bool,
    zoom_lens_active: bool,
    focus_index: usize,
    show_help: bool,
    show_shutdown_confirm: bool,
    help_text: String,
}

impl View for DynamicLauncherApp {
    type V = LauncherModel;

    closed spec fn view(&self) -> LauncherModel {
        LauncherModel {
            clock_mode: self.clock_mode,
            clock_tile_text: self.clock_tile_text@,
            window_title: self.window_title@,
            magnifier_backend: self.magnifier_backend,
            zoom_full_active: self.zoom_full_active,
            zoom_lens_active: self.zoom_lens_active,
            focus_index: self.focus_index as int,
            show_help: self.show_help,
            show_shutdown_confirm: self.show_shutdown_confirm,
            help_text: self.help_text@,
        }
    }
}

impl DynamicLauncherApp {
    /// The focus always stands on a tile.
    #[verifier::type_invariant]
    closed spec fn focus_on_a_tile(self) -> bool {
        self.focus_index < TILE_COUNT
    }

    /// The state at start-up: the clock shows the time, the focus is on
    /// Halt, no dialog is open; with GNOME's Zoom the zoom tiles show its
    /// mode as read, without a backend both are dark.
    pub fn new(clock_tile_text: String, window_title: String, backend: MagnifierBackend, mode: (bool, bool)) -> (r: Self)
        ensures
            r@ == (LauncherModel {
                clock_mode: ClockMode::Time,
                clock_tile_text: clock_tile_text@,
                window_title: window_title@,
                magnifier_backend: backend,
                zoom_full_active: backend == MagnifierBackend::Gnome && mode.0,
                zoom_lens_active: backend == MagnifierBackend::Gnome && mode.1,
                focus_index: 0,
                show_help: false,
                show_shutdown_confirm: false,
                help_text: HELP_TEXT@,
            }),
    {
        let (zf, zl) = match backend {
            MagnifierBackend::Gnome => mode,
            MagnifierBackend::Unavailable => (false, false),
        };
        DynamicLauncherApp {
            clock_mode: ClockMode::Time,
            clock_tile_text,
            window_title,
            magnifier_backend: backend,
            zoom_full_active: zf,
            zoom_lens_active: zl,
            focus_index: 0,
            show_help: false,
            show_shutdown_confirm: false,
            help_text: String::from_str(HELP_TEXT),
        }
    }

    pub fn clock_mode(&self) -> (r: ClockMode)
        ensures
            r == self@.clock_mode,
    {
        self.clock_mode
    }

    pub fn clock_tile_text(&self) -> (r: &str)
        ensures
            r@ == self@.clock_tile_text,
    {
        self.clock_tile_text.as_str()
    }

    pub fn window_title(&self) -> (r: &str)
        ensures
            r@ == self@.window_title,
    {
        self.window_title.as_str()
    }

    pub fn magnifier_backend(&self) -> (r: MagnifierBackend)
        ensures
            r == self@.magnifier_backend,
    {
        self.magnifier_backend
    }

    pub fn zoom_full_active(&self) -> (r: bool)
        ensures
            r == self@.zoom_full_active,
    {
        self.zoom_full_active
    }

    pub fn zoom_lens_active(&self) -> (r: bool)
        ensures
            r == self@.zoom_lens_active,
    {
        self.zoom_lens_active
    }

    pub fn focus_index(&self) -> (r: usize)
        ensures
            r == self@.focus_index,
            r < TILE_COUNT,
    {
        proof {
            use_type_invariant(self);
        }
        self.focus_index
    }

    pub fn show_help(&self) -> (r: bool)
        ensures
            r == self@.show_help,
    {
        self.show_help
    }

    pub fn show_shutdown_confirm(&self) -> (r: bool)
        ensures
            r == self@.show_shutdown_confirm,
    {
        self.show_shutdown_confirm
    }

    pub fn help_text(&self) -> (r: &str)
        ensures
            r@ == self@.help_text,
    {
        self.help_text.as_str()
    }

    /// The label of tile `idx`; the clock tile shows the clock's text.
    pub fn tile_label(&self, idx: usize) -> (r: String)
        ensures
            r@ == tile_label_of(self@, idx as int),
    {
        match idx {
            0 => String::from_str("Halt"),
            1 => String::from_str("\u{1F5A5}Full Zoom"),
            2 => String::from_str("\u{1F5D6}Lens Zoom"),
            3 => String::from_str("\u{1F310}WWW"),
            4 => self.clock_tile_text.clone(),
            _ => String::new(),
        }
    }

    /// Whether tile `idx` is lit: the zoom tiles while their zoom is on.
    pub fn tile_is_active(&self, idx: usize) -> (r: bool)
        ensures
            r == (idx == 1 && self@.zoom_full_active || idx == 2 && self@.zoom_lens_active),
    {
        match idx {
            1 => self.zoom_full_active,
            2 => self.zoom_lens_active,
            _ => false,
        }
    }

    /// The Full Zoom tile.
    pub fn toggle_full_zoom(&mut self) -> (r: Effect)
        ensures
            (final(self)@, r) == full_zoom_step(old(self)@),
            final(self)@.zoom_exclusive(),
    {
        proof {
            use_type_invariant(&*self);
        }
        match self.magnifier_backend {
            MagnifierBackend::Gnome => {
                if self.zoom_full_active {
                    self.zoom_full_active = false;
                    self.zoom_lens_active = false;
                    Effect::Zoom(ZoomRequest::Close)
                } else {
                    self.zoom_lens_active = false;
                    self.zoom_full_active = true;
                    Effect::Zoom(ZoomRequest::CloseThenLaunchFullscreen)
                }
            },
            MagnifierBackend::Unavailable => {
                self.zoom_full_active = false;
                self.zoom_lens_active = false;
                Effect::NoBackend
            },
        }
    }

    /// The Lens Zoom tile.
    pub fn toggle_lens_zoom(&mut self) -> (r: Effect)
        ensures
            (final(self)@, r) == lens_zoom_step(old(self)@),
            final(self)@.zoom_exclusive(),
    {
        proof {
            use_type_invariant(&*self);
        }
        match self.magnifier_backend {
            MagnifierBackend::Gnome => {
                if self.zoom_lens_active {
                    self.zoom_lens_active = false;
                    self.zoom_full_active = false;
                    Effect::Zoom(ZoomRequest::Close)
                } else {
                    self.zoom_full_active = false;
                    self.zoom_lens_active = true;
                    Effect::Zoom(ZoomRequest::CloseThenLaunchLens)
                }
            },
            MagnifierBackend::Unavailable => {
                self.zoom_lens_active = false;
                self.zoom_full_active = false;
                Effect::NoBackend
            },
        }
    }

    /// What closing the magnifier asks for.
    pub fn close_magnifier(&self) -> (r: Option<Effect>)
        ensures
            effects_of(r) == close_effects(self@),
    {
        match self.magnifier_backend {
            MagnifierBackend::Gnome => Some(Effect::Zoom(ZoomRequest::Close)),
            MagnifierBackend::Unavailable => None,
        }
    }

    /// Activating tile `idx` (a click, or Enter on the focused tile).
    pub fn handle_action(&mut self, idx: usize) -> (r: Option<Effect>)
        ensures
            (final(self)@, r) == action_step(old(self)@, idx as int),
            old(self)@.zoom_exclusive() ==> final(self)@.zoom_exclusive(),
    {
        proof {
            use_type_invariant(&*self);
        }
        match idx {
            0 => {
                self.show_shutdown_confirm = true;
                None
            },
            1 => Some(self.toggle_full_zoom()),
            2 => Some(self.toggle_lens_zoom()),
            3 => Some(Effect::OpenSearch),
            4 => {
                self.clock_mode = self.clock_mode.toggled();
                None
            },
            _ => None,
        }
    }

    /// Enter/Space.
    fn press_enter(&mut self) -> (r: Option<Effect>)
        ensures
            (final(self)@, effects_of(r)) == enter_step(old(self)@),
            old(self)@.zoom_exclusive() ==> final(self)@.zoom_exclusive(),
    {
        proof {
            use_type_invariant(&*self);
        }
        if self.show_shutdown_confirm {
            Some(Effect::Shutdown)
        } else {
            let idx = self.focus_index;
            self.handle_action(idx)
        }
    }

    /// Escape.
    fn press_esc(&mut self) -> (r: Option<Effect>)
        ensures
            (final(self)@, effects_of(r)) == esc_step(old(self)@),
    {
        proof {
            use_type_invariant(&*self);
        }
        if self.show_shutdown_confirm {
            self.show_shutdown_confirm = false;
            None
        } else if self.show_help {
            self.show_help = false;
            None
        } else {
            self.close_magnifier()
        }
    }

    /// One frame's keys; the effects come in the order they are to be done.
    #[verifier::rlimit(40)]
    pub fn handle_keys(&mut self, keys: KeyPresses) -> (r: Vec<Effect>)
        ensures
            (final(self)@, r@) == key_step(old(self)@, keys),
            old(self)@.zoom_exclusive() ==> final(self)@.zoom_exclusive(),
    {
        proof {
            use_type_invariant(&*self);
        }
        let mut effects: Vec<Effect> = Vec::new();
        self.focus_index = move_focus(self.focus_index, keys);
        let ghost m1 = self@;
        assert(m1 == (LauncherModel { focus_index: focus_after(old(self)@.focus_index, keys), ..old(self)@ }));
        if keys.enter_or_space {
            match self.press_enter() {
                Some(e) => effects.push(e),
                None => {},
            }
        }
        let ghost m2 = self@;
        let ghost e2 = effects@;
        assert((m2, e2) == (if keys.enter_or_space { enter_step(m1) } else { (m1, seq![]) }));
        if keys.esc {
            match self.press_esc() {
                Some(e) => effects.push(e),
                None => {},
            }
        }
        let ghost m3 = self@;
        assert(m3 == (if keys.esc { esc_step(m2).0 } else { m2 }));
        if keys.f1 {
            self.show_help = !self.show_help;
        }
        assert(effects@ =~= key_step(old(self)@, keys).1);
        effects
    }

    /// Takes a new clock text and window title; tells whether the title
    /// changed (and so is to be sent to the window).
    pub fn refresh_clock(&mut self, clock_tile_text: String, window_title: String) -> (changed: bool)
        ensures
            changed == (old(self)@.window_title != window_title@),
            final(self)@ == (LauncherModel {
                clock_tile_text: clock_tile_text@,
                window_title: window_title@,
                ..old(self)@
            }),
    {
        proof {
            use_type_invariant(&*self);
        }
        self.clock_tile_text = clock_tile_text;
        if self.window_title != window_title {
            self.window_title = window_title;
            true
        } else {
            false
        }
    }

    /// Takes the Zoom's mode as read back; without a backend nothing is read
    /// and nothing changes.
    pub fn apply_magnifier_mode(&mut self, mode: (bool, bool))
        ensures
            final(self)@ == (if old(self)@.magnifier_backend == MagnifierBackend::Gnome {
                LauncherModel { zoom_full_active: mode.0, zoom_lens_active: mode.1, ..old(self)@ }
            } else {
                old(self)@
            }),
    {
        proof {
            use_type_invariant(&*self);
        }
        match self.magnifier_backend {
            MagnifierBackend::Gnome => {
                self.zoom_full_active = mode.0;
                self.zoom_lens_active = mode.1;
            },
            MagnifierBackend::Unavailable => {},
        }
    }

    /// The pointer rests on tile `idx`: the focus follows it.
    pub fn hover_tile(&mut self, idx: usize)
        requires
            idx < TILE_COUNT,
        ensures
            final(self)@ == (LauncherModel { focus_index: idx as int, ..old(self)@ }),
    {
        proof {
            use_type_invariant(&*self);
        }
        self.focus_index = idx;
    }

    /// The shutdown question's buttons: Yes shuts down, No closes the question.
    pub fn answer_shutdown_dialog(&mut self, yes: bool, no: bool) -> (r: Option<Effect>)
        ensures
            r == (if yes { Some(Effect::Shutdown) } else { None::<Effect> }),
            final(self)@ == (LauncherModel {
                show_shutdown_confirm: old(self)@.show_shutdown_confirm && !no,
                ..old(self)@
            }),
    {
        proof {
            use_type_invariant(&*self);
        }
        if no {
            self.show_shutdown_confirm = false;
        }
        if yes {
            Some(Effect::Shutdown)
        } else {
            None
        }
    }

    /// The help window was opened or closed from the window itself.
    pub fn set_show_help(&mut self, open: bool)
        ensures
            final(self)@ == (LauncherModel { show_help: open, ..old(self)@ }),
    {
        proof {
            use_type_invariant(&*self);
        }
        self.show_help = open;
    }
}

/// The keys of a frame in which only F1 is pressed.
pub open spec fn f1_only() -> KeyPresses {
    KeyPresses { tab_or_right: false, left: false, enter_or_space: false, esc: false, f1: true }
}

/// The computer is never shut down without the question having been asked:
/// activating a tile (Halt included) never shuts down, and a frame's keys
/// shut down only when Enter/Space answers the open shutdown question.
pub proof fn lemma_shutdown_only_when_confirmed(m: LauncherModel, idx: int, keys: KeyPresses)
    ensures
        action_step(m, idx).1 != Some(Effect::Shutdown),
        key_step(m, keys).1.contains(Effect::Shutdown) ==> m.show_shutdown_confirm && keys.enter_or_space,
        idx == 0 ==> action_step(m, idx).0.show_shutdown_confirm,
{
    let m1 = LauncherModel { focus_index: focus_after(m.focus_index, keys), ..m };
    let s2 = if keys.enter_or_space { enter_step(m1) } else { (m1, seq![]) };
    let s3 = if keys.esc { esc_step(s2.0) } else { (s2.0, seq![]) };
    if key_step(m, keys).1.contains(Effect::Shutdown) {
        let k = choose|k: int| 0 <= k < key_step(m, keys).1.len() && key_step(m, keys).1[k] == Effect::Shutdown;
        assert(key_step(m, keys).1 == s2.1 + s3.1);
        if k >= s2.1.len() {
            assert(s3.1[k - s2.1.len()] == Effect::Shutdown);
        } else {
            assert(s2.1[k] == Effect::Shutdown);
            assert(keys.enter_or_space);
            if !m1.show_shutdown_confirm {
                assert(action_step(m1, m1.focus_index).1 != Some(Effect::Shutdown));
            }
        }
    }
}

/// Escape closes only the topmost open layer: the shutdown question if it
/// is open, else the help; it never opens either.
pub proof fn lemma_escape_closes_topmost(m: LauncherModel)
    ensures
        m.show_shutdown_confirm ==> !esc_step(m).0.show_shutdown_confirm && esc_step(m).0.show_help == m.show_help,
        !m.show_shutdown_confirm && m.show_help ==> !esc_step(m).0.show_help && !esc_step(m).0.show_shutdown_confirm,
        esc_step(m).0.show_help ==> m.show_help,
        esc_step(m).0.show_shutdown_confirm ==> m.show_shutdown_confirm,
{
}

/// F1 pressed in two frames leaves the launcher as it was.
pub proof fn lemma_help_key_twice(m: LauncherModel)
    ensures
        key_step(key_step(m, f1_only()).0, f1_only()).0 == m,
        key_step(m, f1_only()).0.show_help == !m.show_help,
        key_step(m, f1_only()).1.len() == 0,
{
}

/// Clicking the clock tile twice leaves the launcher as it was.
pub proof fn lemma_clock_tile_twice(m: LauncherModel)
    ensures
        action_step(action_step(m, 4).0, 4).0 == m,
        action_step(m, 4).0.clock_mode != m.clock_mode,
{
}

/// Activating a tile that does not exist changes nothing and asks for
/// nothing.
pub proof fn lemma_no_such_tile(m: LauncherModel, idx: int)
    requires
        idx < 0 || idx >= TILE_COUNT,
    ensures
        action_step(m, idx) == (m, None::<Effect>),
{
}

/// With GNOME's Zoom, a zoom tile clicked twice switches its zoom on and
/// off again (or off and on): its light comes back to what it was, and the
/// first click asks to switch Zoom off exactly when the tile was lit.
/// Without a backend a zoom tile only reports that, and both zoom tiles go
/// dark.
pub proof fn lemma_zoom_tile_twice(m: LauncherModel)
    ensures
        m.magnifier_backend == MagnifierBackend::Gnome ==> {
            &&& full_zoom_step(full_zoom_step(m).0).0.zoom_full_active == m.zoom_full_active
            &&& (full_zoom_step(m).1 == Effect::Zoom(ZoomRequest::Close)) == m.zoom_full_active
            &&& lens_zoom_step(lens_zoom_step(m).0).0.zoom_lens_active == m.zoom_lens_active
            &&& (lens_zoom_step(m).1 == Effect::Zoom(ZoomRequest::Close)) == m.zoom_lens_active
        },
        m.magnifier_backend == MagnifierBackend::Unavailable ==> {
            &&& full_zoom_step(m).1 == Effect::NoBackend
            &&& lens_zoom_step(m).1 == Effect::NoBackend
            &&& !full_zoom_step(m).0.zoom_full_active && !full_zoom_step(m).0.zoom_lens_active
            &&& !lens_zoom_step(m).0.zoom_full_active && !lens_zoom_step(m).0.zoom_lens_active
        },
{
}

/// GNOME's Zoom follows the zoom tiles: the writes of a request end by
/// switching Zoom on for a launch and off for a close, so once they are done
/// in order, Zoom is on exactly when the request lit a tile.
pub proof fn lemma_zoom_writes_end_in_step(request: ZoomRequest)
    ensures
        zoom_writes(request, true).last() == (APP_SCHEMA@, "screen-magnifier-enabled"@,
            if request == ZoomRequest::Close { "false"@ } else { "true"@ }),
        zoom_writes(request, true)[0] == (APP_SCHEMA@, "screen-magnifier-enabled"@, "false"@),
{
}

/// Zoom is never seen as both full screen and lens, and is seen as neither
/// while it is off.
pub proof fn lemma_magnifier_mode_exclusive(enabled: bool, position: Option<Seq<char>>, lens_mode: Option<Seq<char>>)
    ensures
        !(magnifier_mode(enabled, position, lens_mode).0 && magnifier_mode(enabled, position, lens_mode).1),
        !enabled ==> magnifier_mode(enabled, position, lens_mode) == (false, false),
{
}


/// Each zoom tile drives its own zoom. With GNOME's Zoom, the Full Zoom
/// tile (1) switches Zoom off when it is lit and otherwise restarts it full
/// screen, lighting only itself; the Lens Zoom tile (2) does the same with
/// the lens. Without a backend both only report that and go dark. Halt (0)
/// only opens the shutdown question and WWW (3) only opens the search page.
pub proof fn lemma_tile_actions(m: LauncherModel)
    ensures
        tile_label_of(m, 1) == "\u{1F5A5}Full Zoom"@,
        tile_label_of(m, 2) == "\u{1F5D6}Lens Zoom"@,
        m.magnifier_backend == MagnifierBackend::Gnome ==> action_step(m, 1) == (if m.zoom_full_active {
            (LauncherModel { zoom_full_active: false, zoom_lens_active: false, ..m }, Some(Effect::Zoom(ZoomRequest::Close)))
        } else {
            (LauncherModel { zoom_full_active: true, zoom_lens_active: false, ..m }, Some(Effect::Zoom(ZoomRequest::CloseThenLaunchFullscreen)))
        }),
        m.magnifier_backend == MagnifierBackend::Gnome ==> action_step(m, 2) == (if m.zoom_lens_active {
            (LauncherModel { zoom_full_active: false, zoom_lens_active: false, ..m }, Some(Effect::Zoom(ZoomRequest::Close)))
        } else {
            (LauncherModel { zoom_full_active: false, zoom_lens_active: true, ..m }, Some(Effect::Zoom(ZoomRequest::CloseThenLaunchLens)))
        }),
        m.magnifier_backend == MagnifierBackend::Unavailable ==> action_step(m, 1)
            == (LauncherModel { zoom_full_active: false, zoom_lens_active: false, ..m }, Some(Effect::NoBackend)),
        m.magnifier_backend == MagnifierBackend::Unavailable ==> action_step(m, 2)
            == (LauncherModel { zoom_full_active: false, zoom_lens_active: false, ..m }, Some(Effect::NoBackend)),
        action_step(m, 0) == (LauncherModel { show_shutdown_confirm: true, ..m }, None::<Effect>),
        action_step(m, 3) == (m, Some(Effect::OpenSearch)),
{
}

/// The keys of a frame in which only Escape is pressed.
pub open spec fn esc_only() -> KeyPresses {
    KeyPresses { tab_or_right: false, left: false, enter_or_space: false, esc: true, f1: false }
}

/// Escape asks for outside work only when it closes no window: with the
/// shutdown question or the help open it asks for nothing; with neither open
/// it changes nothing and switches GNOME's Zoom off (nothing without a
/// backend). A frame in which only Escape is pressed asks for just that.
pub proof fn lemma_escape_effects(m: LauncherModel)
    ensures
        esc_step(m).1.len() > 0 ==> !m.show_shutdown_confirm && !m.show_help,
        m.show_shutdown_confirm || m.show_help ==> esc_step(m).1 == Seq::<Effect>::empty(),
        !m.show_shutdown_confirm && !m.show_help ==> esc_step(m) == (m,
            if m.magnifier_backend == MagnifierBackend::Gnome { seq![Effect::Zoom(ZoomRequest::Close)] } else { Seq::<Effect>::empty() }),
        key_step(m, esc_only()).1 == (if !m.show_shutdown_confirm && !m.show_help && m.magnifier_backend == MagnifierBackend::Gnome {
            seq![Effect::Zoom(ZoomRequest::Close)]
        } else {
            Seq::<Effect>::empty()
        }),
{
    let m1 = LauncherModel { focus_index: focus_after(m.focus_index, esc_only()), ..m };
    assert(key_step(m, esc_only()).1 =~= esc_step(m1).1);
}

/// Both zoom modes keep the screen's colours normal and show no
/// cross-hairs: every write of `invert-lightness` or `show-cross-hairs` in
/// either launch sets it to `false`, and each launch writes both keys.
pub proof fn lemma_zoom_keeps_normal_view()
    ensures
        forall|i: int| 0 <= i < lens_writes().len()
            && (#[trigger] lens_writes()[i].1 == "invert-lightness"@ || lens_writes()[i].1 == "show-cross-hairs"@)
            ==> lens_writes()[i].2 == "false"@,
        forall|i: int| 0 <= i < fullscreen_writes().len()
            && (#[trigger] fullscreen_writes()[i].1 == "invert-lightness"@ || fullscreen_writes()[i].1 == "show-cross-hairs"@)
            ==> fullscreen_writes()[i].2 == "false"@,
        lens_writes().contains((MAG_SCHEMA@, "invert-lightness"@, "false"@)),
        lens_writes().contains((MAG_SCHEMA@, "show-cross-hairs"@, "false"@)),
        fullscreen_writes().contains((MAG_SCHEMA@, "invert-lightness"@, "false"@)),
        fullscreen_writes().contains((MAG_SCHEMA@, "show-cross-hairs"@, "false"@)),
{
    reveal_strlit("mag-factor");
    reveal_strlit("screen-position");
    reveal_strlit("lens-mode");
    reveal_strlit("mouse-tracking");
    reveal_strlit("focus-tracking");
    reveal_strlit("caret-tracking");
    reveal_strlit("show-cross-hairs");
    reveal_strlit("invert-lightness");
    reveal_strlit("scroll-at-edges");
    reveal_strlit("screen-magnifier-enabled");
    assert(lens_writes()[8] == (MAG_SCHEMA@, "invert-lightness"@, "false"@));
    assert(lens_writes()[6] == (MAG_SCHEMA@, "show-cross-hairs"@, "false"@));
    assert(fullscreen_writes()[7] == (MAG_SCHEMA@, "invert-lightness"@, "false"@));
    assert(fullscreen_writes()[6] == (MAG_SCHEMA@, "show-cross-hairs"@, "false"@));
    assert forall|i: int| 0 <= i < lens_writes().len()
        && (#[trigger] lens_writes()[i].1 == "invert-lightness"@ || lens_writes()[i].1 == "show-cross-hairs"@)
        implies lens_writes()[i].2 == "false"@ by {
        if i != 6 && i != 8 {
            assert(lens_writes()[i].1.len() != 16);
        }
    }
    assert forall|i: int| 0 <= i < fullscreen_writes().len()
        && (#[trigger] fullscreen_writes()[i].1 == "invert-lightness"@ || fullscreen_writes()[i].1 == "show-cross-hairs"@)
        implies fullscreen_writes()[i].2 == "false"@ by {
        if i != 6 && i != 7 {
            assert(fullscreen_writes()[i].1.len() != 16);
        }
    }
}

/// While Zoom is on, the lens is seen exactly when the `lens-mode` value,
/// trimmed, reads `true`, whatever `screen-position` holds; full screen is
/// seen exactly when the lens is not and `screen-position` mentions
/// `full-screen` (a missing value counts as empty).
pub proof fn lemma_lens_mode_decides(position: Option<Seq<char>>, lens_mode: Option<Seq<char>>)
    ensures
        magnifier_mode(true, position, lens_mode).1
            <==> trimmed(match lens_mode { Some(l) => l, None => Seq::empty() }) == "true"@,
        magnifier_mode(true, position, lens_mode).0
            <==> !magnifier_mode(true, position, lens_mode).1
                && seq_contains(match position { Some(p) => p, None => Seq::empty() }, "full-screen"@),
{
}

/// What a launch writes reads back as the tile it lit: the `screen-position`
/// and `lens-mode` values that Lens Zoom writes are seen as lens zoom, and
/// those that Full Zoom writes as full-screen zoom.
pub proof fn lemma_launch_reads_back()
    ensures
        lens_writes()[1].1 == "screen-position"@ && lens_writes()[2].1 == "lens-mode"@,
        fullscreen_writes()[1].1 == "screen-position"@ && fullscreen_writes()[2].1 == "lens-mode"@,
        magnifier_mode(true, Some(lens_writes()[1].2), Some(lens_writes()[2].2)) == (false, true),
        magnifier_mode(true, Some(fullscreen_writes()[1].2), Some(fullscreen_writes()[2].2)) == (true, false),
{
    reveal_strlit("true");
    reveal_strlit("false");
    reveal_strlit("'full-screen'");
    reveal_strlit("full-screen");
    let t = "true"@;
    assert(!is_white_space(t.first()) && !is_white_space(t.last()));
    assert(trimmed(t) == t);
    let f = "false"@;
    assert(!is_white_space(f.first()) && !is_white_space(f.last()));
    assert(trimmed(f) == f);
    assert(f != t);
    let p = "'full-screen'"@;
    assert(p.subrange(1int, 1int + "full-screen"@.len()) =~= "full-screen"@);
    assert(seq_contains(p, "full-screen"@));
}

/// Full Zoom magnifies 1.75 times over the whole screen without a lens;
/// Lens Zoom magnifies 2.5 times in a lens on the top half of the screen.
/// Every write of those keys in a launch says so, and each launch writes
/// them and ends by switching Zoom on.
pub proof fn lemma_launch_settings()
    ensures
        forall|i: int| #![trigger lens_writes()[i]] 0 <= i < lens_writes().len() ==> {
            &&& lens_writes()[i].1 == "mag-factor"@ ==> lens_writes()[i].2 == "2.5"@
            &&& lens_writes()[i].1 == "screen-position"@ ==> lens_writes()[i].2 == "'top-half'"@
            &&& lens_writes()[i].1 == "lens-mode"@ ==> lens_writes()[i].2 == "true"@
        },
        forall|i: int| #![trigger fullscreen_writes()[i]] 0 <= i < fullscreen_writes().len() ==> {
            &&& fullscreen_writes()[i].1 == "mag-factor"@ ==> fullscreen_writes()[i].2 == "1.75"@
            &&& fullscreen_writes()[i].1 == "screen-position"@ ==> fullscreen_writes()[i].2 == "'full-screen'"@
            &&& fullscreen_writes()[i].1 == "lens-mode"@ ==> fullscreen_writes()[i].2 == "false"@
        },
        lens_writes().contains((MAG_SCHEMA@, "mag-factor"@, "2.5"@)),
        lens_writes().contains((MAG_SCHEMA@, "screen-position"@, "'top-half'"@)),
        lens_writes().contains((MAG_SCHEMA@, "lens-mode"@, "true"@)),
        lens_writes().last() == (APP_SCHEMA@, "screen-magnifier-enabled"@, "true"@),
        fullscreen_writes().contains((MAG_SCHEMA@, "mag-factor"@, "1.75"@)),
        fullscreen_writes().contains((MAG_SCHEMA@, "screen-position"@, "'full-screen'"@)),
        fullscreen_writes().contains((MAG_SCHEMA@, "lens-mode"@, "false"@)),
        fullscreen_writes().last() == (APP_SCHEMA@, "screen-magnifier-enabled"@, "true"@),
{
    reveal_strlit("mag-factor");
    reveal_strlit("screen-position");
    reveal_strlit("lens-mode");
    reveal_strlit("mouse-tracking");
    reveal_strlit("focus-tracking");
    reveal_strlit("caret-tracking");
    reveal_strlit("show-cross-hairs");
    reveal_strlit("invert-lightness");
    reveal_strlit("scroll-at-edges");
    reveal_strlit("screen-magnifier-enabled");
    assert(lens_writes()[0] == (MAG_SCHEMA@, "mag-factor"@, "2.5"@));
    assert(lens_writes()[1] == (MAG_SCHEMA@, "screen-position"@, "'top-half'"@));
    assert(lens_writes()[2] == (MAG_SCHEMA@, "lens-mode"@, "true"@));
    assert(fullscreen_writes()[0] == (MAG_SCHEMA@, "mag-factor"@, "1.75"@));
    assert(fullscreen_writes()[1] == (MAG_SCHEMA@, "screen-position"@, "'full-screen'"@));
    assert(fullscreen_writes()[2] == (MAG_SCHEMA@, "lens-mode"@, "false"@));
    assert("scroll-at-edges"@[3] != "screen-position"@[3]);
    assert forall|i: int| #![trigger lens_writes()[i]] 0 <= i < lens_writes().len() implies {
        &&& lens_writes()[i].1 == "mag-factor"@ ==> lens_writes()[i].2 == "2.5"@
        &&& lens_writes()[i].1 == "screen-position"@ ==> lens_writes()[i].2 == "'top-half'"@
        &&& lens_writes()[i].1 == "lens-mode"@ ==> lens_writes()[i].2 == "true"@
    } by {
        if i == 0 {
            assert(lens_writes()[i].1.len() == 10);
        } else if i == 1 {
            assert(lens_writes()[i].1.len() == 15);
        } else if i == 2 {
            assert(lens_writes()[i].1.len() == 9);
        } else {
            assert(lens_writes()[i].1.len() != 10 && lens_writes()[i].1.len() != 9);
            if i == 7 {
                assert(lens_writes()[i].1[3] != "screen-position"@[3]);
            }
            assert(lens_writes()[i].1 != "screen-position"@);
        }
    }
    assert forall|i: int| #![trigger fullscreen_writes()[i]] 0 <= i < fullscreen_writes().len() implies {
        &&& fullscreen_writes()[i].1 == "mag-factor"@ ==> fullscreen_writes()[i].2 == "1.75"@
        &&& fullscreen_writes()[i].1 == "screen-position"@ ==> fullscreen_writes()[i].2 == "'full-screen'"@
        &&& fullscreen_writes()[i].1 == "lens-mode"@ ==> fullscreen_writes()[i].2 == "false"@
    } by {
        if i == 0 {
            assert(fullscreen_writes()[i].1.len() == 10);
        } else if i == 1 {
            assert(fullscreen_writes()[i].1.len() == 15);
        } else if i == 2 {
            assert(fullscreen_writes()[i].1.len() == 9);
        } else {
            assert(fullscreen_writes()[i].1.len() != 10 && fullscreen_writes()[i].1.len() != 9);
            if i == 8 {
                assert(fullscreen_writes()[i].1[3] != "screen-position"@[3]);
            }
            assert(fullscreen_writes()[i].1 != "screen-position"@);
        }
    }
}

/// The keys of a frame in which only Enter or Space is pressed.
pub open spec fn enter_only() -> KeyPresses {
    KeyPresses { tab_or_right: false, left: false, enter_or_space: true, esc: false, f1: false }
}

/// Enter or Space answers Yes to an open shutdown question, which shuts
/// down and changes nothing else; with no question open it does exactly
/// what a click on the focused tile does.
pub proof fn lemma_enter_answers_or_activates(m: LauncherModel)
    ensures
        m.show_shutdown_confirm ==> key_step(m, enter_only()) == (m, seq![Effect::Shutdown]),
        !m.show_shutdown_confirm ==> key_step(m, enter_only())
            == (action_step(m, m.focus_index).0, effects_of(action_step(m, m.focus_index).1)),
{
    let m1 = LauncherModel { focus_index: focus_after(m.focus_index, enter_only()), ..m };
    assert(m1 == m);
    assert(key_step(m, enter_only()).1 =~= enter_step(m).1);
}

} // verus!
