//! The launcher on OpenBSD. Its tiles are Halt, CMD, top, WWW and the clock;
//! Halt shuts down through `doas`, CMD and top open terminals, and errors
//! from shutting down are shown in a system message box.
use vstd::prelude::*;
use crate::clock::{ClockMode, toggled_mode};
use crate::strip::{TILE_COUNT, KeyPresses, focus_after, move_focus};
use crate::text::{trimmed, lossy_utf8, trim_text, utf8_lossy, text_eq};

verus! {

/// The About & License text, with the keyboard and tile notes.
pub const HELP_TEXT: &'static str = "Dynamic launcher (Rust/egui, OpenBSD) 1.0.0 \u{2014} PNSL licensed.\n\nPNSL (Permissive Non-Sale License)\nCopyright \u{a9} 2025 Christopher Forster\n\n1. Permission\nPermission to use, copy, modify, and distribute this software for any purpose, without charging a fee\nspecifically for the software itself, is hereby granted, provided that the above copyright notice and\nthis permission notice appear in all copies. You may not introduce more restrictions.\n\n2. No warranty\nTHIS SOFTWARE IS PROVIDED 'AS IS' AND WITHOUT ANY WARRANTIES. IN NO EVENT SHALL THE COPYRIGHT OWNER OR\nCONTRIBUTORS BE LIABLE FOR ANY DIRECT OR INDIRECT LOSSES OR DAMAGES ARISING FROM THE USE OF THIS SOFTWARE.\n\n3. Derivative works\nAny binary or combined work that directly incorporates PNSL-licensed code is considered a derivative work\nand must comply with this license. However, merely calling, linking to, or interacting with unmodified,\nseparately distributed PNSL-licensed code does not, by itself, constitute a derivative work.\n\nOpenBSD notes:\n\u{2022} Halt: asks for confirmation, then tries \"doas /sbin/shutdown -p now\", and if that fails, \"/sbin/shutdown -p now\".\nAny error messages from doas/shutdown are shown in a system message box.\n\u{2022} CMD: prefers Sakura (if installed). If Sakura is not found, falls back to your default terminal\n($TERMINAL) or common terminals like xterm, konsole, etc.\n\u{2022} top: opens a terminal running \"top\" (same terminal preference as CMD).\n\u{2022} WWW: opens DuckDuckGo using the system web browser.\n\u{2022} Clock: click to toggle between time and date.\n\nKeyboard:\n\u{2022} Left / Right / Tab: move focus between tiles.\n\u{2022} Enter / Space: activate focused tile.\n\u{2022} Esc: closes dialogs/help/system messages.\n\u{2022} F1: show/hide this help.\n";

/// How one run of an outside program ended.
pub enum CommandOutcome {
    /// It ran and exited successfully.
    Succeeded,
    /// It ran and failed, writing `stderr`.
    Failed { stderr: Vec<u8> },
    /// It could not be started; `error` says why.
    NotStarted { error: String },
}

impl CommandOutcome {
    /// Whether the program ran and exited successfully.
    pub fn succeeded(&self) -> (r: bool)
        ensures
            r == (*self is Succeeded),
    {
        match self {
            CommandOutcome::Succeeded => true,
            _ => false,
        }
    }
}

/// A program and its arguments.
pub struct ProgramCall {
    pub program: &'static str,
    pub args: Vec<&'static str>,
}

/// The first way to shut down: `doas /sbin/shutdown -p now`.
pub fn doas_shutdown() -> (r: ProgramCall)
    ensures
        is_doas_shutdown(r),
{
    let mut args: Vec<&'static str> = Vec::new();
    args.push("/sbin/shutdown");
    args.push("-p");
    args.push("now");
    assert(args@.map_values(|a: &str| a@) =~= seq!["/sbin/shutdown"@, "-p"@, "now"@]);
    ProgramCall { program: "doas", args }
}

/// The second way, for a user who may shut down: `/sbin/shutdown -p now`.
pub fn direct_shutdown() -> (r: ProgramCall)
    ensures
        is_direct_shutdown(r),
{
    let mut args: Vec<&'static str> = Vec::new();
    args.push("-p");
    args.push("now");
    assert(args@.map_values(|a: &str| a@) =~= seq!["-p"@, "now"@]);
    ProgramCall { program: "/sbin/shutdown", args }
}

/// What a failed run reports from its error output: the trimmed text behind
/// `prefix`, or `silent` when nothing is left after trimming.
pub open spec fn stderr_report(text: Seq<char>, prefix: Seq<char>, silent: Seq<char>) -> Seq<char> {
    if trimmed(text).len() == 0 {
        silent
    } else {
        prefix + trimmed(text)
    }
}

/// The error a failed attempt reports: its decoded error output as
/// `stderr_report` gives it, or why it could not be started behind
/// `start_prefix`.
pub open spec fn attempt_error(o: CommandOutcome, prefix: Seq<char>, silent: Seq<char>, start_prefix: Seq<char>) -> Seq<char> {
    match o {
        CommandOutcome::Succeeded => Seq::empty(),
        CommandOutcome::Failed { stderr } => stderr_report(lossy_utf8(stderr@), prefix, silent),
        CommandOutcome::NotStarted { error } => start_prefix + error@,
    }
}

/// The error of a failed `doas` attempt.
pub open spec fn doas_error(o: CommandOutcome) -> Seq<char> {
    attempt_error(o, "doas error: "@, "doas failed to run /sbin/shutdown -p now"@, "Failed to run doas: "@)
}

/// The error of a failed direct attempt.
pub open spec fn direct_error(o: CommandOutcome) -> Seq<char> {
    attempt_error(o, "shutdown error: "@, "Direct /sbin/shutdown -p now failed"@, "Failed to run /sbin/shutdown: "@)
}

/// What a failed run reports from its decoded error output.
pub fn error_output_report(text: &str, prefix: &str, silent: &str) -> (r: String)
    ensures
        r@ == stderr_report(text@, prefix@, silent@),
{
    let t = trim_text(text);
    if t.as_str().unicode_len() == 0 {
        String::from_str(silent)
    } else {
        let mut r = String::from_str(prefix);
        r.append(t.as_str());
        r
    }
}

fn describe_failure(o: &CommandOutcome, prefix: &str, silent: &str, start_prefix: &str) -> (r: String)
    ensures
        r@ == attempt_error(*o, prefix@, silent@, start_prefix@),
{
    match o {
        CommandOutcome::Succeeded => String::new(),
        CommandOutcome::Failed { stderr } => {
            let text = utf8_lossy(stderr.as_slice());
            error_output_report(text.as_str(), prefix, silent)
        },
        CommandOutcome::NotStarted { error } => {
            let mut r = String::from_str(start_prefix);
            r.append(error.as_str());
            r
        },
    }
}

/// How an attempt to shut down ended: success when either way succeeded,
/// else both errors, one per line.
pub open spec fn shutdown_result(doas: CommandOutcome, direct: Option<CommandOutcome>) -> Result<(), Seq<char>> {
    if doas is Succeeded {
        Ok(())
    } else {
        match direct {
            Some(CommandOutcome::Succeeded) => Ok(()),
            Some(o) => Err(doas_error(doas) + seq!['\n'] + direct_error(o)),
            None => Err(doas_error(doas)),
        }
    }
}

/// A result with its error as text.
pub open spec fn result_view(r: Result<(), String>) -> Result<(), Seq<char>> {
    match r {
        Ok(()) => Ok(()),
        Err(e) => Err(e@),
    }
}

/// Which attempt comes next, given how the attempts so far ended: `doas`
/// (0) first, the direct call (1) only after `doas` failed, and none after
/// that.
pub open spec fn next_attempt(done: Seq<CommandOutcome>) -> Option<int> {
    if done.len() == 0 {
        Some(0)
    } else if done[0] is Succeeded {
        None
    } else if done.len() == 1 {
        Some(1)
    } else {
        None
    }
}

/// How shutting down ended, once no attempt is left.
pub open spec fn attempts_result(done: Seq<CommandOutcome>) -> Result<(), Seq<char>> {
    shutdown_result(done[0], if done.len() >= 2 { Some(done[1]) } else { None })
}

/// The outcome of shutting down, from how the attempts ended: `doas_shutdown`
/// first and, when that failed, `direct_shutdown`.
pub fn shutdown_pc_now(attempts: &Vec<CommandOutcome>) -> (r: Result<(), String>)
    requires
        attempts.len() >= 1,
        next_attempt(attempts@) is None,
    ensures
        result_view(r) == attempts_result(attempts@),
{
    let doas = &attempts[0];
    if doas.succeeded() {
        return Ok(());
    }
    let first = describe_failure(doas, "doas error: ", "doas failed to run /sbin/shutdown -p now", "Failed to run doas: ");
    let o = &attempts[1];
    if o.succeeded() {
        return Ok(());
    }
    let second = describe_failure(o, "shutdown error: ", "Direct /sbin/shutdown -p now failed", "Failed to run /sbin/shutdown: ");
    let mut msg = first;
    proof {
        reveal_strlit("\n");
    }
    msg.append("\n");
    msg.append(second.as_str());
    assert(msg@ =~= doas_error(attempts@[0]) + seq!['\n'] + direct_error(attempts@[1]));
    Err(msg)
}

/// What to do next in shutting down.
pub enum ShutdownStep {
    /// Run this and report how it ended.
    Run(ProgramCall),
    /// Shutting down is over, with this outcome.
    Finished(Result<(), String>),
}

/// Whether `c` is `doas_shutdown`.
pub open spec fn is_doas_shutdown(c: ProgramCall) -> bool {
    c.program@ == "doas"@ && c.args@.map_values(|a: &str| a@) == seq!["/sbin/shutdown"@, "-p"@, "now"@]
}

/// Whether `c` is `direct_shutdown`.
pub open spec fn is_direct_shutdown(c: ProgramCall) -> bool {
    c.program@ == "/sbin/shutdown"@ && c.args@.map_values(|a: &str| a@) == seq!["-p"@, "now"@]
}

/// The next step in shutting down, given how the attempts so far ended.
pub fn shutdown_step(done: &Vec<CommandOutcome>) -> (r: ShutdownStep)
    ensures
        next_attempt(done@) == Some(0int) ==> (r matches ShutdownStep::Run(c) && is_doas_shutdown(c)),
        next_attempt(done@) == Some(1int) ==> (r matches ShutdownStep::Run(c) && is_direct_shutdown(c)),
        next_attempt(done@) is None ==> (r matches ShutdownStep::Finished(x) && result_view(x) == attempts_result(done@)),
{
    if done.len() == 0 {
        ShutdownStep::Run(doas_shutdown())
    } else if done[0].succeeded() {
        ShutdownStep::Finished(shutdown_pc_now(done))
    } else if done.len() == 1 {
        ShutdownStep::Run(direct_shutdown())
    } else {
        ShutdownStep::Finished(shutdown_pc_now(done))
    }
}

/// The text of an optional string.
pub open spec fn opt_view(s: Option<String>) -> Option<Seq<char>> {
    match s {
        Some(x) => Some(x@),
        None => None,
    }
}

/// `[name]` unless `name` is the terminal named by `$TERMINAL`.
pub open spec fn unless_env(name: Seq<char>, term_env: Option<Seq<char>>) -> Seq<Seq<char>> {
    if term_env == Some(name) {
        seq![]
    } else {
        seq![name]
    }
}

/// The terminals to try, in order: Sakura; then `$TERMINAL` if set and not
/// Sakura; then xterm, konsole, xfce4-terminal and gnome-terminal, without
/// the one `$TERMINAL` already named.
pub open spec fn terminal_order(term_env: Option<Seq<char>>) -> Seq<Seq<char>> {
    let env_part = match term_env {
        Some(t) => if t == "sakura"@ { seq![] } else { seq![t] },
        None => seq![],
    };
    seq!["sakura"@] + env_part + unless_env("xterm"@, term_env) + unless_env("konsole"@, term_env)
        + unless_env("xfce4-terminal"@, term_env) + unless_env("gnome-terminal"@, term_env)
}

/// Strings, as texts.
pub open spec fn texts(v: Seq<String>) -> Seq<Seq<char>> {
    v.map_values(|s: String| s@)
}

fn push_unless_env(v: &mut Vec<String>, name: &str, term_env: &Option<String>)
    ensures
        texts(final(v)@) == texts(old(v)@) + unless_env(name@, opt_view(*term_env)),
{
    let skip = match term_env {
        Some(t) => text_eq(t.as_str(), name),
        None => false,
    };
    if !skip {
        v.push(String::from_str(name));
    }
    assert(texts(final(v)@) =~= texts(old(v)@) + unless_env(name@, opt_view(*term_env)));
}

/// The terminals to try, in order, given `$TERMINAL`.
pub fn terminal_candidates(term_env: Option<String>) -> (r: Vec<String>)
    ensures
        texts(r@) == terminal_order(opt_view(term_env)),
{
    let mut r: Vec<String> = Vec::new();
    r.push(String::from_str("sakura"));
    match &term_env {
        Some(t) => {
            if !text_eq(t.as_str(), "sakura") {
                r.push(t.clone());
            }
        },
        None => {},
    }
    assert(texts(r@) =~= seq!["sakura"@] + match opt_view(term_env) {
        Some(t) => if t == "sakura"@ { seq![] } else { seq![t] },
        None => seq![],
    });
    push_unless_env(&mut r, "xterm", &term_env);
    push_unless_env(&mut r, "konsole", &term_env);
    push_unless_env(&mut r, "xfce4-terminal", &term_env);
    push_unless_env(&mut r, "gnome-terminal", &term_env);
    r
}

/// The arguments a terminal gets to run `cmd`: `-e` and then `cmd`.
pub fn spawn_term_args(cmd: &Vec<String>) -> (r: Vec<String>)
    ensures
        texts(r@) == seq!["-e"@] + texts(cmd@),
{
    let mut r: Vec<String> = Vec::new();
    r.push(String::from_str("-e"));
    let mut i: usize = 0;
    while i < cmd.len()
        invariant
            i <= cmd.len(),
            texts(r@) == seq!["-e"@] + texts(cmd@.take(i as int)),
        decreases cmd.len() - i,
    {
        let ghost before = r@;
        r.push(cmd[i].clone());
        assert(texts(r@) =~= texts(before).push(cmd@[i as int]@));
        assert(texts(cmd@.take(i + 1)) =~= texts(cmd@.take(i as int)).push(cmd@[i as int]@));
        assert(texts(r@) =~= seq!["-e"@] + texts(cmd@.take(i + 1)));
        i = i + 1;
    }
    assert(cmd@.take(cmd.len() as int) =~= cmd@);
    r
}

/// How to run a command in a terminal: the terminals to try in order, each
/// started with `-e` and the command; if none starts, the command itself.
pub struct TerminalPlan {
    pub terminals: Vec<String>,
    pub command: Vec<String>,
}

/// The next program to start in carrying out a terminal plan, after
/// `failures` starts failed and with `started` telling whether the last one
/// started: each terminal in turn with `-e` and the command, until one
/// starts; if none does, the command itself; after that, or once a start
/// succeeded, nothing.
pub open spec fn spawn_attempt(terminals: Seq<Seq<char>>, command: Seq<Seq<char>>, failures: int, started: bool) -> Option<(Seq<char>, Seq<Seq<char>>)> {
    if started {
        None
    } else if 0 <= failures < terminals.len() {
        Some((terminals[failures], seq!["-e"@] + command))
    } else if failures == terminals.len() && command.len() > 0 {
        Some((command[0], command.drop_first()))
    } else {
        None
    }
}

/// A program to start, with its arguments.
pub struct Spawn {
    pub program: String,
    pub args: Vec<String>,
}

/// The next program to start in carrying out `plan`.
pub fn next_spawn(plan: &TerminalPlan, failures: usize, started: bool) -> (r: Option<Spawn>)
    ensures
        r is Some <==> spawn_attempt(texts(plan.terminals@), texts(plan.command@), failures as int, started) is Some,
        r matches Some(sp) ==> spawn_attempt(texts(plan.terminals@), texts(plan.command@), failures as int, started)
            == Some((sp.program@, texts(sp.args@))),
{
    if started {
        return None;
    }
    if failures < plan.terminals.len() {
        let program = plan.terminals[failures].clone();
        let args = spawn_term_args(&plan.command);
        return Some(Spawn { program, args });
    }
    if failures == plan.terminals.len() && plan.command.len() > 0 {
        let program = plan.command[0].clone();
        let mut args: Vec<String> = Vec::new();
        let mut i: usize = 1;
        while i < plan.command.len()
            invariant
                1 <= i <= plan.command.len(),
                texts(args@) == texts(plan.command@).subrange(1, i as int),
            decreases plan.command.len() - i,
        {
            let ghost before = args@;
            args.push(plan.command[i].clone());
            assert(texts(args@) =~= texts(before).push(plan.command@[i as int]@));
            assert(texts(args@) =~= texts(plan.command@).subrange(1, i + 1));
            i = i + 1;
        }
        assert(texts(plan.command@).drop_first() =~= texts(plan.command@).subrange(1, plan.command.len() as int));
        return Some(Spawn { program, args });
    }
    None
}

/// Running `cmd` in a terminal, given `$TERMINAL`.
pub fn spawn_in_terminal(cmd: Vec<String>, term_env: Option<String>) -> (r: TerminalPlan)
    ensures
        texts(r.terminals@) == terminal_order(opt_view(term_env)),
        r.command@ == cmd@,
{
    TerminalPlan { terminals: terminal_candidates(term_env), command: cmd }
}

/// A shell in a terminal: `$SHELL`, or `/bin/ksh` when it is not set.
pub fn open_cmd_terminal(shell_env: Option<String>, term_env: Option<String>) -> (r: TerminalPlan)
    ensures
        texts(r.terminals@) == terminal_order(opt_view(term_env)),
        texts(r.command@) == seq![match opt_view(shell_env) { Some(s) => s, None => "/bin/ksh"@ }],
{
    let shell = match shell_env {
        Some(s) => s,
        None => String::from_str("/bin/ksh"),
    };
    let mut cmd: Vec<String> = Vec::new();
    cmd.push(shell);
    let r = spawn_in_terminal(cmd, term_env);
    assert(texts(r.command@) =~= seq![match opt_view(shell_env) { Some(s) => s, None => "/bin/ksh"@ }]);
    r
}

/// `top` in a terminal.
pub fn open_top_terminal(term_env: Option<String>) -> (r: TerminalPlan)
    ensures
        texts(r.terminals@) == terminal_order(opt_view(term_env)),
        texts(r.command@) == seq!["top"@],
{
    let mut cmd: Vec<String> = Vec::new();
    cmd.push(String::from_str("top"));
    let r = spawn_in_terminal(cmd, term_env);
    assert(texts(r.command@) =~= seq!["top"@]);
    r
}

/// Outside work that a step of the launcher asks for.
#[derive(Clone, Copy, PartialEq, Eq, Structural, Debug)]
pub enum Effect {
    /// A shell in a terminal (`open_cmd_terminal`).
    OpenCommandTerminal,
    /// `top` in a terminal (`open_top_terminal`).
    OpenTopTerminal,
    /// Open `SEARCH_URL` in the web browser.
    OpenSearch,
}

/// The launcher's state, as values.
pub struct LauncherModel {
    pub clock_mode: ClockMode,
    pub clock_tile_text: Seq<char>,
    pub window_title: Seq<char>,
    pub focus_index: int,
    pub show_help: bool,
    pub show_shutdown_confirm: bool,
    pub help_text: Seq<char>,
    /// The message box's text, while it is shown.
    pub system_message: Option<Seq<char>>,
}

/// The label of tile `idx`.
pub open spec fn tile_label_of(m: LauncherModel, idx: int) -> Seq<char> {
    if idx == 0 {
        "Halt"@
    } else if idx == 1 {
        "\u{1F5A5} CMD"@
    } else if idx == 2 {
        "\u{1F4CA} top"@
    } else if idx == 3 {
        "\u{1F310} WWW"@
    } else if idx == 4 {
        m.clock_tile_text
    } else {
        Seq::empty()
    }
}

/// Activating tile `idx`.
pub open spec fn action_step(m: LauncherModel, idx: int) -> (LauncherModel, Option<Effect>) {
    if idx == 0 {
        (LauncherModel { show_shutdown_confirm: true, ..m }, None)
    } else if idx == 1 {
        (m, Some(Effect::OpenCommandTerminal))
    } else if idx == 2 {
        (m, Some(Effect::OpenTopTerminal))
    } else if idx == 3 {
        (m, Some(Effect::OpenSearch))
    } else if idx == 4 {
        (LauncherModel { clock_mode: toggled_mode(m.clock_mode), ..m }, None)
    } else {
        (m, None)
    }
}

/// What a finished shutdown attempt leaves: on failure the question closes
/// and the error is shown; on success nothing changes.
pub open spec fn shutdown_done_step(m: LauncherModel, result: Result<(), Seq<char>>) -> LauncherModel {
    match result {
        Ok(()) => m,
        Err(e) => LauncherModel { system_message: Some(e), show_shutdown_confirm: false, ..m },
    }
}

/// The effects of an optional effect, as a sequence.
pub open spec fn effects_of(e: Option<Effect>) -> Seq<Effect> {
    match e {
        Some(x) => seq![x],
        None => seq![],
    }
}

/// Enter/Space: with the shutdown question open it has shut down (with
/// `result`), otherwise it activates the focused tile.
pub open spec fn enter_step(m: LauncherModel, result: Result<(), Seq<char>>) -> (LauncherModel, Seq<Effect>) {
    if m.show_shutdown_confirm {
        (shutdown_done_step(m, result), seq![])
    } else {
        (action_step(m, m.focus_index).0, effects_of(action_step(m, m.focus_index).1))
    }
}

/// Escape closes the message box, else the shutdown question, else the help.
pub open spec fn esc_step(m: LauncherModel) -> LauncherModel {
    if m.system_message is Some {
        LauncherModel { system_message: None, ..m }
    } else if m.show_shutdown_confirm {
        LauncherModel { show_shutdown_confirm: false, ..m }
    } else if m.show_help {
        LauncherModel { show_help: false, ..m }
    } else {
        m
    }
}

/// Whether one frame's keys shut down: Enter/Space while the shutdown
/// question is open.
pub open spec fn keys_shut_down(m: LauncherModel, keys: KeyPresses) -> bool {
    keys.enter_or_space && m.show_shutdown_confirm
}

/// One frame's keys, in the order the launcher takes them: navigation,
/// Enter/Space, Escape, F1. `result` is how the shutdown they asked for
/// ended, if they asked for one.
pub open spec fn key_step(m: LauncherModel, keys: KeyPresses, result: Result<(), Seq<char>>) -> (LauncherModel, Seq<Effect>) {
    let m1 = LauncherModel { focus_index: focus_after(m.focus_index, keys), ..m };
    let s2 = if keys.enter_or_space { enter_step(m1, result) } else { (m1, seq![]) };
    let m3 = if keys.esc { esc_step(s2.0) } else { s2.0 };
    let m4 = if keys.f1 { LauncherModel { show_help: !m3.show_help, ..m3 } } else { m3 };
    (m4, s2.1)
}

/// An optional result with its error as text; none counts as success.
pub open spec fn outcome_view(r: Option<Result<(), String>>) -> Result<(), Seq<char>> {
    match r {
        Some(x) => result_view(x),
        None => Ok(()),
    }
}

/// The launcher window's state.
pub struct DynamicLauncherApp {
    clock_mode: ClockMode,
    clock_tile_text: String,
    window_title: String,
    focus_index: usize,
    show_help: bool,
    show_shutdown_confirm: bool,
    help_text: String,
    system_message: Option<String>,
}

impl View for DynamicLauncherApp {
    type V = LauncherModel;

    closed spec fn view(&self) -> LauncherModel {
        LauncherModel {
            clock_mode: self.clock_mode,
            clock_tile_text: self.clock_tile_text@,
            window_title: self.window_title@,
            focus_index: self.focus_index as int,
            show_help: self.show_help,
            show_shutdown_confirm: self.show_shutdown_confirm,
            help_text: self.help_text@,
            system_message: opt_view(self.system_message),
        }
    }
}

impl DynamicLauncherApp {
    /// The focus always stands on a tile.
    #[verifier::type_invariant]
    closed spec fn focus_on_a_tile(self) -> bool {
        self.focus_index < TILE_COUNT
    }

    /// The state at start-up: the clock shows the time, the focus is on
    /// Halt, and no dialog or message is shown.
    pub fn new(clock_tile_text: String, window_title: String) -> (r: Self)
        ensures
            r@ == (LauncherModel {
                clock_mode: ClockMode::Time,
                clock_tile_text: clock_tile_text@,
                window_title: window_title@,
                focus_index: 0,
                show_help: false,
                show_shutdown_confirm: false,
                help_text: HELP_TEXT@,
                system_message: None,
            }),
    {
        DynamicLauncherApp {
            clock_mode: ClockMode::Time,
            clock_tile_text,
            window_title,
            focus_index: 0,
            show_help: false,
            show_shutdown_confirm: false,
            help_text: String::from_str(HELP_TEXT),
            system_message: None,
        }
    }

    pub fn clock_mode(&self) -> (r: ClockMode)
        ensures
            r == self@.clock_mode,
    {
        self.clock_mode
    }

    pub fn clock_tile_text(&self) -> (r: &str)
        ensures
            r@ == self@.clock_tile_text,
    {
        self.clock_tile_text.as_str()
    }

    pub fn window_title(&self) -> (r: &str)
        ensures
            r@ == self@.window_title,
    {
        self.window_title.as_str()
    }

    pub fn focus_index(&self) -> (r: usize)
        ensures
            r == self@.focus_index,
            r < TILE_COUNT,
    {
        proof {
            use_type_invariant(self);
        }
        self.focus_index
    }

    pub fn show_help(&self) -> (r: bool)
        ensures
            r == self@.show_help,
    {
        self.show_help
    }

    pub fn show_shutdown_confirm(&self) -> (r: bool)
        ensures
            r == self@.show_shutdown_confirm,
    {
        self.show_shutdown_confirm
    }

    pub fn help_text(&self) -> (r: &str)
        ensures
            r@ == self@.help_text,
    {
        self.help_text.as_str()
    }

    /// The message box's text, while it is shown.
    pub fn system_message(&self) -> (r: Option<&str>)
        ensures
            r is Some <==> self@.system_message is Some,
            r matches Some(t) ==> self@.system_message == Some(t@),
    {
        match &self.system_message {
            Some(m) => Some(m.as_str()),
            None => None,
        }
    }

    /// The label of tile `idx`; the clock tile shows the clock's text.
    pub fn tile_label(&self, idx: usize) -> (r: String)
        ensures
            r@ == tile_label_of(self@, idx as int),
    {
        match idx {
            0 => String::from_str("Halt"),
            1 => String::from_str("\u{1F5A5} CMD"),
            2 => String::from_str("\u{1F4CA} top"),
            3 => String::from_str("\u{1F310} WWW"),
            4 => self.clock_tile_text.clone(),
            _ => String::new(),
        }
    }

    /// Activating tile `idx` (a click, or Enter on the focused tile).
    pub fn handle_action(&mut self, idx: usize) -> (r: Option<Effect>)
        ensures
            (final(self)@, r) == action_step(old(self)@, idx as int),
    {
        proof {
            use_type_invariant(&*self);
        }
        match idx {
            0 => {
                self.show_shutdown_confirm = true;
                None
            },
            1 => Some(Effect::OpenCommandTerminal),
            2 => Some(Effect::OpenTopTerminal),
            3 => Some(Effect::OpenSearch),
            4 => {
                self.clock_mode = self.clock_mode.toggled();
                None
            },
            _ => None,
        }
    }

    /// A shutdown attempt ended with `result`.
    pub fn shutdown_finished(&mut self, result: Result<(), String>)
        ensures
            final(self)@ == shutdown_done_step(old(self)@, result_view(result)),
    {
        proof {
            use_type_invariant(&*self);
        }
        match result {
            Ok(()) => {},
            Err(e) => {
                self.show_shutdown_confirm = false;
                self.system_message = Some(e);
            },
        }
    }

    /// Whether this frame's keys shut down, so that the shutdown is to be
    /// attempted before `handle_keys` takes them.
    pub fn shutdown_requested(&self, keys: KeyPresses) -> (r: bool)
        ensures
            r == keys_shut_down(self@, keys),
    {
        keys.enter_or_space && self.show_shutdown_confirm
    }

    /// One frame's keys, with how the shutdown they asked for ended; the
    /// effects come in the order they are to be done.
    pub fn handle_keys(&mut self, keys: KeyPresses, shutdown: Option<Result<(), String>>) -> (r: Vec<Effect>)
        requires
            shutdown is Some <==> keys_shut_down(old(self)@, keys),
        ensures
            (final(self)@, r@) == key_step(old(self)@, keys, outcome_view(shutdown)),
    {
        proof {
            use_type_invariant(&*self);
        }
        let ghost m0 = self@;
        let mut effects: Vec<Effect> = Vec::new();
        self.focus_index = move_focus(self.focus_index, keys);
        let ghost m1 = self@;
        assert(m1 == (LauncherModel { focus_index: focus_after(m0.focus_index, keys), ..m0 }));
        if keys.enter_or_space {
            if self.show_shutdown_confirm {
                match shutdown {
                    Some(result) => self.shutdown_finished(result),
                    None => {},
                }
            } else {
                let idx = self.focus_index;
                match self.handle_action(idx) {
                    Some(e) => effects.push(e),
                    None => {},
                }
            }
        }
        let ghost m2 = self@;
        assert((m2, effects@) == (if keys.enter_or_space { enter_step(m1, outcome_view(shutdown)) } else { (m1, seq![]) }));
        if keys.esc {
            if self.system_message.is_some() {
                self.system_message = None;
            } else if self.show_shutdown_confirm {
                self.show_shutdown_confirm = false;
            } else if self.show_help {
                self.show_help = false;
            }
        }
        let ghost m3 = self@;
        assert(m3 == (if keys.esc { esc_step(m2) } else { m2 }));
        if keys.f1 {
            self.show_help = !self.show_help;
        }
        assert(effects@ =~= key_step(m0, keys, outcome_view(shutdown)).1);
        effects
    }

    /// Takes a new clock text and window title; tells whether the title
    /// changed (and so is to be sent to the window).
    pub fn refresh_clock(&mut self, clock_tile_text: String, window_title: String) -> (changed: bool)
        ensures
            changed == (old(self)@.window_title != window_title@),
            final(self)@ == (LauncherModel {
                clock_tile_text: clock_tile_text@,
                window_title: window_title@,
                ..old(self)@
            }),
    {
        proof {
            use_type_invariant(&*self);
        }
        self.clock_tile_text = clock_tile_text;
        if self.window_title != window_title {
            self.window_title = window_title;
            true
        } else {
            false
        }
    }

    /// The pointer rests on tile `idx`: the focus follows it.
    pub fn hover_tile(&mut self, idx: usize)
        requires
            idx < TILE_COUNT,
        ensures
            final(self)@ == (LauncherModel { focus_index: idx as int, ..old(self)@ }),
    {
        proof {
            use_type_invariant(&*self);
        }
        self.focus_index = idx;
    }

    /// The shutdown question's buttons: Yes has shut down (with `shutdown`),
    /// No closes the question.
    pub fn answer_shutdown_dialog(&mut self, yes: bool, no: bool, shutdown: Option<Result<(), String>>)
        requires
            shutdown is Some <==> yes,
        ensures
            final(self)@ == (if no {
                LauncherModel { show_shutdown_confirm: false, ..shutdown_done_step(old(self)@, outcome_view(shutdown)) }
            } else {
                shutdown_done_step(old(self)@, outcome_view(shutdown))
            }),
    {
        proof {
            use_type_invariant(&*self);
        }
        match shutdown {
            Some(result) => self.shutdown_finished(result),
            None => {},
        }
        if no {
            self.show_shutdown_confirm = false;
        }
    }

    /// The message box's OK button.
    pub fn dismiss_system_message(&mut self)
        ensures
            final(self)@ == (LauncherModel { system_message: None, ..old(self)@ }),
    {
        proof {
            use_type_invariant(&*self);
        }
        self.system_message = None;
    }

    /// The help window was opened or closed from the window itself.
    pub fn set_show_help(&mut self, open: bool)
        ensures
            final(self)@ == (LauncherModel { show_help: open, ..old(self)@ }),
    {
        proof {
            use_type_invariant(&*self);
        }
        self.show_help = open;
    }
}

/// The keys of a frame in which only F1 is pressed.
pub open spec fn f1_only() -> KeyPresses {
    KeyPresses { tab_or_right: false, left: false, enter_or_space: false, esc: false, f1: true }
}

/// Shutting down runs `doas` first, runs the direct call only after `doas`
/// failed, and runs nothing after that: at most two programs.
pub proof fn lemma_shutdown_attempt_order(first: CommandOutcome, second: CommandOutcome, more: Seq<CommandOutcome>)
    ensures
        next_attempt(Seq::empty()) == Some(0int),
        next_attempt(seq![first]) == (if first is Succeeded { None } else { Some(1int) }),
        next_attempt(seq![first, second] + more) is None,
{
}

/// Shutting down succeeds exactly when one of the two ways succeeded; when
/// both failed, the message holds both errors, the `doas` one first.
pub proof fn lemma_shutdown_result(doas: CommandOutcome, direct: CommandOutcome)
    ensures
        shutdown_result(doas, Some(direct)) is Ok <==> (doas is Succeeded || direct is Succeeded),
        !(doas is Succeeded) && !(direct is Succeeded) ==>
            shutdown_result(doas, Some(direct)) == Err::<(), Seq<char>>(doas_error(doas) + seq!['\n'] + direct_error(direct)),
        shutdown_result(doas, None) is Ok <==> doas is Succeeded,
{
}

/// What either part holds, the two parts together hold.
proof fn lemma_concat_contains(a: Seq<Seq<char>>, b: Seq<Seq<char>>, x: Seq<char>)
    requires
        a.contains(x) || b.contains(x),
    ensures
        (a + b).contains(x),
{
    if a.contains(x) {
        let i = choose|i: int| 0 <= i < a.len() && a[i] == x;
        assert((a + b)[i] == x);
    } else {
        let i = choose|i: int| 0 <= i < b.len() && b[i] == x;
        assert((a + b)[a.len() + i] == x);
    }
}

/// A common terminal is tried: through `$TERMINAL` when that names it,
/// in the common list otherwise.
proof fn lemma_common_terminal_tried(term_env: Option<Seq<char>>, n: Seq<char>)
    requires
        n != "sakura"@,
        n == "xterm"@ || n == "konsole"@ || n == "xfce4-terminal"@ || n == "gnome-terminal"@,
    ensures
        terminal_order(term_env).contains(n),
{
    let env_part = match term_env {
        Some(t) => if t == "sakura"@ { seq![] } else { seq![t] },
        None => seq![],
    };
    let head = seq!["sakura"@] + env_part;
    let ux = unless_env("xterm"@, term_env);
    let uk = unless_env("konsole"@, term_env);
    let uf = unless_env("xfce4-terminal"@, term_env);
    let ug = unless_env("gnome-terminal"@, term_env);
    if term_env == Some(n) {
        assert(env_part[0] == n);
        lemma_concat_contains(seq!["sakura"@], env_part, n);
        lemma_concat_contains(head, ux, n);
        lemma_concat_contains(head + ux, uk, n);
        lemma_concat_contains(head + ux + uk, uf, n);
        lemma_concat_contains(head + ux + uk + uf, ug, n);
    } else {
        if n == "xterm"@ {
            assert(ux[0] == n);
            lemma_concat_contains(head, ux, n);
        }
        if n == "konsole"@ {
            assert(uk[0] == n);
        }
        if n == "xterm"@ || n == "konsole"@ {
            lemma_concat_contains(head + ux, uk, n);
        }
        if n == "xfce4-terminal"@ {
            assert(uf[0] == n);
        }
        if n != "gnome-terminal"@ {
            lemma_concat_contains(head + ux + uk, uf, n);
        } else {
            assert(ug[0] == n);
        }
        lemma_concat_contains(head + ux + uk + uf, ug, n);
    }
}

/// No terminal is tried twice; Sakura is tried first; every common terminal
/// is tried, and so is `$TERMINAL` when it is set.
pub proof fn lemma_terminal_order(term_env: Option<Seq<char>>)
    ensures
        terminal_order(term_env).no_duplicates(),
        terminal_order(term_env)[0] == "sakura"@,
        terminal_order(term_env).contains("xterm"@),
        terminal_order(term_env).contains("konsole"@),
        terminal_order(term_env).contains("xfce4-terminal"@),
        terminal_order(term_env).contains("gnome-terminal"@),
        term_env matches Some(t) ==> terminal_order(term_env).contains(t),
{
    reveal_strlit("sakura");
    reveal_strlit("xterm");
    reveal_strlit("konsole");
    reveal_strlit("xfce4-terminal");
    reveal_strlit("gnome-terminal");
    let o = terminal_order(term_env);
    let names = seq!["xterm"@, "konsole"@, "xfce4-terminal"@, "gnome-terminal"@];
    assert("sakura"@.len() == 6 && "xterm"@.len() == 5 && "konsole"@.len() == 7);
    assert("xfce4-terminal"@.len() == 14 && "gnome-terminal"@.len() == 14);
    assert("xfce4-terminal"@[0] == 'x' && "gnome-terminal"@[0] == 'g');
    assert(names[0] != names[1] && names[0] != names[2] && names[0] != names[3]);
    assert(names[1] != names[2] && names[1] != names[3] && names[2] != names[3]);
    assert("sakura"@ != names[0] && "sakura"@ != names[1] && "sakura"@ != names[2] && "sakura"@ != names[3]);
    assert(o[0] == "sakura"@);
    assert forall|i: int, j: int| 0 <= i < o.len() && 0 <= j < o.len() && i != j implies o[i] != o[j] by {
        assert(o[i] == "sakura"@ || o[i] == term_env->0 || names.contains(o[i]));
    }
    if term_env is Some {
        let t = term_env->0;
        if t == "sakura"@ {
            assert(o[0] == t);
        } else {
            assert(o[1] == t);
        }
    }
    lemma_common_terminal_tried(term_env, "xterm"@);
    lemma_common_terminal_tried(term_env, "konsole"@);
    lemma_common_terminal_tried(term_env, "xfce4-terminal"@);
    lemma_common_terminal_tried(term_env, "gnome-terminal"@);
}

/// Carrying out a terminal plan starts each terminal at most once, in
/// order, stops after the first start that succeeds, and starts the command
/// itself only after every terminal failed, and then nothing more.
pub proof fn lemma_spawn_attempts(terminals: Seq<Seq<char>>, command: Seq<Seq<char>>, failures: int)
    requires
        0 <= failures,
    ensures
        spawn_attempt(terminals, command, failures, true) is None,
        failures < terminals.len() ==> spawn_attempt(terminals, command, failures, false)
            == Some((terminals[failures], seq!["-e"@] + command)),
        failures == terminals.len() && command.len() > 0 ==> spawn_attempt(terminals, command, failures, false)
            == Some((command[0], command.drop_first())),
        failures > terminals.len() ==> spawn_attempt(terminals, command, failures, false) is None,
{
}

/// The computer is shut down only from the open shutdown question:
/// activating a tile (Halt included) only opens the question.
pub proof fn lemma_shutdown_only_when_confirmed(m: LauncherModel, idx: int, keys: KeyPresses)
    ensures
        keys_shut_down(m, keys) ==> m.show_shutdown_confirm,
        idx == 0 ==> action_step(m, idx) == (LauncherModel { show_shutdown_confirm: true, ..m }, None::<Effect>),
{
}

/// Escape closes only the topmost open layer: the message box, else the
/// shutdown question, else the help; it never opens anything.
pub proof fn lemma_escape_closes_topmost(m: LauncherModel)
    ensures
        (m.system_message is Some) ==> esc_step(m) == (LauncherModel { system_message: None, ..m }),
        (m.system_message is None) && m.show_shutdown_confirm ==> esc_step(m) == (LauncherModel { show_shutdown_confirm: false, ..m }),
        (m.system_message is None) && !m.show_shutdown_confirm ==> !esc_step(m).show_help,
        esc_step(m).show_help ==> m.show_help,
        esc_step(m).show_shutdown_confirm ==> m.show_shutdown_confirm,
        (esc_step(m).system_message is Some) ==> (m.system_message is Some),
{
}

/// A failed shutdown closes the question and shows its error; the error
/// stays until Escape or OK dismisses it.
pub proof fn lemma_failed_shutdown_is_reported(m: LauncherModel, e: Seq<char>)
    ensures
        shutdown_done_step(m, Err(e)).system_message == Some(e),
        !shutdown_done_step(m, Err(e)).show_shutdown_confirm,
        shutdown_done_step(m, Ok(())) == m,
{
}

/// F1 pressed in two frames leaves the launcher as it was.
pub proof fn lemma_help_key_twice(m: LauncherModel)
    ensures
        key_step(key_step(m, f1_only(), Ok(())).0, f1_only(), Ok(())).0 == m,
        key_step(m, f1_only(), Ok(())).0.show_help == !m.show_help,
{
}

/// Clicking the clock tile twice leaves the launcher as it was.
pub proof fn lemma_clock_tile_twice(m: LauncherModel)
    ensures
        action_step(action_step(m, 4).0, 4).0 == m,
        action_step(m, 4).0.clock_mode != m.clock_mode,
{
}

/// Activating a tile that does not exist changes nothing and asks for
/// nothing.
pub proof fn lemma_no_such_tile(m: LauncherModel, idx: int)
    requires
        idx < 0 || idx >= TILE_COUNT,
    ensures
        action_step(m, idx) == (m, None::<Effect>),
{
}


/// Each tile asks for its own work and changes nothing else: CMD (1) opens
/// a terminal with a shell, top (2) one running `top`, WWW (3) the search
/// page; Halt (0) only opens the shutdown question.
pub proof fn lemma_tile_actions(m: LauncherModel)
    ensures
        tile_label_of(m, 1) == "\u{1F5A5} CMD"@,
        tile_label_of(m, 2) == "\u{1F4CA} top"@,
        action_step(m, 1) == (m, Some(Effect::OpenCommandTerminal)),
        action_step(m, 2) == (m, Some(Effect::OpenTopTerminal)),
        action_step(m, 3) == (m, Some(Effect::OpenSearch)),
        action_step(m, 0) == (LauncherModel { show_shutdown_confirm: true, ..m }, None::<Effect>),
{
}

/// The keys of a frame in which only Enter or Space is pressed.
pub open spec fn enter_only() -> KeyPresses {
    KeyPresses { tab_or_right: false, left: false, enter_or_space: true, esc: false, f1: false }
}

/// Enter or Space shuts down exactly when the shutdown question is open;
/// with no question open it does exactly what a click on the focused tile
/// does.
pub proof fn lemma_enter_answers_or_activates(m: LauncherModel, result: Result<(), Seq<char>>)
    ensures
        keys_shut_down(m, enter_only()) == m.show_shutdown_confirm,
        m.show_shutdown_confirm ==> key_step(m, enter_only(), result) == (shutdown_done_step(m, result), Seq::<Effect>::empty()),
        !m.show_shutdown_confirm ==> key_step(m, enter_only(), result)
            == (action_step(m, m.focus_index).0, effects_of(action_step(m, m.focus_index).1)),
{
    let m1 = LauncherModel { focus_index: focus_after(m.focus_index, enter_only()), ..m };
    assert(m1 == m);
}

} // verus!
