use dynamic_launcher::clock::ClockMode;
use dynamic_launcher::openbsd::{
    direct_shutdown, doas_shutdown, error_output_report, open_cmd_terminal, open_top_terminal, next_spawn, shutdown_pc_now, shutdown_step, spawn_in_terminal, ShutdownStep, TerminalPlan,
    spawn_term_args, terminal_candidates, CommandOutcome, DynamicLauncherApp, Effect, HELP_TEXT,
};
use dynamic_launcher::strip::KeyPresses;

fn press(tab_or_right: bool, left: bool, enter_or_space: bool, esc: bool, f1: bool) -> KeyPresses {
    KeyPresses { tab_or_right, left, enter_or_space, esc, f1 }
}

fn strings(v: &[&str]) -> Vec<String> {
    v.iter().map(|x| x.to_string()).collect()
}

fn failed(stderr: &str) -> CommandOutcome {
    CommandOutcome::Failed { stderr: stderr.as_bytes().to_vec() }
}

#[test]
fn shutdown_commands() {
    let d = doas_shutdown();
    assert_eq!(d.program, "doas");
    assert_eq!(d.args, vec!["/sbin/shutdown", "-p", "now"]);
    let s = direct_shutdown();
    assert_eq!(s.program, "/sbin/shutdown");
    assert_eq!(s.args, vec!["-p", "now"]);
}

#[test]
fn shutdown_succeeds_if_either_way_does() {
    assert_eq!(shutdown_pc_now(&vec![CommandOutcome::Succeeded]), Ok(()));
    assert_eq!(shutdown_pc_now(&vec![failed("denied"), CommandOutcome::Succeeded]), Ok(()));
}

#[test]
fn shutdown_errors_are_combined() {
    assert_eq!(
        shutdown_pc_now(&vec![failed("doas: Operation not permitted\n"), failed("  shutdown: NOT super-user \n")]),
        Err("doas error: doas: Operation not permitted\nshutdown error: shutdown: NOT super-user".to_string())
    );
    assert_eq!(
        shutdown_pc_now(&vec![failed(" \n"), failed("")]),
        Err("doas failed to run /sbin/shutdown -p now\nDirect /sbin/shutdown -p now failed".to_string())
    );
    assert_eq!(
        shutdown_pc_now(&vec![
            CommandOutcome::NotStarted { error: "No such file or directory (os error 2)".to_string() },
            CommandOutcome::NotStarted { error: "Permission denied (os error 13)".to_string() },
        ]),
        Err("Failed to run doas: No such file or directory (os error 2)\nFailed to run /sbin/shutdown: Permission denied (os error 13)".to_string())
    );
}

#[test]
fn outcomes_know_success() {
    assert!(CommandOutcome::Succeeded.succeeded());
    assert!(!failed("x").succeeded());
}

#[test]
fn terminals_in_order_without_repeats() {
    assert_eq!(terminal_candidates(None), strings(&["sakura", "xterm", "konsole", "xfce4-terminal", "gnome-terminal"]));
    assert_eq!(
        terminal_candidates(Some("alacritty".to_string())),
        strings(&["sakura", "alacritty", "xterm", "konsole", "xfce4-terminal", "gnome-terminal"])
    );
    assert_eq!(
        terminal_candidates(Some("konsole".to_string())),
        strings(&["sakura", "konsole", "xterm", "xfce4-terminal", "gnome-terminal"])
    );
    assert_eq!(
        terminal_candidates(Some("sakura".to_string())),
        strings(&["sakura", "xterm", "konsole", "xfce4-terminal", "gnome-terminal"])
    );
}

#[test]
fn terminal_plans() {
    assert_eq!(spawn_term_args(&strings(&["top"])), strings(&["-e", "top"]));
    assert_eq!(spawn_term_args(&strings(&["/bin/sh", "-l"])), strings(&["-e", "/bin/sh", "-l"]));
    let p = open_cmd_terminal(None, None);
    assert_eq!(p.command, strings(&["/bin/ksh"]));
    let p = open_cmd_terminal(Some("/usr/local/bin/bash".to_string()), Some("xterm".to_string()));
    assert_eq!(p.command, strings(&["/usr/local/bin/bash"]));
    assert_eq!(p.terminals, strings(&["sakura", "xterm", "konsole", "xfce4-terminal", "gnome-terminal"]));
    let t = open_top_terminal(None);
    assert_eq!(t.command, strings(&["top"]));
    let q = spawn_in_terminal(strings(&["ls"]), None);
    assert_eq!(q.command, strings(&["ls"]));
    assert_eq!(q.terminals.len(), 5);
}

#[test]
fn start_up_and_tiles() {
    let mut a = DynamicLauncherApp::new("10:00:00".to_string(), "title".to_string());
    assert_eq!(a.help_text(), HELP_TEXT);
    assert_eq!(a.system_message(), None);
    assert_eq!(a.tile_label(1), "\u{1F5A5} CMD");
    assert_eq!(a.tile_label(2), "\u{1F4CA} top");
    assert_eq!(a.tile_label(3), "\u{1F310} WWW");
    assert_eq!(a.tile_label(4), "10:00:00");
    assert_eq!(a.tile_label(9), "");
    assert_eq!(a.handle_action(1), Some(Effect::OpenCommandTerminal));
    assert_eq!(a.handle_action(2), Some(Effect::OpenTopTerminal));
    assert_eq!(a.handle_action(3), Some(Effect::OpenSearch));
    assert_eq!(a.handle_action(4), None);
    assert_eq!(a.clock_mode(), ClockMode::Date);
    assert_eq!(a.handle_action(0), None);
    assert!(a.show_shutdown_confirm());
}

#[test]
fn failed_shutdown_shows_a_message() {
    let mut a = DynamicLauncherApp::new("c".to_string(), "t".to_string());
    let enter = press(false, false, true, false, false);
    assert!(!a.shutdown_requested(enter));
    assert!(a.handle_keys(enter, None).is_empty());
    assert!(a.shutdown_requested(enter));
    assert!(a.handle_keys(enter, Some(Err("doas error: no".to_string()))).is_empty());
    assert_eq!(a.system_message(), Some("doas error: no"));
    assert!(!a.show_shutdown_confirm());
    a.handle_keys(press(false, false, false, true, false), None);
    assert_eq!(a.system_message(), None);
}

#[test]
fn successful_shutdown_changes_nothing() {
    let mut a = DynamicLauncherApp::new("c".to_string(), "t".to_string());
    a.handle_action(0);
    a.shutdown_finished(Ok(()));
    assert!(a.show_shutdown_confirm());
    assert_eq!(a.system_message(), None);
}

#[test]
fn escape_order_message_question_help() {
    let mut a = DynamicLauncherApp::new("c".to_string(), "t".to_string());
    let esc = press(false, false, false, true, false);
    a.set_show_help(true);
    a.handle_action(0);
    a.shutdown_finished(Err("e".to_string()));
    a.handle_action(0);
    a.handle_keys(esc, None);
    assert_eq!(a.system_message(), None);
    assert!(a.show_shutdown_confirm() && a.show_help());
    a.handle_keys(esc, None);
    assert!(!a.show_shutdown_confirm() && a.show_help());
    a.handle_keys(esc, None);
    assert!(!a.show_help());
}

#[test]
fn dialog_buttons() {
    let mut a = DynamicLauncherApp::new("c".to_string(), "t".to_string());
    a.handle_action(0);
    a.answer_shutdown_dialog(true, false, Some(Err("x".to_string())));
    assert_eq!(a.system_message(), Some("x"));
    assert!(!a.show_shutdown_confirm());
    a.dismiss_system_message();
    assert_eq!(a.system_message(), None);
    a.handle_action(0);
    a.answer_shutdown_dialog(false, true, None);
    assert!(!a.show_shutdown_confirm());
}

#[test]
fn navigation_hover_and_help() {
    let mut a = DynamicLauncherApp::new("c".to_string(), "t".to_string());
    a.handle_keys(press(false, true, false, false, true), None);
    assert_eq!(a.focus_index(), 4);
    assert!(a.show_help());
    a.hover_tile(2);
    assert_eq!(a.handle_keys(press(false, false, true, false, true), None), vec![Effect::OpenTopTerminal]);
    assert!(!a.show_help());
    assert!(a.refresh_clock("d".to_string(), "t2".to_string()));
    assert!(!a.refresh_clock("e".to_string(), "t2".to_string()));
    assert_eq!(a.clock_tile_text(), "e");
    assert_eq!(a.window_title(), "t2");
}

#[test]
fn error_output_is_trimmed_or_replaced() {
    assert_eq!(error_output_report("  denied \n", "doas error: ", "silent"), "doas error: denied");
    assert_eq!(error_output_report(" \t\n", "doas error: ", "silent"), "silent");
    assert_eq!(error_output_report("\u{3000}x\u{a0}", "p: ", "s"), "p: x");
}

#[test]
fn undecodable_error_output_is_replaced() {
    assert_eq!(
        shutdown_pc_now(&vec![
            CommandOutcome::Failed { stderr: vec![0x66, 0xFF, 0x67] },
            CommandOutcome::NotStarted { error: "e".to_string() },
        ]),
        Err("doas error: f\u{FFFD}g\nFailed to run /sbin/shutdown: e".to_string())
    );
}

fn step_call(done: &Vec<CommandOutcome>) -> Option<(&'static str, Vec<&'static str>)> {
    match shutdown_step(done) {
        ShutdownStep::Run(c) => Some((c.program, c.args)),
        ShutdownStep::Finished(_) => None,
    }
}

#[test]
fn shutdown_runs_doas_first_and_direct_only_after_it_failed() {
    assert_eq!(step_call(&vec![]), Some(("doas", vec!["/sbin/shutdown", "-p", "now"])));
    assert_eq!(step_call(&vec![failed("no")]), Some(("/sbin/shutdown", vec!["-p", "now"])));
    match shutdown_step(&vec![CommandOutcome::Succeeded]) {
        ShutdownStep::Finished(r) => assert_eq!(r, Ok(())),
        ShutdownStep::Run(_) => panic!("nothing is run after doas succeeded"),
    }
    match shutdown_step(&vec![failed("a"), failed("b")]) {
        ShutdownStep::Finished(r) => assert_eq!(r, Err("doas error: a\nshutdown error: b".to_string())),
        ShutdownStep::Run(_) => panic!("nothing is run after two attempts"),
    }
}

fn attempts(plan: &TerminalPlan, starts: &[bool]) -> Vec<(String, Vec<String>)> {
    let mut failures = 0;
    let mut started = false;
    let mut out = Vec::new();
    let mut k = 0;
    while let Some(sp) = next_spawn(plan, failures, started) {
        out.push((sp.program, sp.args));
        if starts[k] {
            started = true;
        } else {
            failures += 1;
        }
        k += 1;
    }
    out
}

#[test]
fn terminals_are_tried_until_one_starts() {
    let plan = open_top_terminal(Some("xterm".to_string()));
    let all_fail = attempts(&plan, &[false; 10]);
    let e_top = strings(&["-e", "top"]);
    assert_eq!(
        all_fail,
        vec![
            ("sakura".to_string(), e_top.clone()),
            ("xterm".to_string(), e_top.clone()),
            ("konsole".to_string(), e_top.clone()),
            ("xfce4-terminal".to_string(), e_top.clone()),
            ("gnome-terminal".to_string(), e_top.clone()),
            ("top".to_string(), Vec::new()),
        ]
    );
    let shell = open_cmd_terminal(None, None);
    assert_eq!(attempts(&shell, &[true]), vec![("sakura".to_string(), strings(&["-e", "/bin/ksh"]))]);
    assert_eq!(attempts(&shell, &[false, false, true]).len(), 3);
    let args = spawn_in_terminal(strings(&["ls", "-l"]), None);
    assert_eq!(attempts(&args, &[false; 10]).last().unwrap(), &("ls".to_string(), strings(&["-l"])));
}
