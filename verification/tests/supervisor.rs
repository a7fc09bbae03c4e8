use runcheck::decimal::{i32_decimal, u32_decimal};
use runcheck::pump::{format_line, pump_lines, render_message, LineMessage};
use runcheck::race::{race_step, RaceOutcome};
use runcheck::report::render_status_line;
use runcheck::role::{role_word_str, Role, StreamKind};
use runcheck::shell::{kill_plan, shell_invocation, KillPlan};
use runcheck::status::{classify_status, is_success_report, report_exit_code, ProcessStatus, StatusReport};
use runcheck::teardown::{supervisor_exit_code, Teardown};

fn exited(code: i32) -> ProcessStatus {
    ProcessStatus { code: Some(code), signal: None }
}

fn signaled(signal: i32) -> ProcessStatus {
    ProcessStatus { code: None, signal: Some(signal) }
}

fn complete_teardown() -> Teardown {
    let mut t = Teardown::begin();
    t.record_killed(Role::Run);
    t.record_killed(Role::Check);
    t.record_pump_joined(Role::Run, StreamKind::Stdout);
    t.record_pump_joined(Role::Run, StreamKind::Stderr);
    t.record_pump_joined(Role::Check, StreamKind::Stdout);
    t.record_pump_joined(Role::Check, StreamKind::Stderr);
    t.record_senders_released();
    t.record_printers_joined();
    t
}

#[test]
fn check_failure_settles_for_check() {
    let outcome = race_step(Some(exited(3)), None);
    assert_eq!(
        outcome,
        RaceOutcome::Settled { role: Role::Check, report: StatusReport::Coded(3) }
    );
}

#[test]
fn check_failure_beats_simultaneous_run_exit() {
    let outcome = race_step(Some(exited(2)), Some(exited(7)));
    assert_eq!(
        outcome,
        RaceOutcome::Settled { role: Role::Check, report: StatusReport::Coded(2) }
    );
}

#[test]
fn check_success_is_not_terminal() {
    let outcome = race_step(Some(exited(0)), None);
    assert_eq!(outcome, RaceOutcome::Pending { check_succeeded: true });
}

#[test]
fn nothing_observed_stays_pending() {
    let outcome = race_step(None, None);
    assert_eq!(outcome, RaceOutcome::Pending { check_succeeded: false });
}

#[test]
fn run_exit_settles_after_check_succeeded() {
    let outcome = race_step(Some(exited(0)), Some(exited(0)));
    assert_eq!(
        outcome,
        RaceOutcome::Settled { role: Role::Run, report: StatusReport::Coded(0) }
    );
}

#[test]
fn run_zero_exit_settles_for_run() {
    let outcome = race_step(None, Some(exited(0)));
    assert_eq!(
        outcome,
        RaceOutcome::Settled { role: Role::Run, report: StatusReport::Coded(0) }
    );
}

#[test]
fn run_nonzero_exit_settles_for_run() {
    let outcome = race_step(None, Some(exited(7)));
    assert_eq!(
        outcome,
        RaceOutcome::Settled { role: Role::Run, report: StatusReport::Coded(7) }
    );
}

#[test]
fn signal_death_of_check_settles() {
    let outcome = race_step(Some(signaled(9)), None);
    assert_eq!(
        outcome,
        RaceOutcome::Settled { role: Role::Check, report: StatusReport::Signaled(9) }
    );
}

#[test]
fn classification_prefers_code_over_signal() {
    assert_eq!(classify_status(&exited(5)), StatusReport::Coded(5));
    assert_eq!(classify_status(&signaled(15)), StatusReport::Signaled(15));
    assert_eq!(
        classify_status(&ProcessStatus { code: Some(5), signal: Some(9) }),
        StatusReport::Coded(5)
    );
    assert_eq!(
        classify_status(&ProcessStatus { code: None, signal: None }),
        StatusReport::Unknown
    );
}

#[test]
fn exit_code_keeps_a_normal_code() {
    assert_eq!(report_exit_code(&StatusReport::Coded(0)), 0);
    assert_eq!(report_exit_code(&StatusReport::Coded(3)), 3);
    assert_eq!(report_exit_code(&StatusReport::Coded(-1)), -1);
}

#[test]
fn exit_code_converts_a_signal() {
    assert_eq!(report_exit_code(&StatusReport::Signaled(9)), 137);
    assert_eq!(report_exit_code(&StatusReport::Signaled(15)), 143);
}

#[test]
fn exit_code_falls_back_to_sentinel() {
    assert_eq!(report_exit_code(&StatusReport::Unknown), 1);
}

#[test]
fn only_zero_coded_exit_is_success() {
    assert!(is_success_report(&StatusReport::Coded(0)));
    assert!(!is_success_report(&StatusReport::Coded(1)));
    assert!(!is_success_report(&StatusReport::Signaled(0)));
    assert!(!is_success_report(&StatusReport::Unknown));
}

#[test]
fn scenario_run_echoes_while_check_succeeds() {
    // run prints a line and keeps going; check exits 0.
    let line = format_line(Role::Run, "hello");
    assert!(line.ends_with("hello"));
    let outcome = race_step(Some(exited(0)), None);
    assert_eq!(outcome, RaceOutcome::Pending { check_succeeded: true });
    // the race stays open until run itself exits, here with code 0.
    let outcome = race_step(Some(exited(0)), Some(exited(0)));
    assert_eq!(
        outcome,
        RaceOutcome::Settled { role: Role::Run, report: StatusReport::Coded(0) }
    );
    assert_eq!(supervisor_exit_code(&outcome, &complete_teardown()), 0);
}

#[test]
fn scenario_check_fails_while_run_sleeps() {
    // run is still sleeping; check exits 3: the supervisor adopts code 3.
    let outcome = race_step(Some(exited(3)), None);
    assert_eq!(
        outcome,
        RaceOutcome::Settled { role: Role::Check, report: StatusReport::Coded(3) }
    );
    assert_eq!(supervisor_exit_code(&outcome, &complete_teardown()), 3);
}

#[test]
fn scenario_run_exits_while_check_sleeps() {
    // check is still sleeping; run exits 7: the supervisor adopts code 7.
    let outcome = race_step(None, Some(exited(7)));
    assert_eq!(
        outcome,
        RaceOutcome::Settled { role: Role::Run, report: StatusReport::Coded(7) }
    );
    assert_eq!(supervisor_exit_code(&outcome, &complete_teardown()), 7);
}

#[test]
fn lines_are_prefixed_with_their_role() {
    assert_eq!(format_line(Role::Run, "hello"), "[RUN] hello");
    assert_eq!(format_line(Role::Check, "warning: x"), "[CHECK] warning: x");
    assert_eq!(format_line(Role::Run, ""), "[RUN] ");
}

#[test]
fn pumped_lines_keep_order_and_multiplicity() {
    let lines = vec![
        String::from("one"),
        String::from("two"),
        String::from("two"),
        String::from("three"),
    ];
    let msgs = pump_lines(Role::Run, StreamKind::Stderr, &lines);
    assert_eq!(msgs.len(), 4);
    for (msg, line) in msgs.iter().zip(lines.iter()) {
        assert_eq!(msg.role, Role::Run);
        assert_eq!(msg.stream, StreamKind::Stderr);
        assert_eq!(&msg.text, line);
    }
    assert_eq!(render_message(&msgs[1]), "[RUN] two");
    assert_eq!(render_message(&msgs[2]), "[RUN] two");
}

#[test]
fn rendered_message_keeps_text_unmodified() {
    let msg = LineMessage {
        role: Role::Check,
        stream: StreamKind::Stdout,
        text: String::from("  spaced  text  "),
    };
    assert_eq!(render_message(&msg), "[CHECK]   spaced  text  ");
}

#[test]
fn posix_shell_invocation_uses_dash_c() {
    let inv = shell_invocation(false, None, "echo hello && sleep 5");
    assert_eq!(inv.program, "/bin/sh");
    assert_eq!(inv.args, vec!["-c".to_string(), "echo hello && sleep 5".to_string()]);
}

#[test]
fn shell_override_is_respected() {
    let inv = shell_invocation(false, Some(String::from("/bin/bash")), "exit 0");
    assert_eq!(inv.program, "/bin/bash");
    let inv = shell_invocation(true, Some(String::from("powershell.exe")), "exit 0");
    assert_eq!(inv.program, "powershell.exe");
}

#[test]
fn windows_shell_invocation_uses_cmd_style() {
    let inv = shell_invocation(true, None, "dir");
    assert_eq!(inv.program, "cmd.exe");
    assert_eq!(
        inv.args,
        vec!["/d".to_string(), "/s".to_string(), "/c".to_string(), "dir".to_string()]
    );
}

#[test]
fn posix_kill_is_direct() {
    assert_eq!(kill_plan(false, 12345), KillPlan::DirectKill);
}

#[test]
fn windows_kill_goes_through_the_tree_utility() {
    let plan = kill_plan(true, 4242);
    match plan {
        KillPlan::KillTree { program, args } => {
            assert_eq!(program, "taskkill");
            assert_eq!(
                args,
                vec!["/F".to_string(), "/T".to_string(), "/PID".to_string(), "4242".to_string()]
            );
        }
        KillPlan::DirectKill => panic!("expected a process-tree kill on windows"),
    }
}

#[test]
fn decimal_rendering_is_exact() {
    assert_eq!(u32_decimal(0), "0");
    assert_eq!(u32_decimal(7), "7");
    assert_eq!(u32_decimal(10), "10");
    assert_eq!(u32_decimal(137), "137");
    assert_eq!(u32_decimal(u32::MAX), "4294967295");
    assert_eq!(i32_decimal(0), "0");
    assert_eq!(i32_decimal(143), "143");
    assert_eq!(i32_decimal(-5), "-5");
    assert_eq!(i32_decimal(i32::MIN), "-2147483648");
}

#[test]
fn status_lines_identify_command_and_outcome() {
    assert_eq!(
        render_status_line(Role::Check, &StatusReport::Coded(3)),
        "check command exited with code: 3"
    );
    assert_eq!(
        render_status_line(Role::Run, &StatusReport::Coded(0)),
        "run command exited with code: 0"
    );
    assert_eq!(
        render_status_line(Role::Run, &StatusReport::Signaled(9)),
        "run command exited with signal: 9"
    );
    assert_eq!(
        render_status_line(Role::Check, &StatusReport::Unknown),
        "error attempting to get exit code or signal from check command"
    );
}

#[test]
fn role_words_match_the_flags() {
    assert_eq!(role_word_str(Role::Run), "run");
    assert_eq!(role_word_str(Role::Check), "check");
}

#[test]
fn teardown_completes_only_after_every_step() {
    let mut t = Teardown::begin();
    assert!(!t.is_complete());
    t.record_killed(Role::Check);
    t.record_killed(Role::Run);
    assert!(!t.is_complete());
    t.record_pump_joined(Role::Run, StreamKind::Stdout);
    t.record_pump_joined(Role::Run, StreamKind::Stderr);
    t.record_pump_joined(Role::Check, StreamKind::Stdout);
    assert!(!t.is_complete());
    t.record_pump_joined(Role::Check, StreamKind::Stderr);
    assert!(!t.is_complete());
    t.record_senders_released();
    assert!(!t.is_complete());
    t.record_printers_joined();
    assert!(t.is_complete());
}

#[test]
fn labeling_handles_unicode_and_empty_streams() {
    assert_eq!(format_line(Role::Check, "héllo wörld ✓"), "[CHECK] héllo wörld ✓");
    let no_lines: Vec<String> = Vec::new();
    let msgs = pump_lines(Role::Check, StreamKind::Stdout, &no_lines);
    assert!(msgs.is_empty());
}

#[test]
fn successful_check_status_stays_pending_on_repeated_polls() {
    // an exited child keeps reporting the same status on every poll.
    for _ in 0..3 {
        let outcome = race_step(Some(exited(0)), None);
        assert_eq!(outcome, RaceOutcome::Pending { check_succeeded: true });
    }
}

#[test]
fn supervisor_adopts_the_settled_code_after_teardown() {
    let outcome = race_step(Some(signaled(9)), None);
    assert_eq!(supervisor_exit_code(&outcome, &complete_teardown()), 137);
    let outcome = race_step(None, Some(ProcessStatus { code: None, signal: None }));
    assert_eq!(supervisor_exit_code(&outcome, &complete_teardown()), 1);
}
