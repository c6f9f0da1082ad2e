use scpsl_wrapper::messages::OutgoingMessage;
use scpsl_wrapper::process::{
    after_forced_wait, after_graceful_wait, command_line, exit_code_after_server_exit,
    exit_code_after_shutdown, is_blank_text, line_to_message, strip_ansi_codes, TerminationStep,
    WaitOutcome,
};

#[test]
fn strip_ansi_codes_doc_example() {
    let colored = "\x1b[31mError\x1b[0m: something went wrong";
    assert_eq!(strip_ansi_codes(colored), "Error: something went wrong");
}

#[test]
fn strip_ansi_codes_removes_styles_with_parameters() {
    assert_eq!(strip_ansi_codes("\x1b[1;32mOK\x1b[m done\x1b[2K"), "OK done");
}

#[test]
fn strip_ansi_codes_keeps_incomplete_sequences() {
    assert_eq!(strip_ansi_codes("\x1b[31"), "\x1b[31");
    assert_eq!(strip_ansi_codes("\x1b[3?m x"), "\x1b[3?m x");
    assert_eq!(strip_ansi_codes("\x1bx[31m"), "\x1bx[31m");
}

#[test]
fn strip_ansi_codes_leaves_no_sequence_behind() {
    assert_eq!(strip_ansi_codes("\x1b[\x1b[31mm"), "");
    assert_eq!(strip_ansi_codes("a\x1b[\x1b[0mmb"), "ab");
    assert_eq!(strip_ansi_codes("\x1b[\x1b[\x1b[1mmm!"), "!");
}

#[test]
fn strip_ansi_codes_is_idempotent() {
    for s in ["\x1b[\x1b[31mm", "x\x1b[1;2Hy", "\x1b[31", "plain"] {
        let once = strip_ansi_codes(s);
        assert_eq!(strip_ansi_codes(&once), once);
    }
}

#[test]
fn strip_ansi_codes_keeps_plain_text() {
    let plain = "Player John connected from 192.168.1.1 — привет";
    assert_eq!(strip_ansi_codes(plain), plain);
}

#[test]
fn strip_ansi_codes_never_lengthens() {
    for s in ["", "\x1b[0m", "a\x1b[1;2;3Hb", "\x1b[", "text"] {
        assert!(strip_ansi_codes(s).chars().count() <= s.chars().count());
    }
}

#[test]
fn blank_text_is_unicode_white_space_only() {
    assert!(is_blank_text(""));
    assert!(is_blank_text(" \t\r\n\u{b}\u{c}"));
    assert!(is_blank_text("\u{a0}\u{3000}\u{2028}\u{85}"));
    assert!(!is_blank_text("  x  "));
    assert!(!is_blank_text("\u{200b}"));
}

fn content_of(m: Option<OutgoingMessage>) -> Option<(String, String)> {
    match m {
        Some(OutgoingMessage::Stdout(o)) => {
            assert_eq!(o.msg_type, "stdout");
            Some((o.server, o.content))
        }
        Some(OutgoingMessage::Auth(_)) => panic!("a console line became an auth message"),
        None => None,
    }
}

#[test]
fn console_line_becomes_stdout_message() {
    let m = line_to_message("\x1b[32mRound started\x1b[0m".to_string(), "server1", true);
    assert_eq!(content_of(m), Some(("server1".to_string(), "Round started".to_string())));
}

#[test]
fn console_line_is_kept_raw_without_stripping() {
    let m = line_to_message("\x1b[32mRound\x1b[0m".to_string(), "s", false);
    assert_eq!(content_of(m), Some(("s".to_string(), "\x1b[32mRound\x1b[0m".to_string())));
}

#[test]
fn blank_console_lines_are_dropped() {
    assert!(line_to_message("".to_string(), "s", true).is_none());
    assert!(line_to_message("   \t".to_string(), "s", false).is_none());
    assert!(line_to_message("\x1b[0m  \x1b[2K".to_string(), "s", true).is_none());
    assert!(line_to_message("\x1b[0m".to_string(), "s", false).is_some());
}

#[test]
fn command_gets_one_trailing_newline() {
    assert_eq!(command_line("reload remoteadmin"), "reload remoteadmin\n");
    assert_eq!(command_line("bc Hello\n"), "bc Hello\n");
    assert_eq!(command_line(""), "\n");
    assert_eq!(command_line("команда"), "команда\n");
}

#[test]
fn command_framing_is_idempotent() {
    for c in ["reload", "x\n", "", "a\n\n"] {
        let once = command_line(c);
        assert_eq!(command_line(&once), once);
        assert!(once.ends_with('\n'));
    }
}

#[test]
fn termination_steps() {
    assert_eq!(after_graceful_wait(WaitOutcome::Exited(Some(0))), TerminationStep::Finished(Some(0)));
    assert_eq!(after_graceful_wait(WaitOutcome::Exited(None)), TerminationStep::Finished(None));
    assert_eq!(after_graceful_wait(WaitOutcome::Failed), TerminationStep::Finished(None));
    assert_eq!(after_graceful_wait(WaitOutcome::TimedOut), TerminationStep::Kill);
    assert_eq!(after_forced_wait(WaitOutcome::Exited(Some(137))), Some(137));
    assert_eq!(after_forced_wait(WaitOutcome::Failed), None);
}

#[test]
fn wrapper_exit_codes() {
    assert_eq!(exit_code_after_server_exit(WaitOutcome::Exited(Some(3))), 3);
    assert_eq!(exit_code_after_server_exit(WaitOutcome::Exited(Some(0))), 0);
    assert_eq!(exit_code_after_server_exit(WaitOutcome::Exited(None)), 1);
    assert_eq!(exit_code_after_server_exit(WaitOutcome::Failed), 1);
    assert_eq!(exit_code_after_shutdown(Some(143)), 143);
    assert_eq!(exit_code_after_shutdown(None), 0);
}
