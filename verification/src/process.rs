//! The logic around the server process: which console lines are sent and how,
//! how a command is framed for the console, and what the exit of the process
//! means for the wrapper's own exit code.

use vstd::prelude::*;
use crate::messages::{OutgoingMessage, StdoutMessage};

verus! {

// ---------------------------------------------------------------------------
// ANSI escape sequences
// ---------------------------------------------------------------------------

/// The regular expression of an ANSI escape sequence: ESC `[`, digits and
/// semicolons, then one ASCII letter.
pub const ANSI_ESCAPE_PATTERN: &'static str = "\\x1b\\[[0-9;]*[a-zA-Z]";

/// A character that may stand between ESC `[` and the final letter.
pub open spec fn is_ansi_parameter(c: char) -> bool {
    ('0' <= c && c <= '9') || c == ';'
}

/// An ASCII letter, which ends an escape sequence.
pub open spec fn is_ascii_letter(c: char) -> bool {
    ('a' <= c && c <= 'z') || ('A' <= c && c <= 'Z')
}

/// The index just past the run of parameter characters that starts at `i`.
pub open spec fn parameter_run_end(s: Seq<char>, i: int) -> int
    decreases s.len() - i,
{
    if 0 <= i < s.len() && is_ansi_parameter(s[i]) {
        parameter_run_end(s, i + 1)
    } else {
        i
    }
}

/// The length of the escape sequence at the start of `s`, or 0 where none starts there.
pub open spec fn ansi_escape_len(s: Seq<char>) -> int {
    if s.len() >= 2 && s[0] == '\x1b' && s[1] == '[' {
        let end = parameter_run_end(s, 2);
        if end < s.len() && is_ascii_letter(s[end]) {
            end + 1
        } else {
            0
        }
    } else {
        0
    }
}

/// `s` with every escape sequence removed, scanning from the left and going on
/// after each removed sequence.
pub open spec fn without_ansi_escapes(s: Seq<char>) -> Seq<char>
    decreases s.len(),
{
    if s.len() == 0 {
        Seq::empty()
    } else if ansi_escape_len(s) > 0 {
        without_ansi_escapes(s.skip(ansi_escape_len(s)))
    } else {
        seq![s[0]] + without_ansi_escapes(s.drop_first())
    }
}

/// What `regex::Regex::new(pattern)` followed by `replace_all(text, replacement)`
/// returns; `None` where the pattern does not compile.
pub uninterp spec fn regex_replace_all_result(pattern: Seq<char>, text: Seq<char>, replacement: Seq<char>) -> Option<Seq<char>>;

/// Compiles `pattern` with `regex::Regex::new` and replaces every match in
/// `text` by `replacement` with `Regex::replace_all`; `None` where the pattern
/// does not compile. The regex crate documents leftmost-first matching and
/// non-overlapping replacement that goes on after each match. For the pattern
/// `ANSI_ESCAPE_PATTERN` (ESC `[`, a greedy run of ASCII digits and `;`, one
/// ASCII letter; no letter is a digit or `;`, so a match that starts at a
/// position ends right after the first letter following the run, or there is
/// none) and an empty replacement, the result is `without_ansi_escapes(text)`.
#[verifier::external_body]
fn regex_replace_all(pattern: &str, text: &str, replacement: &str) -> (r: Option<String>)
    ensures
        r matches Some(s) ==> regex_replace_all_result(pattern@, text@, replacement@) == Some(s@),
        r is None ==> regex_replace_all_result(pattern@, text@, replacement@) is None,
        pattern@ == ANSI_ESCAPE_PATTERN@ && replacement@ == Seq::<char>::empty() ==> r is Some && r->0@ == without_ansi_escapes(text@),
{
    match regex::Regex::new(pattern) {
        Ok(re) => Some(re.replace_all(text, replacement).into_owned()),
        Err(_) => None,
    }
}

/// No position of `s` starts an escape sequence: `s` holds no ANSI code.
pub open spec fn is_free_of_ansi_escapes(s: Seq<char>) -> bool {
    forall|i: int| 0 <= i < s.len() ==> #[trigger] ansi_escape_len(s.skip(i)) == 0
}

/// `s` with escape sequences removed until none is left: removing one can
/// join the text around it into a new one, which is removed in turn.
pub open spec fn without_ansi_codes(s: Seq<char>) -> Seq<char>
    decreases s.len(),
{
    let t = without_ansi_escapes(s);
    if t.len() < s.len() {
        without_ansi_codes(t)
    } else {
        s
    }
}

/// One pass of the ANSI escape expression over `input`.
fn strip_ansi_pass(input: &str) -> (r: String)
    ensures
        r@ == without_ansi_escapes(input@),
{
    proof {
        reveal_strlit("");
        assert(""@ =~= Seq::<char>::empty());
    }
    match regex_replace_all(ANSI_ESCAPE_PATTERN, input, "") {
        Some(s) => s,
        None => unreached(),
    }
}

/// Removes the ANSI escape sequences (colours, styles) from `input`, until
/// the text holds none.
pub fn strip_ansi_codes(input: &str) -> (r: String)
    ensures
        r@ == without_ansi_codes(input@),
        is_free_of_ansi_escapes(r@),
{
    let mut text = String::from_str(input);
    loop
        invariant
            without_ansi_codes(text@) == without_ansi_codes(input@),
        decreases text@.len(),
    {
        let stripped = strip_ansi_pass(text.as_str());
        proof {
            lemma_stripping_never_lengthens(text@);
            if is_free_of_ansi_escapes(text@) {
                lemma_escape_free_text_kept(text@);
            } else {
                lemma_escape_makes_shorter(text@);
            }
        }
        if stripped == text {
            return text;
        }
        text = stripped;
    }
}

/// The run of parameter characters ends inside the text, after its start.
proof fn lemma_parameter_run_end_bounds(s: Seq<char>, i: int)
    requires
        0 <= i <= s.len(),
    ensures
        i <= parameter_run_end(s, i) <= s.len(),
    decreases s.len() - i,
{
    if i < s.len() && is_ansi_parameter(s[i]) {
        lemma_parameter_run_end_bounds(s, i + 1);
    }
}

/// An escape sequence that starts the text is at least three characters long
/// and lies inside the text.
proof fn lemma_escape_len_bounds(s: Seq<char>)
    ensures
        ansi_escape_len(s) == 0 || 3 <= ansi_escape_len(s) <= s.len(),
{
    if s.len() >= 2 {
        lemma_parameter_run_end_bounds(s, 2);
    }
}

/// The suffixes of the rest of a text are suffixes of the text.
proof fn lemma_skip_of_rest(s: Seq<char>, j: int)
    requires
        0 < s.len(),
        0 <= j < s.len() - 1,
    ensures
        s.drop_first().skip(j) == s.skip(j + 1),
{
    assert(s.drop_first().skip(j) =~= s.skip(j + 1));
}

/// One pass keeps a text that holds no escape sequence.
proof fn lemma_escape_free_text_kept(s: Seq<char>)
    requires
        is_free_of_ansi_escapes(s),
    ensures
        without_ansi_escapes(s) == s,
    decreases s.len(),
{
    if s.len() > 0 {
        assert(s.skip(0) =~= s);
        assert(ansi_escape_len(s.skip(0)) == 0);
        let rest = s.drop_first();
        assert forall|j: int| 0 <= j < rest.len() implies #[trigger] ansi_escape_len(rest.skip(j)) == 0 by {
            lemma_skip_of_rest(s, j);
            assert(ansi_escape_len(s.skip(j + 1)) == 0);
        }
        lemma_escape_free_text_kept(rest);
        assert(seq![s[0]] + rest =~= s);
    }
}

/// One pass shortens a text that holds an escape sequence.
proof fn lemma_escape_makes_shorter(s: Seq<char>)
    requires
        !is_free_of_ansi_escapes(s),
    ensures
        without_ansi_escapes(s).len() < s.len(),
    decreases s.len(),
{
    let i = choose|i: int| 0 <= i < s.len() && ansi_escape_len(s.skip(i)) != 0;
    lemma_escape_len_bounds(s);
    if ansi_escape_len(s) > 0 {
        lemma_stripping_never_lengthens(s.skip(ansi_escape_len(s)));
    } else {
        assert(s.skip(0) =~= s);
        assert(i > 0);
        let rest = s.drop_first();
        lemma_skip_of_rest(s, i - 1);
        assert(ansi_escape_len(rest.skip(i - 1)) != 0);
        lemma_escape_makes_shorter(rest);
    }
}

/// One pass of removing escape sequences never makes a text longer.
pub proof fn lemma_stripping_never_lengthens(s: Seq<char>)
    ensures
        without_ansi_escapes(s).len() <= s.len(),
    decreases s.len(),
{
    if s.len() > 0 {
        if ansi_escape_len(s) > 0 {
            lemma_escape_len_bounds(s);
            lemma_stripping_never_lengthens(s.skip(ansi_escape_len(s)));
        } else {
            lemma_stripping_never_lengthens(s.drop_first());
        }
    }
}

/// The stripped text holds no escape sequence.
pub proof fn lemma_stripped_text_is_free(s: Seq<char>)
    ensures
        is_free_of_ansi_escapes(without_ansi_codes(s)),
    decreases s.len(),
{
    let t = without_ansi_escapes(s);
    if t.len() < s.len() {
        lemma_stripped_text_is_free(t);
    } else if !is_free_of_ansi_escapes(s) {
        lemma_escape_makes_shorter(s);
    }
}

/// Stripping twice gives what stripping once gives.
pub proof fn lemma_stripping_idempotent(s: Seq<char>)
    ensures
        without_ansi_codes(without_ansi_codes(s)) == without_ansi_codes(s),
{
    let r = without_ansi_codes(s);
    lemma_stripped_text_is_free(r);
    lemma_stripped_text_is_free(s);
    lemma_escape_free_text_kept(r);
}

/// Text without an ESC character holds no escape sequence and is kept as it is.
pub proof fn lemma_plain_text_unchanged(s: Seq<char>)
    requires
        !s.contains('\x1b'),
    ensures
        without_ansi_codes(s) == s,
{
    lemma_plain_text_kept_by_a_pass(s);
}

/// One pass keeps a text without an ESC character.
proof fn lemma_plain_text_kept_by_a_pass(s: Seq<char>)
    requires
        !s.contains('\x1b'),
    ensures
        without_ansi_escapes(s) == s,
    decreases s.len(),
{
    if s.len() > 0 {
        assert(s[0] != '\x1b');
        let rest = s.drop_first();
        assert(!rest.contains('\x1b')) by {
            if rest.contains('\x1b') {
                let k = choose|k: int| 0 <= k < rest.len() && rest[k] == '\x1b';
                assert(s[k + 1] == '\x1b');
            }
        }
        lemma_plain_text_kept_by_a_pass(rest);
        assert(seq![s[0]] + rest =~= s);
    }
}

/// Stripping never makes a text longer.
pub proof fn lemma_stripped_text_not_longer(s: Seq<char>)
    ensures
        without_ansi_codes(s).len() <= s.len(),
    decreases s.len(),
{
    let t = without_ansi_escapes(s);
    if t.len() < s.len() {
        lemma_stripped_text_not_longer(t);
    }
}

// ---------------------------------------------------------------------------
// Console lines
// ---------------------------------------------------------------------------

/// A character with the Unicode `White_Space` property.
pub open spec fn is_white_space(c: char) -> bool {
    ||| ('\t' <= c && c <= '\r')
    ||| c == ' '
    ||| c == '\u{85}'
    ||| c == '\u{a0}'
    ||| c == '\u{1680}'
    ||| ('\u{2000}' <= c && c <= '\u{200a}')
    ||| c == '\u{2028}'
    ||| c == '\u{2029}'
    ||| c == '\u{202f}'
    ||| c == '\u{205f}'
    ||| c == '\u{3000}'
}

/// A text made of white space only (what `str::trim` leaves empty).
pub open spec fn is_blank(s: Seq<char>) -> bool {
    forall|i: int| 0 <= i < s.len() ==> is_white_space(#[trigger] s[i])
}

/// `char::is_whitespace`, documented as the Unicode `White_Space` property:
/// U+0009 to U+000D, U+0020, U+0085, U+00A0, U+1680, U+2000 to U+200A, U+2028,
/// U+2029, U+202F, U+205F and U+3000.
#[verifier::external_body]
fn char_is_whitespace(c: char) -> (b: bool)
    ensures
        b == is_white_space(c),
{
    c.is_whitespace()
}

/// Whether `s` holds white space only.
pub fn is_blank_text(s: &str) -> (b: bool)
    ensures
        b == is_blank(s@),
{
    for c in it: s.chars()
        invariant
            it.seq() == s@,
            forall|j: int| 0 <= j < it.index() ==> is_white_space(#[trigger] s@[j]),
    {
        if !char_is_whitespace(c) {
            return false;
        }
    }
    true
}

/// The text of a console line as it is sent: without escape sequences where
/// these are stripped, as it was read otherwise.
pub open spec fn console_content(line: Seq<char>, strip_ansi: bool) -> Seq<char> {
    if strip_ansi {
        without_ansi_codes(line)
    } else {
        line
    }
}

/// Turns a console line of the server into the message sent for it: a line
/// that is blank, or blank once its escape sequences are stripped, is dropped.
pub fn line_to_message(line: String, server_name: &str, strip_ansi: bool) -> (r: Option<OutgoingMessage>)
    ensures
        r is None <==> (is_blank(line@) || is_blank(console_content(line@, strip_ansi))),
        r matches Some(m) ==> m matches OutgoingMessage::Stdout(o) && o.msg_type@ == "stdout"@ && o.server@
            == server_name@ && o.content@ == console_content(line@, strip_ansi),
{
    if is_blank_text(line.as_str()) {
        return None;
    }
    let content = if strip_ansi {
        strip_ansi_codes(line.as_str())
    } else {
        line
    };
    if is_blank_text(content.as_str()) {
        return None;
    }
    Some(OutgoingMessage::Stdout(StdoutMessage::new(server_name, content)))
}

// ---------------------------------------------------------------------------
// Commands for the console
// ---------------------------------------------------------------------------

/// A command as it is written to the console: ending in one newline, which is
/// added where it is missing.
pub open spec fn command_text(command: Seq<char>) -> Seq<char> {
    if command.len() > 0 && command.last() == '\n' {
        command
    } else {
        command.push('\n')
    }
}

/// The text written to the console for `command`.
pub fn command_line(command: &str) -> (r: String)
    ensures
        r@ == command_text(command@),
{
    let n = command.unicode_len();
    if n > 0 && command.get_char(n - 1) == '\n' {
        String::from_str(command)
    } else {
        proof {
            reveal_strlit("\n");
        }
        let r = String::from_str(command).concat("\n");
        assert(r@ =~= command@.push('\n'));
        r
    }
}

/// A command ends in a newline, and framing it again changes nothing.
pub proof fn lemma_command_text_idempotent(command: Seq<char>)
    ensures
        command_text(command).len() > 0,
        command_text(command).last() == '\n',
        command_text(command_text(command)) == command_text(command),
{
}

/// The framed command is the command itself, whole, followed by one newline
/// where it did not already end in one: nothing of the command is dropped or changed.
pub proof fn lemma_command_text_keeps_command(command: Seq<char>)
    ensures
        command_text(command).len() == command.len() || command_text(command).len() == command.len() + 1,
        command_text(command).subrange(0, command.len() as int) == command,
        command_text(command).last() == '\n',
        command.len() > 0 && command.last() == '\n' ==> command_text(command) == command,
        !(command.len() > 0 && command.last() == '\n') ==> command_text(command).len() == command.len() + 1,
{
    assert(command_text(command).subrange(0, command.len() as int) =~= command);
}

/// The content sent for a console line is the whole line: unchanged when
/// stripping is off or the line holds no ESC; otherwise free of ANSI codes
/// and no longer than the line.
pub proof fn lemma_console_content_is_whole_line(line: Seq<char>, strip_ansi: bool)
    ensures
        !strip_ansi ==> console_content(line, strip_ansi) == line,
        !line.contains('\x1b') ==> console_content(line, strip_ansi) == line,
        strip_ansi ==> is_free_of_ansi_escapes(console_content(line, strip_ansi)),
        console_content(line, strip_ansi).len() <= line.len(),
{
    lemma_stripped_text_is_free(line);
    lemma_stripped_text_not_longer(line);
    if !line.contains('\x1b') {
        lemma_plain_text_unchanged(line);
    }
}

/// A console line with a visible (non-white-space) character and no ESC is
/// neither dropped nor changed: it is sent whole.
pub proof fn lemma_visible_plain_line_is_sent_whole(line: Seq<char>, strip_ansi: bool)
    requires
        exists|i: int| 0 <= i < line.len() && !is_white_space(#[trigger] line[i]),
        !line.contains('\x1b'),
    ensures
        !is_blank(line),
        !is_blank(console_content(line, strip_ansi)),
        console_content(line, strip_ansi) == line,
{
    lemma_console_content_is_whole_line(line, strip_ansi);
}

/// A text is blank exactly when every character is white space, and a text
/// with a single visible character is not.
pub proof fn lemma_blank_means_all_white_space(s: Seq<char>, i: int)
    requires
        0 <= i < s.len(),
    ensures
        !is_white_space(s[i]) ==> !is_blank(s),
        is_blank(s) ==> is_white_space(s[i]),
        is_blank(Seq::<char>::empty()),
{
}

// ---------------------------------------------------------------------------
// Stopping the server and the wrapper's exit code
// ---------------------------------------------------------------------------

/// How a wait for the server process ended.
#[derive(Debug, Clone, Copy, PartialEq, Eq)]
pub enum WaitOutcome {
    /// The process exited, with its exit code where it has one.
    Exited(Option<i32>),
    /// Waiting failed.
    Failed,
    /// The time given for the wait ran out.
    TimedOut,
}

/// The next step of stopping the server after the termination signal was sent.
#[derive(Debug, Clone, Copy, PartialEq, Eq)]
pub enum TerminationStep {
    /// Stopping is over; the process's exit code where known.
    Finished(Option<i32>),
    /// The process did not stop in time: kill it and wait again.
    Kill,
}

/// Decides what follows the wait (with a time limit) after the termination
/// signal: the exit code of a process that stopped, no code where waiting
/// failed, and a kill where the time ran out.
pub fn after_graceful_wait(outcome: WaitOutcome) -> (s: TerminationStep)
    ensures
        match outcome {
            WaitOutcome::Exited(code) => s == TerminationStep::Finished(code),
            WaitOutcome::Failed => s == TerminationStep::Finished(None),
            WaitOutcome::TimedOut => s == TerminationStep::Kill,
        },
{
    match outcome {
        WaitOutcome::Exited(code) => TerminationStep::Finished(code),
        WaitOutcome::Failed => TerminationStep::Finished(None),
        WaitOutcome::TimedOut => TerminationStep::Kill,
    }
}

/// The exit code known after the wait that follows a kill.
pub fn after_forced_wait(outcome: WaitOutcome) -> (code: Option<i32>)
    ensures
        code == (match outcome {
            WaitOutcome::Exited(c) => c,
            _ => None,
        }),
{
    match outcome {
        WaitOutcome::Exited(c) => c,
        _ => None,
    }
}

/// The wrapper's exit code when the server process ended by itself: its exit
/// code, or 1 where it has none or waiting failed.
pub fn exit_code_after_server_exit(outcome: WaitOutcome) -> (code: i32)
    ensures
        code == (match outcome {
            WaitOutcome::Exited(Some(c)) => c,
            _ => 1,
        }),
{
    match outcome {
        WaitOutcome::Exited(Some(c)) => c,
        _ => 1,
    }
}

/// The wrapper's exit code after it stopped the server on a signal: the
/// server's exit code, or 0 where none is known.
pub fn exit_code_after_shutdown(server_code: Option<i32>) -> (code: i32)
    ensures
        code == (match server_code {
            Some(c) => c,
            None => 0,
        }),
{
    match server_code {
        Some(c) => c,
        None => 0,
    }
}

} // verus!
