//! What comes back from an external program, and how it is reported.
//!
//! Starting a program is the driver's business. This module holds what the
//! library makes of the result: the classification by exit code, and the
//! lines that tell an observer what was started and how it ended.

use vstd::prelude::*;
use vstd::utf8::{decode_utf8, valid_utf8};
use crate::log::{error_line, info_line, Line, LogRecord};

verus! {

/// The result of one external program that ran to its end.
#[derive(Debug)]
pub struct RunOutcome {
    /// Whether the program ended with exit code zero.
    pub exit_success: bool,
    /// Everything the program wrote to standard output.
    pub stdout: Vec<u8>,
    /// Everything the program wrote to standard error.
    pub stderr: Vec<u8>,
}

/// The content of a [`RunOutcome`].
pub struct OutcomeView {
    pub exit_success: bool,
    pub stdout: Seq<u8>,
    pub stderr: Seq<u8>,
}

impl View for RunOutcome {
    type V = OutcomeView;

    open spec fn view(&self) -> OutcomeView {
        OutcomeView { exit_success: self.exit_success, stdout: self.stdout@, stderr: self.stderr@ }
    }
}

/// The text that `String::from_utf8_lossy` makes of `bytes`.
pub uninterp spec fn utf8_lossy(bytes: Seq<u8>) -> Seq<char>;

/// `String::from_utf8_lossy`, with the result as an owned string. The text
/// depends on the bytes alone. Bytes that are valid UTF-8 come back as the
/// string they encode; what replaces an invalid sequence is left to the name
/// [`utf8_lossy`].
#[verifier::external_body]
fn lossy_text(bytes: &Vec<u8>) -> (text: String)
    ensures
        text@ == utf8_lossy(bytes@),
        valid_utf8(bytes@) ==> text@ == decode_utf8(bytes@),
{
    String::from_utf8_lossy(bytes).into_owned()
}

/// `words` with `separator` between each two neighbours.
pub open spec fn joined(words: Seq<Seq<char>>, separator: Seq<char>) -> Seq<char>
    decreases words.len(),
{
    if words.len() == 0 {
        Seq::empty()
    } else if words.len() == 1 {
        words[0]
    } else {
        joined(words.drop_last(), separator) + separator + words.last()
    }
}

/// The command line as an observer reads it: the command, a blank, and the
/// arguments with a blank between each two.
pub open spec fn command_line(command: Seq<char>, args: Seq<Seq<char>>) -> Seq<char> {
    command + " "@ + joined(args, " "@)
}

/// The line that announces a program about to be started.
pub open spec fn launch_line(command: Seq<char>, args: Seq<Seq<char>>) -> Line {
    info_line("Debug: Running command: "@ + command_line(command, args))
}

/// The lines that report how a program ended: for a success the captured
/// standard output on the informational channel, for a failure the captured
/// standard error on the error channel.
pub open spec fn outcome_lines(outcome: OutcomeView) -> Seq<Line> {
    if outcome.exit_success {
        seq![
            info_line("Debug: Command succeeded"@),
            info_line("Output: "@ + utf8_lossy(outcome.stdout)),
        ]
    } else {
        seq![
            error_line("Debug: Command failed"@),
            error_line("Error: "@ + utf8_lossy(outcome.stderr)),
        ]
    }
}

/// The line that reports a program that could not be started.
pub open spec fn spawn_failure_line(command: Seq<char>, reason: Seq<char>) -> Line {
    error_line("Failed to execute '"@ + command + "': "@ + reason)
}

/// `words` with `separator` between each two neighbours.
pub fn join(words: &Vec<String>, separator: &str) -> (text: String)
    ensures
        text@ == joined(words.deep_view(), separator@),
{
    let mut text = String::new();
    let mut i: usize = 0;
    while i < words.len()
        invariant
            i <= words.len(),
            text@ == joined(words.deep_view().take(i as int), separator@),
        decreases words.len() - i,
    {
        proof {
            let shorter = words.deep_view().take(i as int);
            let longer = words.deep_view().take(i + 1);
            assert(longer.drop_last() =~= shorter);
            assert(longer.last() == words[i as int]@);
        }
        if i > 0 {
            text.append(separator);
        }
        text.append(words[i].as_str());
        i += 1;
    }
    assert(words.deep_view().take(i as int) =~= words.deep_view());
    text
}

/// The command line of `command` with `args`.
pub fn render_command_line(command: &str, args: &Vec<String>) -> (text: String)
    ensures
        text@ == command_line(command@, args.deep_view()),
{
    let mut text = String::from_str(command);
    text.append(" ");
    text.append(join(args, " ").as_str());
    text
}

impl RunOutcome {
    /// Classifies a finished program: it succeeded exactly when it ended with
    /// exit code zero. A program that ended without an exit code did not.
    pub fn classify(exit_code: Option<i32>, stdout: Vec<u8>, stderr: Vec<u8>) -> (outcome:
        RunOutcome)
        ensures
            outcome@ == (OutcomeView {
                exit_success: exit_code == Some(0i32),
                stdout: stdout@,
                stderr: stderr@,
            }),
    {
        let exit_success = match exit_code {
            Some(code) => code == 0,
            None => false,
        };
        RunOutcome { exit_success, stdout, stderr }
    }

    /// The lines that report this outcome.
    pub fn report(&self) -> (lines: Vec<LogRecord>)
        ensures
            lines.deep_view() == outcome_lines(self@),
    {
        let mut lines: Vec<LogRecord> = Vec::new();
        if self.exit_success {
            lines.push(LogRecord::info(String::from_str("Debug: Command succeeded")));
            let mut text = String::from_str("Output: ");
            text.append(lossy_text(&self.stdout).as_str());
            lines.push(LogRecord::info(text));
        } else {
            lines.push(LogRecord::error(String::from_str("Debug: Command failed")));
            let mut text = String::from_str("Error: ");
            text.append(lossy_text(&self.stderr).as_str());
            lines.push(LogRecord::error(text));
        }
        assert(lines.deep_view() =~= outcome_lines(self@));
        lines
    }
}

/// The line that announces `command` with `args`.
pub fn announce_launch(command: &str, args: &Vec<String>) -> (record: LogRecord)
    ensures
        record@ == launch_line(command@, args.deep_view()),
{
    let mut text = String::from_str("Debug: Running command: ");
    text.append(render_command_line(command, args).as_str());
    LogRecord::info(text)
}

/// The line that reports that `command` could not be started.
pub fn report_spawn_failure(command: &str, reason: &str) -> (record: LogRecord)
    ensures
        record@ == spawn_failure_line(command@, reason@),
{
    let mut text = String::from_str("Failed to execute '");
    text.append(command);
    text.append("': ");
    text.append(reason);
    LogRecord::error(text)
}

} // verus!
