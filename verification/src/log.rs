//! Records for the observer stream.
//!
//! The library never prints. Each transition of a run hands back the lines
//! that an observer should see, and the driver decides how to show them.

use vstd::prelude::*;

verus! {

/// The channel a line is meant for.
#[derive(Clone, Copy, Debug, PartialEq, Eq, Structural)]
pub enum Level {
    /// Progress that needs no attention.
    Info,
    /// A departure from a fresh run: a step skipped, a file newly created.
    Warn,
    /// A fatal condition; the run ends after it.
    Error,
}

/// One line of the observer stream.
#[derive(Debug)]
pub struct LogRecord {
    pub level: Level,
    pub text: String,
}

/// What a [`LogRecord`] says: its channel and its characters.
pub struct Line {
    pub level: Level,
    pub text: Seq<char>,
}

impl View for LogRecord {
    type V = Line;

    open spec fn view(&self) -> Line {
        Line { level: self.level, text: self.text@ }
    }
}

impl DeepView for LogRecord {
    type V = Line;

    open spec fn deep_view(&self) -> Line {
        self@
    }
}

impl LogRecord {
    /// A line for the informational channel.
    pub fn info(text: String) -> (record: LogRecord)
        ensures
            record@ == (Line { level: Level::Info, text: text@ }),
    {
        LogRecord { level: Level::Info, text }
    }

    /// A line for the warning channel.
    pub fn warn(text: String) -> (record: LogRecord)
        ensures
            record@ == (Line { level: Level::Warn, text: text@ }),
    {
        LogRecord { level: Level::Warn, text }
    }

    /// A line for the error channel.
    pub fn error(text: String) -> (record: LogRecord)
        ensures
            record@ == (Line { level: Level::Error, text: text@ }),
    {
        LogRecord { level: Level::Error, text }
    }
}

/// The informational line with the given characters.
pub open spec fn info_line(text: Seq<char>) -> Line {
    Line { level: Level::Info, text }
}

/// One informational line for each of `texts`, in order.
pub open spec fn info_lines(texts: Seq<Seq<char>>) -> Seq<Line> {
    Seq::new(texts.len(), |i: int| info_line(texts[i]))
}

/// The warning line with the given characters.
pub open spec fn warn_line(text: Seq<char>) -> Line {
    Line { level: Level::Warn, text }
}

/// The error line with the given characters.
pub open spec fn error_line(text: Seq<char>) -> Line {
    Line { level: Level::Error, text }
}

/// One informational record for each of `texts`, in order.
pub fn info_records(texts: &Vec<String>) -> (records: Vec<LogRecord>)
    ensures
        records.deep_view() == info_lines(texts.deep_view()),
{
    let mut records: Vec<LogRecord> = Vec::new();
    let mut i: usize = 0;
    while i < texts.len()
        invariant
            i <= texts.len(),
            records.len() == i,
            forall|k: int| 0 <= k < i ==> records[k]@ == info_line(texts[k]@),
        decreases texts.len() - i,
    {
        records.push(LogRecord::info(texts[i].clone()));
        i += 1;
    }
    assert(records.deep_view() =~= info_lines(texts.deep_view()));
    records
}

} // verus!
