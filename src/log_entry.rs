//! One row of a log file.
use vstd::prelude::*;

verus! {

/// A row of a log file: its 0-based line index and its text.
pub struct LogEntry {
    /// The 0-based index of the line in the file when it was read.
    pub line: usize,
    /// The text of the line, without its line terminator.
    pub content: String,
}

impl LogEntry {
    /// Creates an entry for line `line` holding `content`.
    pub fn new(line: usize, content: String) -> (r: Self)
        ensures
            r.line == line,
            r.content == content,
    {
        LogEntry { line, content }
    }
}

} // verus!
