use vstd::prelude::*;

verus! {

/// The stream a line of output was printed to.
#[derive(Debug, Clone, Copy, PartialEq, Eq, Structural)]
pub enum LogStream {
    Stdout,
    Stderr,
}

/// A line of output emitted by a running command.
#[derive(Debug, Clone, PartialEq, Eq, PartialOrd, Ord)]
pub enum ShellTaskLog {
    /// A line printed to `stdout`.
    Stdout(String),
    /// A line printed to `stderr`.
    Stderr(String),
}

impl ShellTaskLog {
    pub open spec fn spec_stream(&self) -> LogStream {
        match self {
            ShellTaskLog::Stdout(_) => LogStream::Stdout,
            ShellTaskLog::Stderr(_) => LogStream::Stderr,
        }
    }

    pub open spec fn spec_text(&self) -> Seq<char> {
        match self {
            ShellTaskLog::Stdout(s) => s@,
            ShellTaskLog::Stderr(s) => s@,
        }
    }

    /// The stream this line was printed to.
    pub fn stream(&self) -> (r: LogStream)
        ensures
            r == self.spec_stream(),
    {
        match self {
            ShellTaskLog::Stdout(_) => LogStream::Stdout,
            ShellTaskLog::Stderr(_) => LogStream::Stderr,
        }
    }

    /// The text of this line, without its line ending.
    pub fn text(&self) -> (r: &String)
        ensures
            r@ == self.spec_text(),
    {
        match self {
            ShellTaskLog::Stdout(s) => s,
            ShellTaskLog::Stderr(s) => s,
        }
    }
}

/// The texts of the records printed to `stream`, in the order of `records`.
pub open spec fn texts_of(records: Seq<ShellTaskLog>, stream: LogStream) -> Seq<Seq<char>>
    decreases records.len(),
{
    if records.len() == 0 {
        seq![]
    } else {
        let prev = texts_of(records.drop_last(), stream);
        if records.last().spec_stream() == stream {
            prev.push(records.last().spec_text())
        } else {
            prev
        }
    }
}

/// The views of a vector of lines.
pub open spec fn lines_view(lines: Seq<String>) -> Seq<Seq<char>> {
    lines.map_values(|s: String| s@)
}

} // verus!
