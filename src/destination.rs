//! Where log output goes.
use crate::error::{Error, ErrorKind};
use crate::text::{eq_ignore_ascii_case, lemma_ascii_case_eq_symmetric, seq_ascii_case_eq};
use std::str::FromStr;
use vstd::prelude::*;

verus! {

/// The output destination of the logger: console streams, a stream such as a
/// file, an in-memory buffer, or a stream or buffer paired with a console.
#[derive(Debug, Clone, Copy, PartialEq, Eq, Structural, Hash)]
pub enum LogDestination {
    /// log to stdout
    Stdout,
    /// log to stderr
    Stderr,
    /// log to an output stream
    Stream,
    /// log to an output stream and to stdout
    StreamStdout,
    /// log to an output stream and to stderr
    StreamStderr,
    /// log to a memory buffer
    Buffer,
    /// log to stdout and to a memory buffer
    BufferStdout,
    /// log to stderr and to a memory buffer
    BufferStderr,
}

/// The destinations in the order in which names are looked up.
pub open spec fn dest_table() -> Seq<LogDestination> {
    seq![
        LogDestination::Stdout,
        LogDestination::Stderr,
        LogDestination::Stream,
        LogDestination::StreamStdout,
        LogDestination::StreamStderr,
        LogDestination::Buffer,
        LogDestination::BufferStdout,
        LogDestination::BufferStderr,
    ]
}

/// The first destination of the table whose name matches `s` up to ASCII
/// case, if any.
pub open spec fn dest_named(s: Seq<char>) -> Option<LogDestination> {
    if exists|i: int| 0 <= i < 8 && seq_ascii_case_eq(s, #[trigger] dest_table()[i].spec_name()) {
        let i = choose|i: int|
            0 <= i < 8 && seq_ascii_case_eq(s, #[trigger] dest_table()[i].spec_name()) && forall|j: int|
                0 <= j < i ==> !seq_ascii_case_eq(s, #[trigger] dest_table()[j].spec_name());
        Some(dest_table()[i])
    } else {
        None
    }
}

/// A console stream.
#[derive(Debug, Clone, Copy, PartialEq, Eq, Structural)]
pub enum ConsoleStream {
    Stdout,
    Stderr,
}

/// The console that a destination writes to, if any.
pub open spec fn console_of(d: LogDestination) -> Option<ConsoleStream> {
    if d.spec_is_stderr() {
        Some(ConsoleStream::Stderr)
    } else if d.spec_is_stdout() {
        Some(ConsoleStream::Stdout)
    } else {
        None
    }
}

impl LogDestination {
    pub open spec fn spec_is_stream_dest(self) -> bool {
        self is Stream || self is StreamStdout || self is StreamStderr
    }

    pub open spec fn spec_is_buffer_dest(self) -> bool {
        self is Buffer || self is BufferStdout || self is BufferStderr
    }

    pub open spec fn spec_is_stderr(self) -> bool {
        self is Stderr || self is StreamStderr || self is BufferStderr
    }

    pub open spec fn spec_is_stdout(self) -> bool {
        self is Stdout || self is StreamStdout || self is BufferStdout
    }

    /// The canonical lower-case name of the destination.
    pub open spec fn spec_name(self) -> Seq<char> {
        match self {
            LogDestination::Stdout => "stdout"@,
            LogDestination::Stderr => "stderr"@,
            LogDestination::Stream => "stream"@,
            LogDestination::StreamStdout => "streamstdout"@,
            LogDestination::StreamStderr => "streamstderr"@,
            LogDestination::Buffer => "buffer"@,
            LogDestination::BufferStdout => "bufferstdout"@,
            LogDestination::BufferStderr => "bufferstderr"@,
        }
    }

    /// The stream-backed destination with the same console affinity.
    pub open spec fn spec_stream_variant(self) -> LogDestination {
        if self.spec_is_stdout() {
            LogDestination::StreamStdout
        } else if self.spec_is_stderr() {
            LogDestination::StreamStderr
        } else {
            LogDestination::Stream
        }
    }

    /// Output goes to an attached stream.
    pub fn is_stream_dest(&self) -> (r: bool)
        ensures
            r == self.spec_is_stream_dest(),
    {
        match self {
            LogDestination::Stream | LogDestination::StreamStdout | LogDestination::StreamStderr => true,
            _ => false,
        }
    }

    /// Output goes to the memory buffer.
    pub fn is_buffer_dest(&self) -> (r: bool)
        ensures
            r == self.spec_is_buffer_dest(),
    {
        match self {
            LogDestination::Buffer | LogDestination::BufferStdout | LogDestination::BufferStderr => true,
            _ => false,
        }
    }

    /// Output goes to stderr.
    pub fn is_stderr(&self) -> (r: bool)
        ensures
            r == self.spec_is_stderr(),
    {
        match self {
            LogDestination::Stderr | LogDestination::StreamStderr | LogDestination::BufferStderr => true,
            _ => false,
        }
    }

    /// Output goes to stdout.
    pub fn is_stdout(&self) -> (r: bool)
        ensures
            r == self.spec_is_stdout(),
    {
        match self {
            LogDestination::Stdout | LogDestination::StreamStdout | LogDestination::BufferStdout => true,
            _ => false,
        }
    }

    /// The stream-backed destination that keeps the console affinity of
    /// `self`: `StreamStdout`, `StreamStderr` or `Stream`.
    pub fn stream_variant(&self) -> (r: LogDestination)
        ensures
            r == self.spec_stream_variant(),
    {
        if self.is_stdout() {
            LogDestination::StreamStdout
        } else if self.is_stderr() {
            LogDestination::StreamStderr
        } else {
            LogDestination::Stream
        }
    }

    /// The console this destination writes to, if any.
    pub fn console(&self) -> (r: Option<ConsoleStream>)
        ensures
            r == console_of(*self),
    {
        if self.is_stderr() {
            Some(ConsoleStream::Stderr)
        } else if self.is_stdout() {
            Some(ConsoleStream::Stdout)
        } else {
            None
        }
    }

    /// The canonical lower-case name of the destination.
    pub fn name(&self) -> (r: &'static str)
        ensures
            r@ == self.spec_name(),
    {
        match self {
            LogDestination::Stdout => "stdout",
            LogDestination::Stderr => "stderr",
            LogDestination::Stream => "stream",
            LogDestination::StreamStdout => "streamstdout",
            LogDestination::StreamStderr => "streamstderr",
            LogDestination::Buffer => "buffer",
            LogDestination::BufferStdout => "bufferstdout",
            LogDestination::BufferStderr => "bufferstderr",
        }
    }

    fn table_entry(i: usize) -> (r: LogDestination)
        requires
            i < 8,
        ensures
            r == dest_table()[i as int],
    {
        match i {
            0 => LogDestination::Stdout,
            1 => LogDestination::Stderr,
            2 => LogDestination::Stream,
            3 => LogDestination::StreamStdout,
            4 => LogDestination::StreamStderr,
            5 => LogDestination::Buffer,
            6 => LogDestination::BufferStdout,
            _ => LogDestination::BufferStderr,
        }
    }

    /// Parses a destination name in any ASCII case; an unknown name is an
    /// invalid parameter.
    pub fn from_name(s: &str) -> (r: Result<LogDestination, Error>)
        ensures
            match r {
                Ok(d) => dest_named(s@) == Some(d),
                Err(e) => dest_named(s@) is None && e.spec_kind() == ErrorKind::InvParam,
            },
    {
        let mut i: usize = 0;
        while i < 8
            invariant
                0 <= i <= 8,
                forall|j: int| 0 <= j < i ==> !seq_ascii_case_eq(s@, #[trigger] dest_table()[j].spec_name()),
            decreases 8 - i,
        {
            let d = LogDestination::table_entry(i);
            if eq_ignore_ascii_case(d.name(), s) {
                proof {
                    assert(seq_ascii_case_eq(s@, dest_table()[i as int].spec_name())) by {
                        lemma_ascii_case_eq_symmetric(d.spec_name(), s@);
                    }
                    let k = choose|k: int|
                        0 <= k < 8 && seq_ascii_case_eq(s@, #[trigger] dest_table()[k].spec_name())
                            && forall|j: int|
                            0 <= j < k ==> !seq_ascii_case_eq(s@, #[trigger] dest_table()[j].spec_name());
                    assert(k == i as int) by {
                        if k < i as int {
                        } else if k > i as int {
                        }
                    }
                }
                return Ok(d);
            }
            proof {
                lemma_ascii_case_eq_symmetric(d.spec_name(), s@);
            }
            i = i + 1;
        }
        Err(Error::with_context(ErrorKind::InvParam, "Invalid log destination string encountered"))
    }
}

impl FromStr for LogDestination {
    type Err = Error;

    fn from_str(dest: &str) -> (r: Result<LogDestination, Error>)
        ensures
            match r {
                Ok(d) => dest_named(dest@) == Some(d),
                Err(e) => dest_named(dest@) is None && e.spec_kind() == ErrorKind::InvParam,
            },
    {
        LogDestination::from_name(dest)
    }
}

} // verus!
