//! Severities of log records.
use crate::error::{Error, ErrorKind};
use crate::text::seq_ascii_case_eq;
use std::str::FromStr;
use vstd::prelude::*;

verus! {

/// The severity of a log record, from the least verbose (`Error`) to the
/// most verbose (`Trace`).
#[derive(Debug, Clone, Copy, PartialEq, Eq, Structural, Hash)]
pub enum Level {
    Error,
    Warn,
    Info,
    Debug,
    Trace,
}

impl Level {
    /// The verbosity rank: 1 for `Error` up to 5 for `Trace`.
    pub open spec fn rank(self) -> int {
        match self {
            Level::Error => 1,
            Level::Warn => 2,
            Level::Info => 3,
            Level::Debug => 4,
            Level::Trace => 5,
        }
    }

    /// The canonical upper-case name of the level.
    pub open spec fn spec_name(self) -> Seq<char> {
        match self {
            Level::Error => "ERROR"@,
            Level::Warn => "WARN"@,
            Level::Info => "INFO"@,
            Level::Debug => "DEBUG"@,
            Level::Trace => "TRACE"@,
        }
    }

    /// The verbosity rank as a number.
    pub fn verbosity(&self) -> (r: u8)
        ensures
            r as int == self.rank(),
    {
        match self {
            Level::Error => 1,
            Level::Warn => 2,
            Level::Info => 3,
            Level::Debug => 4,
            Level::Trace => 5,
        }
    }

    /// The canonical upper-case name of the level.
    pub fn as_str(&self) -> (r: &'static str)
        ensures
            r@ == self.spec_name(),
    {
        match self {
            Level::Error => "ERROR",
            Level::Warn => "WARN",
            Level::Info => "INFO",
            Level::Debug => "DEBUG",
            Level::Trace => "TRACE",
        }
    }
}

/// Two levels of the same rank are the same level.
pub proof fn lemma_rank_injective(a: Level, b: Level)
    ensures
        a.rank() == b.rank() <==> a == b,
{
}

/// The level whose name matches `s` up to ASCII case, if any.
pub open spec fn level_named(s: Seq<char>) -> Option<Level> {
    if seq_ascii_case_eq(s, "ERROR"@) {
        Some(Level::Error)
    } else if seq_ascii_case_eq(s, "WARN"@) {
        Some(Level::Warn)
    } else if seq_ascii_case_eq(s, "INFO"@) {
        Some(Level::Info)
    } else if seq_ascii_case_eq(s, "DEBUG"@) {
        Some(Level::Debug)
    } else if seq_ascii_case_eq(s, "TRACE"@) {
        Some(Level::Trace)
    } else {
        None
    }
}

/// Relies on `log::Level::from_str`: it returns the first of the names
/// ERROR, WARN, INFO, DEBUG, TRACE that matches `s` up to ASCII case
/// (`str::eq_ignore_ascii_case`), and an error when none does.
#[verifier::external_body]
fn parse_log_level(s: &str) -> (r: Option<Level>)
    ensures
        r == level_named(s@),
{
    match log::Level::from_str(s) {
        Ok(log::Level::Error) => Some(Level::Error),
        Ok(log::Level::Warn) => Some(Level::Warn),
        Ok(log::Level::Info) => Some(Level::Info),
        Ok(log::Level::Debug) => Some(Level::Debug),
        Ok(log::Level::Trace) => Some(Level::Trace),
        Err(_) => None,
    }
}

impl Level {
    /// Parses a level name (trace, debug, info, warn or error) in any ASCII
    /// case.
    pub fn from_name(s: &str) -> (r: Option<Level>)
        ensures
            r == level_named(s@),
    {
        parse_log_level(s)
    }
}

impl FromStr for Level {
    type Err = Error;

    fn from_str(s: &str) -> (r: Result<Level, Error>)
        ensures
            match r {
                Ok(l) => level_named(s@) == Some(l),
                Err(e) => level_named(s@) is None && e.spec_kind() == ErrorKind::InvParam,
            },
    {
        match Level::from_name(s) {
            Some(l) => Ok(l),
            None => Err(Error::with_context(ErrorKind::InvParam, "Invalid log level")),
        }
    }
}

} // verus!
