//! The closed, string-encoded enumerations of the settings schema.
//!
//! `Theme` and `LogLevel` are persisted as their canonical lowercase strings.
//! Parsing is strict: only an exact, case-sensitive match against a canonical
//! string succeeds; anything else is a data-integrity error carrying the
//! offending text. Formatting is total and is a left inverse of parsing.

use vstd::prelude::*;
use vstd::string::StrSliceExecFns;

use crate::error::DbError;

verus! {

/// UI theme preference.
#[derive(Debug, Clone, Copy, PartialEq, Eq)]
pub enum Theme {
    Light,
    Dark,
    System,
}

/// Log verbosity preference.
#[derive(Debug, Clone, Copy, PartialEq, Eq)]
pub enum LogLevel {
    Error,
    Warn,
    Info,
    Debug,
    Trace,
}

/// The canonical stored string of a theme.
pub open spec fn theme_str(t: Theme) -> Seq<char> {
    match t {
        Theme::Light => "light"@,
        Theme::Dark => "dark"@,
        Theme::System => "system"@,
    }
}

/// The theme a stored string parses to, if it is canonical.
pub open spec fn parse_theme(s: Seq<char>) -> Option<Theme> {
    if s == "light"@ {
        Some(Theme::Light)
    } else if s == "dark"@ {
        Some(Theme::Dark)
    } else if s == "system"@ {
        Some(Theme::System)
    } else {
        None
    }
}

/// The canonical stored string of a log level.
pub open spec fn level_str(l: LogLevel) -> Seq<char> {
    match l {
        LogLevel::Error => "error"@,
        LogLevel::Warn => "warn"@,
        LogLevel::Info => "info"@,
        LogLevel::Debug => "debug"@,
        LogLevel::Trace => "trace"@,
    }
}

/// The log level a stored string parses to, if it is canonical.
pub open spec fn parse_level(s: Seq<char>) -> Option<LogLevel> {
    if s == "error"@ {
        Some(LogLevel::Error)
    } else if s == "warn"@ {
        Some(LogLevel::Warn)
    } else if s == "info"@ {
        Some(LogLevel::Info)
    } else if s == "debug"@ {
        Some(LogLevel::Debug)
    } else if s == "trace"@ {
        Some(LogLevel::Trace)
    } else {
        None
    }
}

/// Character-wise string comparison, so that equality of the views is decided
/// in executable code.
fn str_eq(a: &str, b: &str) -> (r: bool)
    ensures
        r == (a@ == b@),
{
    let alen = a.unicode_len();
    let blen = b.unicode_len();
    if alen != blen {
        return false;
    }
    let mut i: usize = 0;
    while i < alen
        invariant
            alen == a@.len(),
            blen == b@.len(),
            alen == blen,
            i <= alen,
            forall|j: int| 0 <= j < i ==> a@[j] == b@[j],
        decreases alen - i,
    {
        if a.get_char(i) != b.get_char(i) {
            return false;
        }
        i = i + 1;
    }
    proof {
        assert(a@ =~= b@);
    }
    true
}

impl Theme {
    /// Format this theme as its canonical stored string.
    pub fn as_str(&self) -> (r: &'static str)
        ensures
            r@ == theme_str(*self),
    {
        match self {
            Theme::Light => "light",
            Theme::Dark => "dark",
            Theme::System => "system",
        }
    }

    /// Parse a stored string strictly: exactly the canonical strings succeed,
    /// and any other input fails with `InvalidData` carrying that input.
    pub fn from_str(s: &str) -> (r: Result<Theme, DbError>)
        ensures
            match r {
                Ok(t) => parse_theme(s@) == Some(t),
                Err(e) => parse_theme(s@) is None && (e matches DbError::InvalidData(m)
                    && m@ == s@),
            },
    {
        if str_eq(s, "light") {
            Ok(Theme::Light)
        } else if str_eq(s, "dark") {
            Ok(Theme::Dark)
        } else if str_eq(s, "system") {
            Ok(Theme::System)
        } else {
            Err(DbError::InvalidData(s.to_owned()))
        }
    }
}

impl LogLevel {
    /// Format this log level as its canonical stored string.
    pub fn as_str(&self) -> (r: &'static str)
        ensures
            r@ == level_str(*self),
    {
        match self {
            LogLevel::Error => "error",
            LogLevel::Warn => "warn",
            LogLevel::Info => "info",
            LogLevel::Debug => "debug",
            LogLevel::Trace => "trace",
        }
    }

    /// Parse a stored string strictly: exactly the canonical strings succeed,
    /// and any other input fails with `InvalidData` carrying that input.
    pub fn from_str(s: &str) -> (r: Result<LogLevel, DbError>)
        ensures
            match r {
                Ok(l) => parse_level(s@) == Some(l),
                Err(e) => parse_level(s@) is None && (e matches DbError::InvalidData(m)
                    && m@ == s@),
            },
    {
        if str_eq(s, "error") {
            Ok(LogLevel::Error)
        } else if str_eq(s, "warn") {
            Ok(LogLevel::Warn)
        } else if str_eq(s, "info") {
            Ok(LogLevel::Info)
        } else if str_eq(s, "debug") {
            Ok(LogLevel::Debug)
        } else if str_eq(s, "trace") {
            Ok(LogLevel::Trace)
        } else {
            Err(DbError::InvalidData(s.to_owned()))
        }
    }
}

/// Law: formatting a theme and parsing the result gives the theme back.
pub proof fn lemma_theme_round_trip(t: Theme)
    ensures
        parse_theme(theme_str(t)) == Some(t),
{
    reveal_strlit("light");
    reveal_strlit("dark");
    reveal_strlit("system");
    assert("light"@.len() == 5);
    assert("dark"@.len() == 4);
    assert("system"@.len() == 6);
}

/// Law: formatting a log level and parsing the result gives the level back.
pub proof fn lemma_level_round_trip(l: LogLevel)
    ensures
        parse_level(level_str(l)) == Some(l),
{
    reveal_strlit("error");
    reveal_strlit("warn");
    reveal_strlit("info");
    reveal_strlit("debug");
    reveal_strlit("trace");
    assert("error"@.len() == 5);
    assert("warn"@.len() == 4);
    assert("info"@.len() == 4);
    assert("debug"@.len() == 5);
    assert("trace"@.len() == 5);
    assert("error"@[0] == 'e');
    assert("warn"@[0] == 'w');
    assert("info"@[0] == 'i');
    assert("debug"@[0] == 'd');
    assert("trace"@[0] == 't');
}

/// Law: the set of strings a theme parses from is closed; exactly the three
/// canonical strings parse.
pub proof fn lemma_parse_theme_closed(s: Seq<char>)
    ensures
        parse_theme(s) is Some <==> (s == theme_str(Theme::Light) || s == theme_str(Theme::Dark)
            || s == theme_str(Theme::System)),
{
}

/// Law: the set of strings a log level parses from is closed; exactly the
/// five canonical strings parse.
pub proof fn lemma_parse_level_closed(s: Seq<char>)
    ensures
        parse_level(s) is Some <==> (s == level_str(LogLevel::Error) || s == level_str(
            LogLevel::Warn,
        ) || s == level_str(LogLevel::Info) || s == level_str(LogLevel::Debug) || s == level_str(
            LogLevel::Trace,
        )),
{
}

} // verus!
