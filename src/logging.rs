//! Messages handed to the application's log, each with its severity.

use vstd::prelude::*;

verus! {

/// How severe a logged message is.
#[derive(Clone, Copy, Debug, PartialEq, Eq)]
pub enum Level {
    Error,
    Warn,
    Info,
    Debug,
    Trace,
}

/// One message for the log.
#[derive(Clone, Debug)]
pub struct LogRecord {
    pub level: Level,
    pub message: String,
}

/// `message` as an informational record.
pub fn info(message: String) -> (r: LogRecord)
    ensures
        r.level == Level::Info,
        r.message@ == message@,
{
    LogRecord { level: Level::Info, message }
}

/// `message` as a warning.
pub fn warn(message: String) -> (r: LogRecord)
    ensures
        r.level == Level::Warn,
        r.message@ == message@,
{
    LogRecord { level: Level::Warn, message }
}

/// `message` as an error.
pub fn error(message: String) -> (r: LogRecord)
    ensures
        r.level == Level::Error,
        r.message@ == message@,
{
    LogRecord { level: Level::Error, message }
}

/// Messages that start so are expected under load and are not counted as severe.
pub const IGNORED_SEVERE_PREFIX: &'static str =
    "slow statement: execution time exceeded alert threshold";

/// Errors and warnings are severe.
pub open spec fn is_severe(level: Level) -> bool {
    level == Level::Error || level == Level::Warn
}

/// Whether `s` begins with `prefix`.
pub open spec fn has_prefix(s: Seq<char>, prefix: Seq<char>) -> bool {
    prefix.len() <= s.len() && s.subrange(0, prefix.len() as int) == prefix
}

/// Whether `s` begins with `prefix`.
pub fn starts_with(s: &str, prefix: &str) -> (r: bool)
    ensures
        r == has_prefix(s@, prefix@),
{
    let n = prefix.unicode_len();
    let m = s.unicode_len();
    if n > m {
        return false;
    }
    let mut i: usize = 0;
    while i < n
        invariant
            i <= n,
            n == prefix@.len(),
            n <= m,
            m == s@.len(),
            forall|j: int| 0 <= j < i ==> s@[j] == prefix@[j],
        decreases n - i,
    {
        if s.get_char(i) != prefix.get_char(i) {
            assert(s@.subrange(0, n as int)[i as int] != prefix@[i as int]);
            return false;
        }
        i = i + 1;
    }
    assert(s@.subrange(0, n as int) =~= prefix@);
    true
}

/// Whether a logged message counts among the severe messages a test checks:
/// an error or a warning, unless it is an expected slow-statement notice.
pub fn counts_as_severe(level: Level, message: &str) -> (r: bool)
    ensures
        r == (is_severe(level) && !has_prefix(message@, IGNORED_SEVERE_PREFIX@)),
{
    match level {
        Level::Error | Level::Warn => !starts_with(message, IGNORED_SEVERE_PREFIX),
        _ => false,
    }
}

} // verus!
