//! Log-level bookkeeping for the surrounding program.
//!
//! The level is held in an explicit context value owned by the caller
//! rather than in process-wide mutable state, and is stored as its
//! numeric severity code, exactly as a one-byte cell would hold it.

use vstd::prelude::*;

verus! {

/// A log level, from the most severe to the most verbose.
#[derive(Clone, Copy, Debug, PartialEq, Eq, Structural)]
pub enum LogLevel {
    Error,
    Warn,
    Info,
    Debug,
    Trace,
}

/// The numeric severity code of a level: `Error` is 0, `Trace` is 4. A
/// message is logged when its level's code is at most the current one.
pub open spec fn spec_level_code(level: LogLevel) -> u8 {
    match level {
        LogLevel::Error => 0,
        LogLevel::Warn => 1,
        LogLevel::Info => 2,
        LogLevel::Debug => 3,
        LogLevel::Trace => 4,
    }
}

/// The level a stored code decodes to; an out-of-range code falls back
/// to `Info`.
pub open spec fn spec_decode_level(code: u8) -> LogLevel {
    if code == 0 {
        LogLevel::Error
    } else if code == 1 {
        LogLevel::Warn
    } else if code == 2 {
        LogLevel::Info
    } else if code == 3 {
        LogLevel::Debug
    } else if code == 4 {
        LogLevel::Trace
    } else {
        LogLevel::Info
    }
}

/// The code a character folds to under ASCII lowercasing: an upper-case
/// ASCII letter becomes its lower-case counterpart, everything else is
/// itself.
pub open spec fn spec_fold_char(c: char) -> int {
    if 65 <= c as u32 && c as u32 <= 90 {
        c as u32 + 32
    } else {
        c as u32 as int
    }
}

/// Whether `s` is `word` up to ASCII case, `word` being lower-case
/// already.
pub open spec fn folds_to(s: Seq<char>, word: Seq<char>) -> bool {
    s.len() == word.len() && forall|i: int|
        0 <= i < s.len() ==> spec_fold_char(s[i]) == #[trigger] word[i] as u32
}

/// Which level a name designates, compared ASCII-case-insensitively;
/// `warn` and `warning` both name `Warn`.
pub open spec fn spec_parse_level(s: Seq<char>) -> Option<LogLevel> {
    if folds_to(s, "error"@) {
        Some(LogLevel::Error)
    } else if folds_to(s, "warn"@) || folds_to(s, "warning"@) {
        Some(LogLevel::Warn)
    } else if folds_to(s, "info"@) {
        Some(LogLevel::Info)
    } else if folds_to(s, "debug"@) {
        Some(LogLevel::Debug)
    } else if folds_to(s, "trace"@) {
        Some(LogLevel::Trace)
    } else {
        None
    }
}

/// Compare `s` with a lower-case word, folding upper-case ASCII letters
/// of `s` down.
fn eq_folded(s: &str, word: &str) -> (r: bool)
    ensures
        r == folds_to(s@, word@),
{
    let n = s.unicode_len();
    if n != word.unicode_len() {
        return false;
    }
    for i in 0..n
        invariant
            n == s@.len(),
            n == word@.len(),
            forall|j: int| 0 <= j < i ==> spec_fold_char(s@[j]) == #[trigger] word@[j] as u32,
    {
        let sc = s.get_char(i) as u32;
        let wc = word.get_char(i) as u32;
        let folded: u32 = if 65 <= sc && sc <= 90 {
            sc + 32
        } else {
            sc
        };
        if folded != wc {
            return false;
        }
    }
    true
}

impl LogLevel {
    /// Parse a level name, ASCII-case-insensitively. `warn` and
    /// `warning` both parse to `Warn`; an unknown name parses to
    /// `None`.
    pub fn from_str(s: &str) -> (level: Option<LogLevel>)
        ensures
            level == spec_parse_level(s@),
    {
        if eq_folded(s, "error") {
            Some(LogLevel::Error)
        } else if eq_folded(s, "warn") || eq_folded(s, "warning") {
            Some(LogLevel::Warn)
        } else if eq_folded(s, "info") {
            Some(LogLevel::Info)
        } else if eq_folded(s, "debug") {
            Some(LogLevel::Debug)
        } else if eq_folded(s, "trace") {
            Some(LogLevel::Trace)
        } else {
            None
        }
    }

    /// The level's display name.
    pub fn name(&self) -> (name: &'static str)
        ensures
            self is Error ==> name@ == "ERROR"@,
            self is Warn ==> name@ == "WARN"@,
            self is Info ==> name@ == "INFO"@,
            self is Debug ==> name@ == "DEBUG"@,
            self is Trace ==> name@ == "TRACE"@,
    {
        match self {
            LogLevel::Error => "ERROR",
            LogLevel::Warn => "WARN",
            LogLevel::Info => "INFO",
            LogLevel::Debug => "DEBUG",
            LogLevel::Trace => "TRACE",
        }
    }
}

/// The current log level of one session, as its stored severity code.
pub struct LogContext {
    /// The code of the current level; see [`spec_level_code`].
    pub level_code: u8,
}

impl LogContext {
    /// A fresh context at the default level, `Info`.
    pub fn new() -> (ctx: LogContext)
        ensures
            ctx.level_code == spec_level_code(LogLevel::Info),
    {
        LogContext { level_code: 2 }
    }
}

/// Store `level` as the current one. Decoding the stored code always
/// gives `level` back.
pub fn set_log_level(ctx: &mut LogContext, level: LogLevel)
    ensures
        final(ctx).level_code == spec_level_code(level),
        spec_decode_level(final(ctx).level_code) == level,
{
    ctx.level_code = match level {
        LogLevel::Error => 0,
        LogLevel::Warn => 1,
        LogLevel::Info => 2,
        LogLevel::Debug => 3,
        LogLevel::Trace => 4,
    };
}

/// The current level, decoded from the stored code; an out-of-range
/// code reads as `Info`.
pub fn get_log_level(ctx: &LogContext) -> (level: LogLevel)
    ensures
        level == spec_decode_level(ctx.level_code),
{
    match ctx.level_code {
        0 => LogLevel::Error,
        1 => LogLevel::Warn,
        2 => LogLevel::Info,
        3 => LogLevel::Debug,
        4 => LogLevel::Trace,
        _ => LogLevel::Info,
    }
}

/// Whether a message at `level` should be logged under `ctx`: its
/// severity code is at most the current one.
pub fn should_log(ctx: &LogContext, level: LogLevel) -> (r: bool)
    ensures
        r == (spec_level_code(level) <= ctx.level_code),
{
    let code: u8 = match level {
        LogLevel::Error => 0,
        LogLevel::Warn => 1,
        LogLevel::Info => 2,
        LogLevel::Debug => 3,
        LogLevel::Trace => 4,
    };
    code <= ctx.level_code
}

} // verus!
