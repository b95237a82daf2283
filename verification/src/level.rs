//! Log level definitions and utilities.

use vstd::prelude::*;
use vstd::string::*;

use crate::error::Error;
use crate::strings::Color;
use crate::strings::Colorize;
use crate::strings::reset_seq;

verus! {

/// Logging severity levels in ascending order of importance.
///
/// The levels follow the common convention:
/// - `Trace`: very detailed information, typically only needed when
///   debugging specific issues
/// - `Debug`: detailed information useful for debugging
/// - `Info`: general information about application progress
/// - `Warn`: potentially harmful situations that might need attention
/// - `Error`: error events that might still allow the application to
///   continue running
/// - `Fatal`: error events that lead to application termination
#[derive(Debug, Clone, Copy, PartialEq, Eq, PartialOrd, Ord, Hash, Structural)]
pub enum LogLevel {
    /// Very detailed information for debugging specific issues
    Trace,
    /// Detailed information useful for debugging
    Debug,
    /// General information about application progress
    Info,
    /// Potentially harmful situations
    Warn,
    /// Error events that could still allow the application to continue
    Error,
    /// Fatal error events that lead to application termination
    Fatal,
}

/// The character `u`, lowered if it is an ASCII capital letter, as its
/// scalar value.
pub open spec fn lower_scalar(u: u32) -> int {
    if 65 <= u <= 90 {
        u + 32
    } else {
        u as int
    }
}

/// Whether `a` and `b` are the same character up to ASCII case.
pub open spec fn chars_eq_ci(a: char, b: char) -> bool {
    lower_scalar(a as u32) == lower_scalar(b as u32)
}

/// Whether `a` and `b` are the same text up to ASCII case.
pub open spec fn str_eq_ci(a: Seq<char>, b: Seq<char>) -> bool {
    a.len() == b.len() && forall|i: int| 0 <= i < a.len() ==> chars_eq_ci(a[i], b[i])
}

/// Whether `a` and `b` hold the same characters up to ASCII case.
fn eq_ignore_case(a: &str, b: &str) -> (r: bool)
    ensures
        r == str_eq_ci(a@, b@),
{
    let n = a.unicode_len();
    if n != b.unicode_len() {
        return false;
    }
    let mut i: usize = 0;
    while i < n
        invariant
            i <= n,
            n == a@.len(),
            n == b@.len(),
            forall|j: int| 0 <= j < i ==> chars_eq_ci(a@[j], b@[j]),
        decreases n - i,
    {
        let ua = a.get_char(i) as u32;
        let ub = b.get_char(i) as u32;
        let la = if 65 <= ua && ua <= 90 {
            ua + 32
        } else {
            ua
        };
        let lb = if 65 <= ub && ub <= 90 {
            ub + 32
        } else {
            ub
        };
        if la != lb {
            return false;
        }
        i += 1;
    }
    true
}

impl LogLevel {
    /// The position of this level on the ascending severity scale,
    /// starting from zero.
    pub open spec fn as_int(self) -> int {
        match self {
            LogLevel::Trace => 0,
            LogLevel::Debug => 1,
            LogLevel::Info => 2,
            LogLevel::Warn => 3,
            LogLevel::Error => 4,
            LogLevel::Fatal => 5,
        }
    }

    /// The upper-case name of this level.
    pub open spec fn name_seq(self) -> Seq<char> {
        match self {
            LogLevel::Trace => "TRACE"@,
            LogLevel::Debug => "DEBUG"@,
            LogLevel::Info => "INFO"@,
            LogLevel::Warn => "WARN"@,
            LogLevel::Error => "ERROR"@,
            LogLevel::Fatal => "FATAL"@,
        }
    }

    /// The color conventionally associated with this level.
    pub open spec fn level_color(self) -> Color {
        match self {
            LogLevel::Trace => Color::Cyan,
            LogLevel::Debug => Color::Blue,
            LogLevel::Info => Color::Green,
            LogLevel::Warn => Color::Yellow,
            LogLevel::Error => Color::Red,
            LogLevel::Fatal => Color::BrightRed,
        }
    }

    /// The name of this level wrapped in the ANSI sequences for its color.
    pub open spec fn colored_name_seq(self) -> Seq<char> {
        self.level_color().fg_seq() + self.name_seq() + reset_seq()
    }

    /// The result of parsing `s` as a level name, ignoring ASCII case:
    /// the matching level, or `Error::ParseLogLevel` when `s` names none.
    pub open spec fn parse_spec(s: Seq<char>) -> Result<LogLevel, Error> {
        if str_eq_ci(s, "trace"@) {
            Ok(LogLevel::Trace)
        } else if str_eq_ci(s, "debug"@) {
            Ok(LogLevel::Debug)
        } else if str_eq_ci(s, "info"@) {
            Ok(LogLevel::Info)
        } else if str_eq_ci(s, "warn"@) {
            Ok(LogLevel::Warn)
        } else if str_eq_ci(s, "error"@) {
            Ok(LogLevel::Error)
        } else if str_eq_ci(s, "fatal"@) {
            Ok(LogLevel::Fatal)
        } else {
            Err(Error::ParseLogLevel)
        }
    }

    /// The small-integer encoding of this level, `0` for `Trace` up to
    /// `5` for `Fatal`.
    pub fn to_u8(self) -> (r: u8)
        ensures
            r as int == self.as_int(),
    {
        match self {
            LogLevel::Trace => 0,
            LogLevel::Debug => 1,
            LogLevel::Info => 2,
            LogLevel::Warn => 3,
            LogLevel::Error => 4,
            LogLevel::Fatal => 5,
        }
    }

    /// The level encoded by `value`, or `Error::ParseLogLevel` when
    /// `value` is out of range.
    pub fn from_u8(value: u8) -> (r: Result<LogLevel, Error>)
        ensures
            value <= 5 ==> (r matches Ok(l) && l.as_int() == value as int),
            value > 5 ==> r == Err::<LogLevel, Error>(Error::ParseLogLevel),
    {
        match value {
            0 => Ok(LogLevel::Trace),
            1 => Ok(LogLevel::Debug),
            2 => Ok(LogLevel::Info),
            3 => Ok(LogLevel::Warn),
            4 => Ok(LogLevel::Error),
            5 => Ok(LogLevel::Fatal),
            _ => Err(Error::ParseLogLevel),
        }
    }

    /// Whether this level is at most `other` on the severity scale.
    pub fn le(self, other: LogLevel) -> (r: bool)
        ensures
            r == (self.as_int() <= other.as_int()),
    {
        self.to_u8() <= other.to_u8()
    }

    /// The upper-case name of this level.
    pub fn as_str(&self) -> (r: &'static str)
        ensures
            r@ == self.name_seq(),
    {
        match self {
            LogLevel::Trace => "TRACE",
            LogLevel::Debug => "DEBUG",
            LogLevel::Info => "INFO",
            LogLevel::Warn => "WARN",
            LogLevel::Error => "ERROR",
            LogLevel::Fatal => "FATAL",
        }
    }

    /// The level's name with its conventional color applied:
    /// cyan for `Trace`, blue for `Debug`, green for `Info`, yellow for
    /// `Warn`, red for `Error` and bright red for `Fatal`.
    pub fn default_coloring(&self) -> (r: String)
        ensures
            r@ == self.colored_name_seq(),
    {
        let color = match self {
            LogLevel::Trace => Color::Cyan,
            LogLevel::Debug => Color::Blue,
            LogLevel::Info => Color::Green,
            LogLevel::Warn => Color::Yellow,
            LogLevel::Error => Color::Red,
            LogLevel::Fatal => Color::BrightRed,
        };
        self.as_str().color(color)
    }

    /// Parses a level from its name, ignoring ASCII case, as
    /// `LogLevel::parse_spec` describes.
    pub fn from_str(s: &str) -> (r: Result<LogLevel, Error>)
        ensures
            r == LogLevel::parse_spec(s@),
    {
        if eq_ignore_case(s, "trace") {
            Ok(LogLevel::Trace)
        } else if eq_ignore_case(s, "debug") {
            Ok(LogLevel::Debug)
        } else if eq_ignore_case(s, "info") {
            Ok(LogLevel::Info)
        } else if eq_ignore_case(s, "warn") {
            Ok(LogLevel::Warn)
        } else if eq_ignore_case(s, "error") {
            Ok(LogLevel::Error)
        } else if eq_ignore_case(s, "fatal") {
            Ok(LogLevel::Fatal)
        } else {
            Err(Error::ParseLogLevel)
        }
    }
}

impl LogLevel {
    /// A level's name holds no escape characters: stripping leaves it
    /// unchanged and outside any escape sequence.
    pub proof fn lemma_name_strips_plain(self)
        ensures
            crate::util::strip_rec(self.name_seq(), false) == self.name_seq(),
            crate::util::escape_after(self.name_seq(), false) == false,
    {
        reveal_with_fuel(crate::util::strip_rec, 7);
        reveal_with_fuel(crate::util::escape_after, 7);
        match self {
            LogLevel::Trace => {
                reveal_strlit("TRACE");
                assert(crate::util::strip_rec("TRACE"@, false) =~= "TRACE"@);
            },
            LogLevel::Debug => {
                reveal_strlit("DEBUG");
                assert(crate::util::strip_rec("DEBUG"@, false) =~= "DEBUG"@);
            },
            LogLevel::Info => {
                reveal_strlit("INFO");
                assert(crate::util::strip_rec("INFO"@, false) =~= "INFO"@);
            },
            LogLevel::Warn => {
                reveal_strlit("WARN");
                assert(crate::util::strip_rec("WARN"@, false) =~= "WARN"@);
            },
            LogLevel::Error => {
                reveal_strlit("ERROR");
                assert(crate::util::strip_rec("ERROR"@, false) =~= "ERROR"@);
            },
            LogLevel::Fatal => {
                reveal_strlit("FATAL");
                assert(crate::util::strip_rec("FATAL"@, false) =~= "FATAL"@);
            },
        }
    }

    /// Stripping the colored rendering of a level's name yields the bare
    /// name: the color and reset sequences vanish.
    pub proof fn lemma_colored_name_strips(self)
        ensures
            crate::util::strip_rec(self.colored_name_seq(), false) == self.name_seq(),
            crate::util::escape_after(self.colored_name_seq(), false) == false,
    {
        let fg = self.level_color().fg_seq();
        let name = self.name_seq();
        let reset = reset_seq();
        self.level_color().lemma_fg_seq_strips_away();
        self.lemma_name_strips_plain();
        crate::strings::lemma_reset_strips_away();
        assert(self.colored_name_seq() =~= fg + (name + reset));
        crate::util::lemma_strip_rec_concat(fg, name + reset, false);
        crate::util::lemma_escape_after_concat(fg, name + reset, false);
        crate::util::lemma_strip_rec_concat(name, reset, false);
        crate::util::lemma_escape_after_concat(name, reset, false);
        assert(crate::util::strip_rec(self.colored_name_seq(), false) =~= name);
    }
}

/// Parsing from a string, for callers that expect the standard trait;
/// `LogLevel::from_str` carries the contract.
impl core::str::FromStr for LogLevel {
    type Err = Error;

    fn from_str(s: &str) -> Result<LogLevel, Error> {
        LogLevel::from_str(s)
    }
}

/// The default log level is `Info`.
impl Default for LogLevel {
    fn default() -> (r: Self)
        ensures
            r == LogLevel::Info,
    {
        LogLevel::Info
    }
}

} // verus!
