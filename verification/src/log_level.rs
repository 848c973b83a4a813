//! Resolution of the level at which the server logs.

use vstd::prelude::*;
use vstd::string::StrSliceExecFns;

verus! {

/// The verbosity levels the server can log at.
#[derive(Debug, Clone, Copy, PartialEq, Eq, Structural)]
pub enum LogLevel {
    Trace,
    Debug,
    Info,
    Warn,
    Error,
}

/// A log level that could not be parsed; `message` is what the user is told.
#[derive(Debug, Clone, PartialEq, Eq)]
pub struct LogLevelError {
    pub message: String,
}

impl LogLevelError {
    /// The text of the error.
    pub fn to_string(&self) -> (s: String)
        ensures
            s@ == self.message@,
    {
        self.message.clone()
    }
}

/// The code of a character once ASCII upper-case letters are lowered.
pub open spec fn ascii_lower(c: char) -> int {
    if 'A' <= c && c <= 'Z' {
        (c as int) + 32
    } else {
        c as int
    }
}

/// Equality of two texts up to ASCII case.
pub open spec fn eq_ignore_ascii_case(s: Seq<char>, t: Seq<char>) -> bool {
    &&& s.len() == t.len()
    &&& forall|i: int| 0 <= i < s.len() ==> ascii_lower(#[trigger] s[i]) == ascii_lower(t[i])
}

pub open spec fn is_ascii_digit(c: char) -> bool {
    '0' <= c && c <= '9'
}

pub open spec fn all_ascii_digits(d: Seq<char>) -> bool {
    forall|i: int| 0 <= i < d.len() ==> is_ascii_digit(#[trigger] d[i])
}

/// The value of a text of decimal digits.
pub open spec fn digits_value(d: Seq<char>) -> int
    decreases d.len(),
{
    if d.len() == 0 {
        0
    } else {
        digits_value(d.drop_last()) * 10 + ((d.last() as u32) - ('0' as u32))
    }
}

/// The digits of an unsigned decimal number: an optional `+`, then digits.
pub open spec fn unsigned_digits(s: Seq<char>) -> Seq<char> {
    if s.len() > 0 && s[0] == '+' {
        s.drop_first()
    } else {
        s
    }
}

/// Whether `s` is written as an unsigned decimal number: an optional `+`
/// followed by at least one ASCII digit.
pub open spec fn is_unsigned_numeral(s: Seq<char>) -> bool {
    let d = unsigned_digits(s);
    &&& d.len() > 0
    &&& all_ascii_digits(d)
}

/// Whether `s` is an unsigned decimal number with value `n`.
pub open spec fn is_number(s: Seq<char>, n: int) -> bool {
    &&& is_unsigned_numeral(s)
    &&& digits_value(unsigned_digits(s)) == n
}

/// The level a text names: one of `trace`, `debug`, `info`, `warn` and
/// `error`, in any ASCII case. These are the values the server accepts.
pub open spec fn spec_level_name(s: Seq<char>) -> Option<LogLevel> {
    if eq_ignore_ascii_case(s, "error"@) {
        Some(LogLevel::Error)
    } else if eq_ignore_ascii_case(s, "warn"@) {
        Some(LogLevel::Warn)
    } else if eq_ignore_ascii_case(s, "info"@) {
        Some(LogLevel::Info)
    } else if eq_ignore_ascii_case(s, "debug"@) {
        Some(LogLevel::Debug)
    } else if eq_ignore_ascii_case(s, "trace"@) {
        Some(LogLevel::Trace)
    } else {
        None
    }
}

/// What `tracing::Level::from_str` makes of a text: one of the numbers 1
/// (error) to 5 (trace), or else a level name in any ASCII case.
pub open spec fn spec_parse_level(s: Seq<char>) -> Option<LogLevel> {
    if is_number(s, 1) {
        Some(LogLevel::Error)
    } else if is_number(s, 2) {
        Some(LogLevel::Warn)
    } else if is_number(s, 3) {
        Some(LogLevel::Info)
    } else if is_number(s, 4) {
        Some(LogLevel::Debug)
    } else if is_number(s, 5) {
        Some(LogLevel::Trace)
    } else {
        spec_level_name(s)
    }
}

/// The description `tracing` gives of a text it cannot parse as a level.
pub open spec fn spec_parse_error_text() -> Seq<char> {
    "error parsing level: expected one of \"error\", \"warn\", \"info\", \"debug\", \"trace\", or a number 1-5"@
}

/// The description of a level written as a number, which the server does
/// not accept.
pub open spec fn spec_numeral_refusal_text() -> Seq<char> {
    "numeric levels are not accepted; expected one of \"trace\", \"debug\", \"info\", \"warn\", \"error\""@
}

/// Parses a level with `tracing::Level::from_str`, which accepts a number
/// from 1 to 5 (optionally signed with `+`) or a level name in any ASCII
/// case. The contract states that rule; on refusal the text of
/// `tracing_core::metadata::ParseLevelError` is handed back.
#[verifier::external_body]
fn parse_level(s: &str) -> (r: Result<LogLevel, String>)
    ensures
        r matches Ok(l) ==> spec_parse_level(s@) == Some(l),
        r matches Err(m) ==> spec_parse_level(s@) is None && m@ == spec_parse_error_text(),
{
    match s.parse::<tracing::Level>() {
        Ok(level) => match level {
            tracing::Level::TRACE => Ok(LogLevel::Trace),
            tracing::Level::DEBUG => Ok(LogLevel::Debug),
            tracing::Level::INFO => Ok(LogLevel::Info),
            tracing::Level::WARN => Ok(LogLevel::Warn),
            _ => Ok(LogLevel::Error),
        },
        Err(e) => Err(e.to_string()),
    }
}

/// A text that starts with a lower-case ASCII letter, up to case, is no
/// number.
proof fn lemma_letter_start_is_no_numeral(s: Seq<char>, name: Seq<char>)
    requires
        eq_ignore_ascii_case(s, name),
        name.len() > 0,
        'a' <= name[0] && name[0] <= 'z',
    ensures
        !is_unsigned_numeral(s),
{
    assert(ascii_lower(s[0]) == ascii_lower(name[0]));
    if s[0] != '+' {
        assert(unsigned_digits(s)[0] == s[0]);
    }
}

/// A level name is never written as a number.
proof fn lemma_level_names_are_no_numerals(s: Seq<char>)
    requires
        spec_level_name(s) is Some,
    ensures
        !is_unsigned_numeral(s),
{
    reveal_strlit("error");
    reveal_strlit("warn");
    reveal_strlit("info");
    reveal_strlit("debug");
    reveal_strlit("trace");
    if eq_ignore_ascii_case(s, "error"@) {
        lemma_letter_start_is_no_numeral(s, "error"@);
    } else if eq_ignore_ascii_case(s, "warn"@) {
        lemma_letter_start_is_no_numeral(s, "warn"@);
    } else if eq_ignore_ascii_case(s, "info"@) {
        lemma_letter_start_is_no_numeral(s, "info"@);
    } else if eq_ignore_ascii_case(s, "debug"@) {
        lemma_letter_start_is_no_numeral(s, "debug"@);
    } else {
        lemma_letter_start_is_no_numeral(s, "trace"@);
    }
}

/// Whether `s` is written as an unsigned decimal number.
fn is_numeral(s: &str) -> (b: bool)
    ensures
        b == is_unsigned_numeral(s@),
{
    let n = s.unicode_len();
    if n == 0 {
        return false;
    }
    let start: usize = if s.get_char(0) == '+' { 1 } else { 0 };
    if start == n {
        assert(unsigned_digits(s@).len() == 0);
        return false;
    }
    let ghost d = unsigned_digits(s@);
    assert(d.len() == n - start);
    assert(forall|k: int| 0 <= k < d.len() ==> d[k] == s@[k + start]);
    let mut i: usize = start;
    while i < n
        invariant
            n == s@.len(),
            start <= i <= n,
            d == unsigned_digits(s@),
            d.len() == n - start,
            forall|k: int| 0 <= k < d.len() ==> d[k] == s@[k + start],
            forall|k: int| start <= k < i ==> is_ascii_digit(#[trigger] s@[k]),
        decreases n - i,
    {
        let c = s.get_char(i);
        if !('0' <= c && c <= '9') {
            assert(!is_ascii_digit(d[i - start]));
            return false;
        }
        i = i + 1;
    }
    assert forall|k: int| 0 <= k < d.len() implies is_ascii_digit(#[trigger] d[k]) by {
        assert(is_ascii_digit(s@[k + start]));
    }
    true
}

/// The level text the server uses: the command-line value if given, else
/// the value of the environment's `RUST_LOG`, else `info`.
pub open spec fn spec_level_text(cli_arg: Option<String>, env_value: Option<String>) -> Seq<char> {
    match cli_arg {
        Some(s) => s@,
        None => match env_value {
            Some(e) => e@,
            None => "info"@,
        },
    }
}

/// Resolves the log level from the command-line argument and the value of
/// the `RUST_LOG` environment variable (`None` when it is unset or not
/// unicode). The valid values are `trace`, `debug`, `info`, `warn` and
/// `error`, in any ASCII case; numbers are refused before the text reaches
/// the parser.
pub fn resolve_log_level(cli_arg: Option<String>, env_value: Option<String>) -> (r: Result<
    LogLevel,
    LogLevelError,
>)
    ensures
        r matches Ok(l) ==> spec_level_name(spec_level_text(cli_arg, env_value)) == Some(l),
        spec_level_name(spec_level_text(cli_arg, env_value)) is Some ==> r is Ok,
        r matches Err(e) ==> e.message@ == "Invalid log level: "@ + (if is_unsigned_numeral(
            spec_level_text(cli_arg, env_value),
        ) {
            spec_numeral_refusal_text()
        } else {
            spec_parse_error_text()
        }),
{
    let text = match cli_arg {
        Some(s) => s,
        None => match env_value {
            Some(e) => e,
            None => String::from_str("info"),
        },
    };
    proof {
        if spec_level_name(text@) is Some {
            lemma_level_names_are_no_numerals(text@);
        }
    }
    if is_numeral(text.as_str()) {
        let message = String::from_str("Invalid log level: ").concat(
            "numeric levels are not accepted; expected one of \"trace\", \"debug\", \"info\", \"warn\", \"error\"",
        );
        return Err(LogLevelError { message });
    }
    match parse_level(text.as_str()) {
        Ok(level) => Ok(level),
        Err(description) => {
            let message = String::from_str("Invalid log level: ").concat(description.as_str());
            Err(LogLevelError { message })
        },
    }
}

} // verus!
