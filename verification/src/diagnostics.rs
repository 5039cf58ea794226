//! The diagnostics channel's decision logic: which severities and
//! categories are registered, how a driver message becomes one log line,
//! and the "do not abort the triggering call" result.
//!
//! The driver may invoke the callback on any thread it chooses; everything
//! here is a pure computation on the message's values, so the host only has
//! to hand the resulting line to a sink that is safe to call from any
//! thread.

use vstd::prelude::*;
use vstd::string::StringExecFns;

verus! {

/// Severity of a diagnostics message.
#[derive(Clone, Copy, Debug, PartialEq, Eq, Structural)]
pub enum Severity {
    Verbose,
    Info,
    Warning,
    Error,
}

/// Category of a diagnostics message.
#[derive(Clone, Copy, Debug, PartialEq, Eq, Structural)]
pub enum Category {
    General,
    Validation,
    Performance,
}

/// Severity of the line handed to the external log sink.
#[derive(Clone, Copy, Debug, PartialEq, Eq, Structural)]
pub enum LogLevel {
    Info,
    Warn,
    Error,
}

/// Which severities and categories the diagnostics callback registers for.
#[derive(Clone, Copy, Debug, PartialEq, Eq, Structural)]
pub struct DiagnosticsConfig {
    pub verbose: bool,
    pub info: bool,
    pub warning: bool,
    pub error: bool,
    pub general: bool,
    pub validation: bool,
    pub performance: bool,
}

/// The registration filter: severities info, warning and error (verbose
/// left out), and every category.
pub fn diagnostics_config() -> (c: DiagnosticsConfig)
    ensures
        c == (DiagnosticsConfig {
            verbose: false,
            info: true,
            warning: true,
            error: true,
            general: true,
            validation: true,
            performance: true,
        }),
{
    DiagnosticsConfig {
        verbose: false,
        info: true,
        warning: true,
        error: true,
        general: true,
        validation: true,
        performance: true,
    }
}

/// The sink level each driver severity maps to: verbose and info lines are
/// informational, warnings warn, errors err.
pub open spec fn level_for(s: Severity) -> LogLevel {
    match s {
        Severity::Verbose => LogLevel::Info,
        Severity::Info => LogLevel::Info,
        Severity::Warning => LogLevel::Warn,
        Severity::Error => LogLevel::Error,
    }
}

/// Maps a driver severity to the log sink's level.
pub fn log_level_for(s: &Severity) -> (l: LogLevel)
    ensures
        l == level_for(*s),
{
    match s {
        Severity::Verbose => LogLevel::Info,
        Severity::Info => LogLevel::Info,
        Severity::Warning => LogLevel::Warn,
        Severity::Error => LogLevel::Error,
    }
}

/// One driver diagnostics message, with pointers already resolved to plain
/// values (a missing identifying name arrives as the empty string).
#[derive(Clone, Debug)]
pub struct DiagnosticMessage {
    pub severity: Severity,
    pub category: Category,
    pub id_name: String,
    pub id_number: i32,
    pub body: String,
}

/// The decimal digit character for one digit value.
pub open spec fn dec_digit(d: int) -> char {
    if d == 0 {
        '0'
    } else if d == 1 {
        '1'
    } else if d == 2 {
        '2'
    } else if d == 3 {
        '3'
    } else if d == 4 {
        '4'
    } else if d == 5 {
        '5'
    } else if d == 6 {
        '6'
    } else if d == 7 {
        '7'
    } else if d == 8 {
        '8'
    } else {
        '9'
    }
}

/// The decimal digit string of a non-negative integer, most significant
/// digit first.
pub open spec fn dec_nat(n: int) -> Seq<char>
    decreases n,
{
    if n < 10 {
        seq![dec_digit(n)]
    } else {
        dec_nat(n / 10).push(dec_digit(n % 10))
    }
}

/// The decimal string of an integer: a minus sign before the magnitude for
/// negative values.
pub open spec fn dec_int(n: int) -> Seq<char> {
    if n < 0 {
        seq!['-'] + dec_nat(-n)
    } else {
        dec_nat(n)
    }
}

/// The one-character string for a digit value.
fn digit_str(d: u32) -> (s: &'static str)
    requires
        d < 10,
    ensures
        s@ == seq![dec_digit(d as int)],
{
    if d == 0 {
        proof {
            reveal_strlit("0");
            assert("0"@ =~= seq![dec_digit(0int)]);
        }
        "0"
    } else if d == 1 {
        proof {
            reveal_strlit("1");
            assert("1"@ =~= seq![dec_digit(1int)]);
        }
        "1"
    } else if d == 2 {
        proof {
            reveal_strlit("2");
            assert("2"@ =~= seq![dec_digit(2int)]);
        }
        "2"
    } else if d == 3 {
        proof {
            reveal_strlit("3");
            assert("3"@ =~= seq![dec_digit(3int)]);
        }
        "3"
    } else if d == 4 {
        proof {
            reveal_strlit("4");
            assert("4"@ =~= seq![dec_digit(4int)]);
        }
        "4"
    } else if d == 5 {
        proof {
            reveal_strlit("5");
            assert("5"@ =~= seq![dec_digit(5int)]);
        }
        "5"
    } else if d == 6 {
        proof {
            reveal_strlit("6");
            assert("6"@ =~= seq![dec_digit(6int)]);
        }
        "6"
    } else if d == 7 {
        proof {
            reveal_strlit("7");
            assert("7"@ =~= seq![dec_digit(7int)]);
        }
        "7"
    } else if d == 8 {
        proof {
            reveal_strlit("8");
            assert("8"@ =~= seq![dec_digit(8int)]);
        }
        "8"
    } else {
        proof {
            reveal_strlit("9");
            assert("9"@ =~= seq![dec_digit(9int)]);
        }
        "9"
    }
}

/// Renders a non-negative number in decimal.
pub fn decimal_u32(m: u32) -> (s: String)
    ensures
        s@ == dec_nat(m as int),
    decreases m,
{
    if m < 10 {
        digit_str(m).to_owned()
    } else {
        let mut s = decimal_u32(m / 10);
        let d = digit_str(m % 10);
        s.append(d);
        proof {
            assert(dec_nat((m / 10) as int).push(dec_digit((m % 10) as int)) =~= dec_nat(
                (m / 10) as int,
            ) + seq![dec_digit((m % 10) as int)]);
        }
        s
    }
}

/// Renders a signed number in decimal.
pub fn decimal_i32(n: i32) -> (s: String)
    ensures
        s@ == dec_int(n as int),
{
    if n >= 0 {
        decimal_u32(n as u32)
    } else {
        let mag_wide: i64 = -(n as i64);
        let mag: u32 = mag_wide as u32;
        proof {
            assert(0 <= mag_wide < 0x1_0000_0000i64);
            assert(mag as int == -(n as int));
        }
        proof {
            reveal_strlit("-");
            assert("-"@ =~= seq!['-']);
        }
        let mut s = "-".to_owned();
        let t = decimal_u32(mag);
        s.append(t.as_str());
        s
    }
}

/// The label each category prints under.
pub open spec fn category_label_spec(c: Category) -> Seq<char> {
    match c {
        Category::General => "GENERAL"@,
        Category::Validation => "VALIDATION"@,
        Category::Performance => "PERFORMANCE"@,
    }
}

/// Maps a category to its printed label.
pub fn category_label(c: &Category) -> (s: &'static str)
    ensures
        s@ == category_label_spec(*c),
{
    match c {
        Category::General => "GENERAL",
        Category::Validation => "VALIDATION",
        Category::Performance => "PERFORMANCE",
    }
}

/// What leading-whitespace trimming yields on a character sequence.
pub uninterp spec fn trim_start_of(s: Seq<char>) -> Seq<char>;

/// Relies on str::trim_start: removes leading whitespace; the result
/// depends on the characters alone.
#[verifier::external_body]
fn trim_start_ws(s: &str) -> (r: &str)
    ensures
        r@ == trim_start_of(s@),
{
    s.trim_start()
}

/// The one log line a driver message becomes:
/// `LABEL [name (id)]: body`, with the body's leading whitespace removed.
pub open spec fn diagnostic_line(
    category: Category,
    id_name: Seq<char>,
    id_number: int,
    body: Seq<char>,
) -> Seq<char> {
    category_label_spec(category) + " ["@ + id_name + " ("@ + dec_int(id_number) + ")]: "@
        + trim_start_of(body)
}

/// Formats a driver message into its log line.
pub fn format_diagnostic(msg: &DiagnosticMessage) -> (line: String)
    ensures
        line@ == diagnostic_line(msg.category, msg.id_name@, msg.id_number as int, msg.body@),
{
    let mut line = category_label(&msg.category).to_owned();
    line.append(" [");
    line.append(msg.id_name.as_str());
    line.append(" (");
    let num = decimal_i32(msg.id_number);
    line.append(num.as_str());
    line.append(")]: ");
    let trimmed = trim_start_ws(msg.body.as_str());
    line.append(trimmed);
    line
}

/// Handles one driver message: the level and line for the external sink,
/// and the callback's result — always `false`, the "do not abort the
/// triggering call" signal. It never panics and never touches GPU state.
pub fn handle_diagnostic(msg: &DiagnosticMessage) -> (r: (LogLevel, String, bool))
    ensures
        r.0 == level_for(msg.severity),
        r.1@ == diagnostic_line(msg.category, msg.id_name@, msg.id_number as int, msg.body@),
        r.2 == false,
{
    let level = log_level_for(&msg.severity);
    let line = format_diagnostic(msg);
    (level, line, false)
}

} // verus!
