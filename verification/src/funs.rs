//! Times and the lines of the bot's console log.
use vstd::prelude::*;
use crate::text::{digit_char, nat_text};

verus! {

/// The proleptic Gregorian (year, month, day) of day `z` counted from
/// 1970-01-01.
pub open spec fn civil_from_days(z0: int) -> (int, int, int) {
    let z = z0 + 719468;
    let era = z / 146097;
    let doe = z - era * 146097;
    let yoe = (doe - doe / 1460 + doe / 36524 - doe / 146096) / 365;
    let y = yoe + era * 400;
    let doy = doe - (365 * yoe + yoe / 4 - yoe / 100);
    let mp = (5 * doy + 2) / 153;
    let d = doy - (153 * mp + 2) / 5 + 1;
    let m = if mp < 10 {
        mp + 3
    } else {
        mp - 9
    };
    (if m <= 2 {
        y + 1
    } else {
        y
    }, m, d)
}

/// Two decimal digits.
pub open spec fn pad2(n: int) -> Seq<char> {
    seq![digit_char(n / 10), digit_char(n % 10)]
}

/// Four decimal digits.
pub open spec fn pad4(n: int) -> Seq<char> {
    pad2(n / 100) + pad2(n % 100)
}

/// A year as chrono's `%Y` writes it: four digits for years 0 to 9999,
/// else a sign followed by at least four digits.
pub open spec fn year_text(y: int) -> Seq<char> {
    if 0 <= y && y <= 9999 {
        pad4(y)
    } else {
        let a = if y < 0 {
            -y
        } else {
            y
        };
        (if y < 0 {
            seq!['-']
        } else {
            seq!['+']
        }) + (if a <= 9999 {
            pad4(a)
        } else {
            nat_text(a as nat)
        })
    }
}

/// The date and time `t` seconds after 1970-01-01 00:00:00 as
/// `%Y-%m-%d %H:%M:%S`.
pub open spec fn datetime_text(t: int) -> Seq<char> {
    let days = t / 86400;
    let secs = t % 86400;
    let (y, m, d) = civil_from_days(days);
    year_text(y) + seq!['-'] + pad2(m) + seq!['-'] + pad2(d) + seq![' '] + pad2(secs / 3600)
        + seq![':'] + pad2(secs % 3600 / 60) + seq![':'] + pad2(secs % 60)
}

/// The Unix times chrono can place on its calendar: from
/// -262143-01-01 00:00:00 to 262142-12-31 23:59:59 UTC.
pub open spec fn time_in_range(time: i64) -> bool {
    -8_334_601_228_800 <= time && time <= 8_210_266_876_799
}

/// Formats a Unix time in the time zone `offset_secs` east of UTC with
/// chrono (`DateTime::from_timestamp`, `with_timezone(FixedOffset)`,
/// `format("%Y-%m-%d %H:%M:%S")`). Claimed: the text is the local date and
/// time on the proleptic Gregorian calendar, as `datetime_text` states.
#[verifier::external_body]
fn format_at_offset(time: i64, offset_secs: i32) -> (r: String)
    requires
        time_in_range(time),
        -86400 < offset_secs < 86400,
    ensures
        r@ == datetime_text(time + offset_secs),
{
    chrono::DateTime::from_timestamp(time, 0).unwrap().with_timezone(
        &chrono::FixedOffset::east_opt(offset_secs).unwrap(),
    ).format("%Y-%m-%d %H:%M:%S").to_string()
}

/// A Unix time as Beijing time (UTC+8), `%Y-%m-%d %H:%M:%S`.
pub fn time_to_string(time: i64) -> (r: String)
    requires
        time_in_range(time),
    ensures
        r@ == datetime_text(time + 8 * 3600),
{
    format_at_offset(time, 8 * 3600)
}

/// Text without the escape character.
pub open spec fn escape_free(s: Seq<char>) -> bool {
    forall|i: int| 0 <= i < s.len() ==> s[i] != '\x1B'
}

/// `s` as the terminal shows it in the colour with ANSI code `code`: plain
/// where colours are off, else wrapped in the colour's escape sequences.
pub open spec fn painted(s: Seq<char>, code: Seq<char>, r: Seq<char>) -> bool {
    r == s || r == "\x1B["@ + code + "m"@ + s + "\x1B[0m"@
}

/// `s.green()` of the `colored` crate, written out. Whether colours are on
/// depends on the environment, so either outcome is allowed.
#[verifier::external_body]
fn green(s: &str) -> (r: String)
    requires
        escape_free(s@),
    ensures
        painted(s@, "32"@, r@),
{
    colored::Colorize::green(s).to_string()
}

/// `s.red()` of the `colored` crate, written out. Whether colours are on
/// depends on the environment, so either outcome is allowed.
#[verifier::external_body]
fn red(s: &str) -> (r: String)
    requires
        escape_free(s@),
    ensures
        painted(s@, "31"@, r@),
{
    colored::Colorize::red(s).to_string()
}

/// `s.yellow()` of the `colored` crate, written out. Whether colours are
/// on depends on the environment, so either outcome is allowed.
#[verifier::external_body]
fn yellow(s: &str) -> (r: String)
    requires
        escape_free(s@),
    ensures
        painted(s@, "33"@, r@),
{
    colored::Colorize::yellow(s).to_string()
}

/// The severity of a console line.
#[derive(Debug, Clone, Copy, PartialEq, Eq, Structural)]
pub enum Level {
    /// Information, tagged `Inf` in green.
    Info,
    /// An error, tagged `Err` in red.
    Error,
    /// A warning, tagged `Wrm` in yellow.
    Warn,
}

/// The tag of a level.
pub open spec fn level_tag(l: Level) -> Seq<char> {
    match l {
        Level::Info => "Inf"@,
        Level::Error => "Err"@,
        Level::Warn => "Wrm"@,
    }
}

/// The ANSI colour code of a level.
pub open spec fn level_code(l: Level) -> Seq<char> {
    match l {
        Level::Info => "32"@,
        Level::Error => "31"@,
        Level::Warn => "33"@,
    }
}

/// A console line from its parts: the time, the tag in brackets, then the
/// words.
pub fn tagged_line(time_text: &str, tag: &str, s: &str) -> (r: String)
    ensures
        r@ == time_text@ + " ["@ + tag@ + "]"@ + s@,
{
    let mut line = String::from_str(time_text);
    line.append(" [");
    line.append(tag);
    line.append("]");
    line.append(s);
    line
}

/// A console line: the time, the level's tag in brackets (coloured where
/// the terminal takes colours), then the words.
pub fn log_line(time_text: &str, level: Level, s: &str) -> (r: String)
    ensures
        exists|tag: Seq<char>|
            painted(level_tag(level), level_code(level), tag) && r@ == time_text@ + " ["@ + tag
                + "]"@ + s@,
{
    let tag = match level {
        Level::Info => {
            proof {
                reveal_strlit("Inf");
            }
            green("Inf")
        },
        Level::Error => {
            proof {
                reveal_strlit("Err");
            }
            red("Err")
        },
        Level::Warn => {
            proof {
                reveal_strlit("Wrm");
            }
            yellow("Wrm")
        },
    };
    assert(painted(level_tag(level), level_code(level), tag@));
    tagged_line(time_text, tag.as_str(), s)
}

} // verus!
