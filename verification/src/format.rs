//! Record formatting: the fixed-width severity prefix, the formatted log
//! line, and the decimal rendering used to name a fresh log file after the
//! moment it was created.

use vstd::prelude::*;
use chrono::Datelike;
use chrono::Timelike;
use crate::severity::Severity;

verus! {

/// The fixed-width bracketed token of a level: seven characters each, the
/// four-letter names padded with a leading space so that columns align.
pub open spec fn prefix_spec(level: Severity) -> Seq<char> {
    match level {
        Severity::Error => "[ERROR]"@,
        Severity::Warn => " [WARN]"@,
        Severity::Info => " [INFO]"@,
        Severity::Debug => "[DEBUG]"@,
        Severity::Trace => "[TRACE]"@,
    }
}

/// The prefix written ahead of every record of the given level.
pub fn prefix(level: Severity) -> (r: &'static str)
    ensures
        r@ == prefix_spec(level),
{
    match level {
        Severity::Error => "[ERROR]",
        Severity::Warn => " [WARN]",
        Severity::Info => " [INFO]",
        Severity::Debug => "[DEBUG]",
        Severity::Trace => "[TRACE]",
    }
}

/// The exact line a dispatch writes for one record:
/// `<prefix>: <message>` followed by a single newline.
pub open spec fn line_spec(level: Severity, message: Seq<char>) -> Seq<char> {
    prefix_spec(level) + ": "@ + message + "\n"@
}

/// Formats one record into the line that every eligible sink receives.
pub fn format_line(level: Severity, message: &str) -> (r: String)
    ensures
        r@ == line_spec(level, message@),
{
    let mut line = String::from_str(prefix(level));
    line.append(": ");
    line.append(message);
    line.append("\n");
    proof {
        assert(line@ =~= line_spec(level, message@));
    }
    line
}

/// Every prefix is exactly seven characters wide, so every formatted line
/// is ten characters longer than its message and ends in the newline.
pub proof fn lemma_line_shape(level: Severity, message: Seq<char>)
    ensures
        prefix_spec(level).len() == 7,
        line_spec(level, message).len() == 10 + message.len(),
        line_spec(level, message).last() == '\n',
{
    reveal_strlit("[ERROR]");
    reveal_strlit(" [WARN]");
    reveal_strlit(" [INFO]");
    reveal_strlit("[DEBUG]");
    reveal_strlit("[TRACE]");
    reveal_strlit(": ");
    reveal_strlit("\n");
}

/// Law: when the message itself contains no newline, the formatted line
/// contains exactly one newline, as its final character — so lines that
/// reach a destination whole never run into one another.
pub proof fn lemma_line_single_newline(level: Severity, message: Seq<char>)
    requires
        forall|i: int| 0 <= i < message.len() ==> message[i] != '\n',
    ensures
        line_spec(level, message).last() == '\n',
        forall|i: int|
            0 <= i < line_spec(level, message).len() - 1 ==> line_spec(level, message)[i] != '\n',
{
    reveal_strlit("[ERROR]");
    reveal_strlit(" [WARN]");
    reveal_strlit(" [INFO]");
    reveal_strlit("[DEBUG]");
    reveal_strlit("[TRACE]");
    reveal_strlit(": ");
    reveal_strlit("\n");
    let line = line_spec(level, message);
    assert forall|i: int| 0 <= i < line.len() - 1 implies line[i] != '\n' by {
        if i < 7 {
            assert(line[i] == prefix_spec(level)[i]);
        } else if i < 9 {
            assert(line[i] == ": "@[i - 7]);
        } else {
            assert(line[i] == message[i - 9]);
        }
    }
}

/// The digit character of a value below ten.
pub open spec fn digit_char(d: int) -> char {
    if d == 0 {
        '0'
    } else if d == 1 {
        '1'
    } else if d == 2 {
        '2'
    } else if d == 3 {
        '3'
    } else if d == 4 {
        '4'
    } else if d == 5 {
        '5'
    } else if d == 6 {
        '6'
    } else if d == 7 {
        '7'
    } else if d == 8 {
        '8'
    } else {
        '9'
    }
}

/// The decimal rendering of a natural number, without padding and without
/// a sign, as the standard formatter prints it.
pub open spec fn decimal_spec(n: nat) -> Seq<char>
    decreases n,
{
    if n < 10 {
        seq![digit_char(n as int)]
    } else {
        decimal_spec(n / 10) + seq![digit_char((n % 10) as int)]
    }
}

fn digit_str(d: u32) -> (r: &'static str)
    requires
        d < 10,
    ensures
        r@ == seq![digit_char(d as int)],
{
    proof {
        reveal_strlit("0");
        reveal_strlit("1");
        reveal_strlit("2");
        reveal_strlit("3");
        reveal_strlit("4");
        reveal_strlit("5");
        reveal_strlit("6");
        reveal_strlit("7");
        reveal_strlit("8");
        reveal_strlit("9");
    }
    if d == 0 {
        "0"
    } else if d == 1 {
        "1"
    } else if d == 2 {
        "2"
    } else if d == 3 {
        "3"
    } else if d == 4 {
        "4"
    } else if d == 5 {
        "5"
    } else if d == 6 {
        "6"
    } else if d == 7 {
        "7"
    } else if d == 8 {
        "8"
    } else {
        "9"
    }
}

/// Renders a natural number in decimal.
pub fn decimal_string(n: u32) -> (r: String)
    ensures
        r@ == decimal_spec(n as nat),
    decreases n,
{
    if n < 10 {
        String::from_str(digit_str(n))
    } else {
        let mut s = decimal_string(n / 10);
        s.append(digit_str(n % 10));
        proof {
            assert(s@ =~= decimal_spec(n as nat));
        }
        s
    }
}

/// The decimal rendering of a possibly negative number: a leading minus
/// sign ahead of the magnitude.
pub open spec fn signed_decimal_spec(n: int) -> Seq<char> {
    if n < 0 {
        seq!['-'] + decimal_spec((-n) as nat)
    } else {
        decimal_spec(n as nat)
    }
}

/// Renders a year (or any signed value) in decimal.
pub fn signed_decimal_string(n: i32) -> (r: String)
    ensures
        r@ == signed_decimal_spec(n as int),
{
    if n >= 0 {
        decimal_string(n as u32)
    } else {
        let wide: i64 = n as i64;
        let magnitude: u32 = (-wide) as u32;
        let mut s = String::from_str("-");
        let rendered = decimal_string(magnitude);
        s.append(rendered.as_str());
        proof {
            reveal_strlit("-");
            assert(s@ =~= signed_decimal_spec(n as int));
        }
        s
    }
}

/// The timestamp a fresh log file is named after:
/// `year-month-day_hour-minute-second`, each field unpadded decimal.
pub open spec fn timestamp_spec(
    year: int,
    month: nat,
    day: nat,
    hour: nat,
    minute: nat,
    second: nat,
) -> Seq<char> {
    signed_decimal_spec(year) + seq!['-'] + decimal_spec(month) + seq!['-'] + decimal_spec(day)
        + seq!['_'] + decimal_spec(hour) + seq!['-'] + decimal_spec(minute) + seq!['-']
        + decimal_spec(second)
}

/// Renders the timestamp for the given calendar fields.
pub fn timestamp_string(year: i32, month: u32, day: u32, hour: u32, minute: u32, second: u32) -> (r:
    String)
    ensures
        r@ == timestamp_spec(
            year as int,
            month as nat,
            day as nat,
            hour as nat,
            minute as nat,
            second as nat,
        ),
{
    let mut s = signed_decimal_string(year);
    s.append("-");
    let part_month = decimal_string(month);
    s.append(part_month.as_str());
    s.append("-");
    let part_day = decimal_string(day);
    s.append(part_day.as_str());
    s.append("_");
    let part_hour = decimal_string(hour);
    s.append(part_hour.as_str());
    s.append("-");
    let part_minute = decimal_string(minute);
    s.append(part_minute.as_str());
    s.append("-");
    let part_second = decimal_string(second);
    s.append(part_second.as_str());
    proof {
        reveal_strlit("-");
        reveal_strlit("_");
        assert(s@ =~= timestamp_spec(
            year as int,
            month as nat,
            day as nat,
            hour as nat,
            minute as nat,
            second as nat,
        ));
    }
    s
}

/// The path a fresh log file is created under, for a given timestamp.
pub open spec fn log_file_path_spec(timestamp: Seq<char>) -> Seq<char> {
    "./core/application/resources/logging/"@ + timestamp + "_log.txt"@
}

/// Builds the log-file path for a timestamp.
pub fn log_file_path(timestamp: &str) -> (r: String)
    ensures
        r@ == log_file_path_spec(timestamp@),
{
    let mut s = String::from_str("./core/application/resources/logging/");
    s.append(timestamp);
    s.append("_log.txt");
    proof {
        assert(s@ =~= log_file_path_spec(timestamp@));
    }
    s
}

/// Relies on `chrono::Utc::now` and its `Datelike` / `Timelike` accessors:
/// the current UTC moment as plain calendar fields. Per chrono's
/// documentation the month ranges over 1..=12, the day over 1..=31, the
/// hour over 0..=23 and the minute and second over 0..=59; nothing is
/// promised of the year, nor of which moment comes back.
#[verifier::external_body]
fn current_utc_fields() -> (r: (i32, u32, u32, u32, u32, u32))
    ensures
        1 <= r.1 <= 12,
        1 <= r.2 <= 31,
        r.3 < 24,
        r.4 < 60,
        r.5 < 60,
{
    let t = chrono::Utc::now();
    (t.year(), t.month(), t.day(), t.hour(), t.minute(), t.second())
}

/// The path under which a log file created at this moment is opened: the
/// logging directory, the timestamp of the current UTC time, and the
/// `_log.txt` suffix.
pub fn current_log_file_path() -> (r: String)
    ensures
        exists|y: int, mo: nat, d: nat, h: nat, mi: nat, s: nat|
            {
                &&& 1 <= mo <= 12
                &&& 1 <= d <= 31
                &&& h < 24
                &&& mi < 60
                &&& s < 60
                &&& r@ == log_file_path_spec(timestamp_spec(y, mo, d, h, mi, s))
            },
{
    let (year, month, day, hour, minute, second) = current_utc_fields();
    let ts = timestamp_string(year, month, day, hour, minute, second);
    let path = log_file_path(ts.as_str());
    proof {
        assert({
            &&& 1 <= month as nat <= 12
            &&& 1 <= day as nat <= 31
            &&& (hour as nat) < 24
            &&& (minute as nat) < 60
            &&& (second as nat) < 60
            &&& path@ == log_file_path_spec(
                timestamp_spec(
                    year as int,
                    month as nat,
                    day as nat,
                    hour as nat,
                    minute as nat,
                    second as nat,
                ),
            )
        });
    }
    path
}

} // verus!
