//! Log records and the one-line text that a debugger is sent for each.
use vstd::prelude::*;
use vstd::string::*;

use crate::level::Level;

verus! {

/// One log call's payload: its severity, where it came from, if known, and
/// the message, already rendered.
#[derive(Clone, Debug)]
pub struct LogRecord {
    pub level: Level,
    pub file: Option<String>,
    pub line: Option<u32>,
    pub message: String,
}

/// The character for a digit below ten.
pub open spec fn digit_char(d: nat) -> char {
    if d < 10 {
        (('0' as u32) + d) as char
    } else {
        '?'
    }
}

/// The decimal digits of `n`, most significant first, with no leading zero.
pub open spec fn decimal(n: nat) -> Seq<char>
    decreases n,
{
    if n < 10 {
        seq![digit_char(n)]
    } else {
        decimal(n / 10) + seq![digit_char(n % 10)]
    }
}

/// Placeholder for a record with no source file.
pub open spec fn unknown_file() -> Seq<char> {
    seq!['<', 'u', 'n', 'k', 'n', 'o', 'w', 'n', '>']
}

/// The line sent for a record:
/// `"{file or <unknown>}({line or 0}): {LEVEL} - {message}\r\n"`.
pub open spec fn formatted(
    file: Option<Seq<char>>,
    line: Option<u32>,
    level: Level,
    message: Seq<char>,
) -> Seq<char> {
    let file_text = match file {
        Some(f) => f,
        None => unknown_file(),
    };
    let line_no: nat = match line {
        Some(n) => n as nat,
        None => 0,
    };
    file_text + seq!['('] + decimal(line_no) + seq![')', ':', ' '] + level.name() + seq![
        ' ',
        '-',
        ' ',
    ] + message + seq!['\r', '\n']
}

impl LogRecord {
    /// The source file as characters, if the record has one.
    pub open spec fn file_view(&self) -> Option<Seq<char>> {
        match self.file {
            Some(f) => Some(f@),
            None => None,
        }
    }

    /// The line this record is sent as.
    pub open spec fn line_spec(&self) -> Seq<char> {
        formatted(self.file_view(), self.line, self.level, self.message@)
    }
}

fn digit_str(d: u32) -> (r: &'static str)
    requires
        d < 10,
    ensures
        r@ == seq![digit_char(d as nat)],
{
    proof {
        reveal_strlit("0");
        reveal_strlit("1");
        reveal_strlit("2");
        reveal_strlit("3");
        reveal_strlit("4");
        reveal_strlit("5");
        reveal_strlit("6");
        reveal_strlit("7");
        reveal_strlit("8");
        reveal_strlit("9");
    }
    match d {
        0 => "0",
        1 => "1",
        2 => "2",
        3 => "3",
        4 => "4",
        5 => "5",
        6 => "6",
        7 => "7",
        8 => "8",
        _ => "9",
    }
}

/// Appends the decimal digits of `n` to `s`.
pub fn push_decimal(s: &mut String, n: u32)
    ensures
        final(s)@ == old(s)@ + decimal(n as nat),
    decreases n,
{
    if n >= 10 {
        push_decimal(s, n / 10);
    }
    s.append(digit_str(n % 10));
    assert(final(s)@ =~= old(s)@ + decimal(n as nat));
}

/// The line sent to a debugger for a record: the source file, or `<unknown>`,
/// the line number in parentheses, or 0, the level's name, the message, and a
/// carriage return and line feed whatever the host's line ending.
pub fn format_record(record: &LogRecord) -> (r: String)
    ensures
        r@ == record.line_spec(),
{
    proof {
        reveal_strlit("<unknown>");
        reveal_strlit("(");
        reveal_strlit("): ");
        reveal_strlit(" - ");
        reveal_strlit("\r\n");
    }
    let mut s = String::new();
    match &record.file {
        Some(f) => s.append(f.as_str()),
        None => s.append("<unknown>"),
    }
    s.append("(");
    let line: u32 = match record.line {
        Some(n) => n,
        None => 0,
    };
    push_decimal(&mut s, line);
    s.append("): ");
    s.append(record.level.as_str());
    s.append(" - ");
    s.append(record.message.as_str());
    s.append("\r\n");
    assert(s@ =~= record.line_spec());
    s
}

} // verus!
