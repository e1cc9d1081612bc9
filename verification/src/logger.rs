//! What becomes of a log record, and the text it is written as.

use vstd::prelude::*;
use vstd::string::*;

use crate::text::{concat2, concat3, decimal, decimal_text};

verus! {

/// The level of a log record, most severe first.
#[derive(PartialEq, Eq, Structural, Clone, Copy, Debug)]
pub enum LogLevel {
    Error,
    Warn,
    Info,
    Debug,
    Trace,
}

/// The colour a record is printed in on the console.
#[derive(PartialEq, Eq, Structural, Clone, Copy, Debug)]
pub enum LogColor {
    Red,
    Green,
    Rgb(u8, u8, u8),
}

/// What is done with a record.
#[derive(PartialEq, Eq, Structural, Clone, Copy, Debug)]
pub enum LogAction {
    /// Appended to the log file, and not printed.
    SaveToFile,
    /// Dropped.
    Discard,
    /// Printed on the console in this colour, and shown in the user interface.
    Print(LogColor),
}

/// The name of a level, in capitals.
pub open spec fn level_name(level: LogLevel) -> Seq<char> {
    match level {
        LogLevel::Error => "ERROR"@,
        LogLevel::Warn => "WARN"@,
        LogLevel::Info => "INFO"@,
        LogLevel::Debug => "DEBUG"@,
        LogLevel::Trace => "TRACE"@,
    }
}

/// `s` right-aligned in a field of `width` characters, padded with spaces
/// on the left; a longer `s` is kept whole.
pub open spec fn right_aligned(s: Seq<char>, width: nat) -> Seq<char> {
    if s.len() >= width {
        s
    } else {
        Seq::new((width - s.len()) as nat, |_i: int| ' ') + s
    }
}

/// The colour of a level on the console: red errors, orange warnings, green
/// information, grey debugging and tracing.
pub open spec fn level_color(level: LogLevel) -> LogColor {
    match level {
        LogLevel::Error => LogColor::Red,
        LogLevel::Warn => LogColor::Rgb(255, 125, 0),
        LogLevel::Info => LogColor::Green,
        LogLevel::Debug => LogColor::Rgb(88, 88, 88),
        LogLevel::Trace => LogColor::Rgb(88, 88, 88),
    }
}

/// What becomes of a record of `level`: a debug build prints every record
/// in the colour of its level; a release build prints nothing and keeps the
/// errors, only them, in the log file.
pub fn log_action(level: LogLevel, debug_build: bool) -> (action: LogAction)
    ensures
        debug_build ==> action == LogAction::Print(level_color(level)),
        !debug_build && level == LogLevel::Error ==> action == LogAction::SaveToFile,
        !debug_build && level != LogLevel::Error ==> action == LogAction::Discard,
{
    if !debug_build {
        if level == LogLevel::Error {
            LogAction::SaveToFile
        } else {
            LogAction::Discard
        }
    } else {
        let color = match level {
            LogLevel::Error => LogColor::Red,
            LogLevel::Warn => LogColor::Rgb(255, 125, 0),
            LogLevel::Info => LogColor::Green,
            LogLevel::Debug => LogColor::Rgb(88, 88, 88),
            LogLevel::Trace => LogColor::Rgb(88, 88, 88),
        };
        LogAction::Print(color)
    }
}

/// The level's name right-aligned in five characters, as `{:>5}` writes it.
pub fn level_field(level: LogLevel) -> (field: &'static str)
    ensures
        field@ == right_aligned(level_name(level), 5),
{
    match level {
        LogLevel::Error => {
            proof {
                reveal_strlit("ERROR");
                assert("ERROR"@.len() == 5);
            }
            "ERROR"
        },
        LogLevel::Warn => {
            proof {
                reveal_strlit("WARN");
                reveal_strlit(" WARN");
                assert("WARN"@.len() == 4);
                assert(" WARN"@.len() == 5);
                assert(" WARN"@ =~= Seq::new(1, |_i: int| ' ') + "WARN"@);
            }
            " WARN"
        },
        LogLevel::Info => {
            proof {
                reveal_strlit("INFO");
                reveal_strlit(" INFO");
                assert("INFO"@.len() == 4);
                assert(" INFO"@.len() == 5);
                assert(" INFO"@ =~= Seq::new(1, |_i: int| ' ') + "INFO"@);
            }
            " INFO"
        },
        LogLevel::Debug => {
            proof {
                reveal_strlit("DEBUG");
                assert("DEBUG"@.len() == 5);
            }
            "DEBUG"
        },
        LogLevel::Trace => {
            proof {
                reveal_strlit("TRACE");
                assert("TRACE"@.len() == 5);
            }
            "TRACE"
        },
    }
}

/// The line of the log file for a record: `file:line level message` and a
/// line break, the level right-aligned in five characters; a record without
/// a file is from `unnamed`, one without a line number from line 0.
pub open spec fn log_file_line(file: Option<Seq<char>>, line: Option<u32>, level: LogLevel, message: Seq<char>) -> Seq<char> {
    let f = match file {
        Some(f) => f,
        None => "unnamed"@,
    };
    let l = match line {
        Some(l) => l,
        None => 0u32,
    };
    f + ":"@ + decimal(l as nat) + " "@ + right_aligned(level_name(level), 5) + " "@ + message + "\n"@
}

/// The line appended to the log file for a record.
pub fn log_file_record(file: Option<&str>, line: Option<u32>, level: LogLevel, message: &str) -> (record: String)
    ensures
        record@ == log_file_line(
            match file {
                Some(f) => Some(f@),
                None => None,
            },
            line,
            level,
            message@,
        ),
{
    let f = match file {
        Some(f) => f,
        None => "unnamed",
    };
    let l = match line {
        Some(l) => l,
        None => 0,
    };
    let mut s = concat2(f, ":");
    let number = decimal_text(l);
    s.append(number.as_str());
    s.append(" ");
    s.append(level_field(level));
    s.append(" ");
    s.append(message);
    s.append("\n");
    s
}

/// The line shown in the user interface for a record printed at `time`:
/// the time, ` [S] `, and the message.
pub fn ui_log_line(time: &str, message: &str) -> (line: String)
    ensures
        line@ == time@ + " [S] "@ + message@,
{
    concat3(time, " [S] ", message)
}

} // verus!
