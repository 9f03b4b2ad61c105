//! Console logging: the color composition is verified; whether the terminal
//! wants colors, and the writing itself, are trusted at the edge.

use vstd::prelude::*;

use crate::entry::LogLevel;
use std::io::Write;

verus! {

/// The ANSI color prefix a level is printed with.
pub open spec fn spec_level_color(l: LogLevel) -> Seq<char> {
    match l {
        LogLevel::Debug => "\u{1b}[90m"@,
        LogLevel::Info => "\u{1b}[37m"@,
        LogLevel::Warning => "\u{1b}[33m"@,
        LogLevel::Error => "\u{1b}[31m"@,
        LogLevel::Fatal => "\u{1b}[31;1m"@,
    }
}

/// The text a message is printed as: wrapped in its level's color when
/// colors are wanted, bare otherwise.
pub open spec fn spec_log_line(level: LogLevel, message: Seq<char>, use_colors: bool) -> Seq<
    char,
> {
    if use_colors {
        spec_level_color(level) + message + "\u{1b}[0m"@
    } else {
        message
    }
}

/// Composes the text a message is printed as.
pub fn format_log_line(level: LogLevel, message: &str, use_colors: bool) -> (r: String)
    ensures
        r@ == spec_log_line(level, message@, use_colors),
{
    if use_colors {
        let color: &str = match level {
            LogLevel::Debug => "\u{1b}[90m",
            LogLevel::Info => "\u{1b}[37m",
            LogLevel::Warning => "\u{1b}[33m",
            LogLevel::Error => "\u{1b}[31m",
            LogLevel::Fatal => "\u{1b}[31;1m",
        };
        let mut out = color.to_owned();
        out.append(message);
        out.append("\u{1b}[0m");
        out
    } else {
        message.to_owned()
    }
}

/// Relies on atty::is for stdout: whether standard output is a terminal
/// depends on how the process was launched, so nothing is promised of the
/// answer.
#[verifier::external_body]
fn stdout_is_tty() -> bool {
    atty::is(atty::Stream::Stdout)
}

/// Relies on std::io::Stdout's Write impl to put one line on standard
/// output.
#[verifier::external_body]
fn emit_line(line: &str) {
    let mut out = std::io::stdout();
    let _ = writeln!(out, "{}", line);
    let _ = out.flush();
}

/// Writes plain or colored lines to standard output.
pub struct Logger {
    use_colors: bool,
}

impl Logger {
    /// Whether lines are wrapped in color codes.
    pub closed spec fn spec_use_colors(self) -> bool {
        self.use_colors
    }

    /// A logger that colors its output exactly when standard output is a
    /// terminal.
    pub fn new() -> (r: Self) {
        Logger { use_colors: stdout_is_tty() }
    }

    /// Prints one message at a level, composed by `format_log_line`.
    pub fn log(&self, level: LogLevel, message: &str) {
        let line = format_log_line(level, message, self.use_colors);
        emit_line(line.as_str());
    }
}

} // verus!
