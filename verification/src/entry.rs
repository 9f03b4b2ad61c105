//! Structured log entries produced from process output.

use vstd::prelude::*;

use crate::text::{dec_str, str_eq};

verus! {

/// Severity of a log entry.
#[derive(Debug, Clone, Copy, PartialEq, Eq, PartialOrd, Ord, Hash, Structural)]
pub enum LogLevel {
    Debug,
    Info,
    Warning,
    Error,
    Fatal,
}

/// The numeric rank of a level, rising with severity.
pub open spec fn spec_severity(l: LogLevel) -> int {
    match l {
        LogLevel::Debug => 0,
        LogLevel::Info => 1,
        LogLevel::Warning => 2,
        LogLevel::Error => 3,
        LogLevel::Fatal => 4,
    }
}

/// The display name of a level.
pub open spec fn spec_level_name(l: LogLevel) -> Seq<char> {
    match l {
        LogLevel::Debug => "DEBUG"@,
        LogLevel::Info => "INFO"@,
        LogLevel::Warning => "WARNING"@,
        LogLevel::Error => "ERROR"@,
        LogLevel::Fatal => "FATAL"@,
    }
}

impl LogLevel {
    /// The display name of the level.
    pub fn to_str(&self) -> (r: &'static str)
        ensures
            r@ == spec_level_name(*self),
    {
        match self {
            LogLevel::Debug => "DEBUG",
            LogLevel::Info => "INFO",
            LogLevel::Warning => "WARNING",
            LogLevel::Error => "ERROR",
            LogLevel::Fatal => "FATAL",
        }
    }

    /// The numeric rank of the level, rising with severity.
    pub fn severity(&self) -> (r: u8)
        ensures
            r == spec_severity(*self),
    {
        match self {
            LogLevel::Debug => 0,
            LogLevel::Info => 1,
            LogLevel::Warning => 2,
            LogLevel::Error => 3,
            LogLevel::Fatal => 4,
        }
    }
}

/// Which tool a log line came from.
#[derive(Debug, Clone)]
pub enum LogComponent {
    CMake,
    Compiler,
    Linker,
    Build,
    Other(String),
}

/// What equality of components means: same variant, and for `Other` the same
/// label text.
pub open spec fn component_eq(a: LogComponent, b: LogComponent) -> bool {
    match (a, b) {
        (LogComponent::CMake, LogComponent::CMake) => true,
        (LogComponent::Compiler, LogComponent::Compiler) => true,
        (LogComponent::Linker, LogComponent::Linker) => true,
        (LogComponent::Build, LogComponent::Build) => true,
        (LogComponent::Other(x), LogComponent::Other(y)) => x@ == y@,
        _ => false,
    }
}

impl PartialEq for LogComponent {
    fn eq(&self, other: &LogComponent) -> (r: bool) {
        match (self, other) {
            (LogComponent::CMake, LogComponent::CMake) => true,
            (LogComponent::Compiler, LogComponent::Compiler) => true,
            (LogComponent::Linker, LogComponent::Linker) => true,
            (LogComponent::Build, LogComponent::Build) => true,
            (LogComponent::Other(x), LogComponent::Other(y)) => str_eq(x.as_str(), y.as_str()),
            _ => false,
        }
    }
}

impl vstd::std_specs::cmp::PartialEqSpecImpl for LogComponent {
    open spec fn obeys_eq_spec() -> bool {
        true
    }

    open spec fn eq_spec(&self, other: &LogComponent) -> bool {
        component_eq(*self, *other)
    }
}

/// One structured log line. The timestamp is in milliseconds, chosen by the
/// caller that observed the line.
#[derive(Debug, Clone)]
pub struct LogEntry {
    pub timestamp: u64,
    pub level: LogLevel,
    pub message: String,
    pub raw_line: String,
    pub file_path: Option<String>,
    pub line_number: Option<usize>,
    pub column: Option<usize>,
    pub component: LogComponent,
    pub tags: Vec<String>,
    pub index: usize,
}

/// The `path:line:column` form of an entry's source location, as far as the
/// entry carries one.
pub open spec fn spec_location_string(
    file_path: Option<Seq<char>>,
    line_number: Option<usize>,
    column: Option<usize>,
) -> Option<Seq<char>> {
    match file_path {
        None => None,
        Some(path) => Some(
            match line_number {
                None => path,
                Some(line) => {
                    let with_line = path + seq![':'] + dec_str(line as nat);
                    match column {
                        None => with_line,
                        Some(col) => with_line + seq![':'] + dec_str(col as nat),
                    }
                },
            },
        ),
    }
}

/// The view of an optional string.
pub open spec fn opt_str_view(o: Option<String>) -> Option<Seq<char>> {
    match o {
        Some(s) => Some(s@),
        None => None,
    }
}

impl LogEntry {
    /// A fresh entry with no location, no tags, and timestamp zero.
    pub fn new(
        level: LogLevel,
        message: String,
        raw_line: String,
        component: LogComponent,
        index: usize,
    ) -> (r: LogEntry)
        ensures
            r.timestamp == 0,
            r.level == level,
            r.message == message,
            r.raw_line == raw_line,
            r.file_path is None,
            r.line_number is None,
            r.column is None,
            r.component == component,
            r.tags@.len() == 0,
            r.index == index,
    {
        LogEntry {
            timestamp: 0,
            level,
            message,
            raw_line,
            file_path: None,
            line_number: None,
            column: None,
            component,
            tags: Vec::new(),
            index,
        }
    }

    /// The same entry stamped with a clock reading in milliseconds.
    pub fn with_timestamp(self, timestamp: u64) -> (r: LogEntry)
        ensures
            r == (LogEntry { timestamp, ..self }),
    {
        LogEntry { timestamp, ..self }
    }

    /// The same entry carrying a source location.
    pub fn with_location(
        self,
        file_path: String,
        line_number: Option<usize>,
        column: Option<usize>,
    ) -> (r: LogEntry)
        ensures
            r == (LogEntry { file_path: Some(file_path), line_number, column, ..self }),
    {
        LogEntry { file_path: Some(file_path), line_number, column, ..self }
    }

    /// The same entry carrying tags.
    pub fn with_tags(self, tags: Vec<String>) -> (r: LogEntry)
        ensures
            r == (LogEntry { tags, ..self }),
    {
        LogEntry { tags, ..self }
    }

    /// The `path:line:column` text of the entry's location, when it has one.
    pub fn location_string(&self) -> (r: Option<String>)
        ensures
            opt_str_view(r) == spec_location_string(
                opt_str_view(self.file_path),
                self.line_number,
                self.column,
            ),
    {
        match &self.file_path {
            None => None,
            Some(path) => {
                let mut loc = path.clone();
                match self.line_number {
                    None => {},
                    Some(line) => {
                        loc.push(':');
                        let line_text = crate::text::u64_to_string(line as u64);
                        loc.append(line_text.as_str());
                        match self.column {
                            None => {},
                            Some(col) => {
                                loc.push(':');
                                let col_text = crate::text::u64_to_string(col as u64);
                                loc.append(col_text.as_str());
                            },
                        }
                    },
                }
                Some(loc)
            },
        }
    }
}

} // verus!
