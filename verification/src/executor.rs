//! The verified core of the process-execution engine: termination
//! classification, runtime metrics, per-step bookkeeping with stop-at-first-
//! failure, and the events handed to observers. Spawning processes and
//! pumping their streams is the caller's side of the split; every decision
//! about what the observed bytes and exit statuses mean is made here.

use vstd::prelude::*;

use crate::builder::BuildStep;
use crate::entry::{LogComponent, LogEntry, LogLevel};
use crate::text::{
    int_dec_str, i32_to_string, lower_seq, spec_contains_seq, spec_ends_with, str_contains,
    str_ends_with, str_eq, to_lower,
};

verus! {

/// Synthesized stderr entries start their indices here, keeping the two
/// streams distinguishable without true cross-stream ordering.
pub const STDERR_INDEX_START: usize = 100000;

/// The index of the synthesized entry describing a terminating signal.
pub const SIGNAL_LOG_INDEX: usize = 999999;

/// The index of the synthesized entry describing a nonzero exit code.
pub const EXIT_CODE_LOG_INDEX: usize = 999998;

/// How one spawned process ended, as plain values observed by the caller:
/// the exit code when there was one, and the delivered signal when the
/// platform reports one.
#[derive(Debug, Clone, Copy, PartialEq, Eq, Structural)]
pub struct ProcessExit {
    pub exit_code: Option<i32>,
    pub signal: Option<i32>,
}

/// A process succeeded exactly when it exited with code zero.
pub open spec fn spec_exit_success(e: ProcessExit) -> bool {
    e.exit_code == Some(0i32)
}

/// The outcome of one spawned process.
#[derive(Debug, Clone)]
pub struct ExecutionResult {
    pub success: bool,
    pub duration_ms: u64,
    pub stdout: Vec<String>,
    pub stderr: Vec<String>,
    pub exit_code: Option<i32>,
    pub failure_reason: Option<String>,
}

/// The failure text of a build step: "Exit code N" for a nonzero code, and
/// nothing when the platform reported no code at all.
pub open spec fn spec_step_failure_reason(e: ProcessExit) -> Option<Seq<char>> {
    if spec_exit_success(e) {
        None
    } else {
        match e.exit_code {
            Some(code) => Some("Exit code "@ + int_dec_str(code as int)),
            None => None,
        }
    }
}

/// The typed summary of one build-step process: success mirrors the exit
/// status, and the captured line buffers ride along.
pub fn step_execution_result(
    exit: &ProcessExit,
    duration_ms: u64,
    stdout: Vec<String>,
    stderr: Vec<String>,
) -> (r: ExecutionResult)
    ensures
        r.success == spec_exit_success(*exit),
        r.duration_ms == duration_ms,
        r.stdout == stdout,
        r.stderr == stderr,
        r.exit_code == exit.exit_code,
        opt_text(r.failure_reason) == spec_step_failure_reason(*exit),
{
    let success = match exit.exit_code {
        Some(code) => code == 0,
        None => false,
    };
    let failure_reason = if success {
        None
    } else {
        match exit.exit_code {
            Some(code) => {
                let text = i32_to_string(code);
                Some("Exit code ".to_owned().concat(text.as_str()))
            },
            None => None,
        }
    };
    ExecutionResult { success, duration_ms, stdout, stderr, exit_code: exit.exit_code, failure_reason }
}

/// The view of an optional string.
pub open spec fn opt_text(o: Option<String>) -> Option<Seq<char>> {
    match o {
        Some(s) => Some(s@),
        None => None,
    }
}

/// The human label of a terminating signal.
pub open spec fn spec_signal_name(signal: int) -> Seq<char> {
    if signal == 1 {
        "SIGHUP (Hangup)"@
    } else if signal == 2 {
        "SIGINT (Interrupt)"@
    } else if signal == 3 {
        "SIGQUIT (Quit)"@
    } else if signal == 4 {
        "SIGILL (Illegal instruction)"@
    } else if signal == 6 {
        "SIGABRT (Abort)"@
    } else if signal == 8 {
        "SIGFPE (Floating point exception)"@
    } else if signal == 9 {
        "SIGKILL (Killed)"@
    } else if signal == 11 {
        "SIGSEGV (Segmentation fault)"@
    } else if signal == 13 {
        "SIGPIPE (Broken pipe)"@
    } else if signal == 15 {
        "SIGTERM (Terminated)"@
    } else {
        "Unknown signal"@
    }
}

/// The human label of a terminating signal.
pub fn signal_name(signal: i32) -> (r: &'static str)
    ensures
        r@ == spec_signal_name(signal as int),
{
    match signal {
        1 => "SIGHUP (Hangup)",
        2 => "SIGINT (Interrupt)",
        3 => "SIGQUIT (Quit)",
        4 => "SIGILL (Illegal instruction)",
        6 => "SIGABRT (Abort)",
        8 => "SIGFPE (Floating point exception)",
        9 => "SIGKILL (Killed)",
        11 => "SIGSEGV (Segmentation fault)",
        13 => "SIGPIPE (Broken pipe)",
        15 => "SIGTERM (Terminated)",
        _ => "Unknown signal",
    }
}

/// The failure text of a program run: a signal description takes precedence,
/// then a nonzero exit code.
pub open spec fn spec_program_failure_reason(e: ProcessExit) -> Option<Seq<char>> {
    match e.signal {
        Some(sig) => Some(
            "Signal "@ + int_dec_str(sig as int) + " ("@ + spec_signal_name(sig as int) + ")"@,
        ),
        None => match e.exit_code {
            Some(code) => if code != 0 {
                Some("Exit code "@ + int_dec_str(code as int))
            } else {
                None
            },
            None => None,
        },
    }
}

/// The message of the synthesized signal log entry.
pub open spec fn spec_signal_message(sig: int) -> Seq<char> {
    "\u{2501}\u{2501}\u{2501}\u{2501}\u{2501}\u{2501}\n"@ + "Process terminated by signal "@
        + int_dec_str(sig) + "\nSignal: "@ + spec_signal_name(sig)
        + "\n\u{2501}\u{2501}\u{2501}\u{2501}\u{2501}\u{2501}"@
}

/// The message of the synthesized exit-code log entry.
pub open spec fn spec_exit_code_message(code: int) -> Seq<char> {
    "Process exited with code: "@ + int_dec_str(code)
}

/// What the termination of a long-running program means: the typed summary
/// plus the synthesized log entries describing an abnormal end.
pub fn classify_program_exit(exit: &ProcessExit, duration_ms: u64) -> (r: (
    ExecutionResult,
    Vec<LogEntry>,
))
    ensures
        r.0.success == spec_exit_success(*exit),
        r.0.duration_ms == duration_ms,
        r.0.stdout@.len() == 0,
        r.0.stderr@.len() == 0,
        r.0.exit_code == exit.exit_code,
        opt_text(r.0.failure_reason) == spec_program_failure_reason(*exit),
        r.1@.len() == (if exit.signal is Some {
            1int
        } else {
            0int
        }) + (match exit.exit_code {
            Some(c) => if c != 0 {
                1int
            } else {
                0int
            },
            None => 0int,
        }),
        (match exit.signal {
            Some(sig) => {
                &&& r.1@[0].level == LogLevel::Error
                &&& r.1@[0].message@ == spec_signal_message(sig as int)
                &&& r.1@[0].raw_line@ == spec_signal_message(sig as int)
                &&& r.1@[0].index == SIGNAL_LOG_INDEX
                &&& r.1@[0].component matches LogComponent::Other(label) && label@ == "system"@
            },
            None => true,
        }),
        (match exit.exit_code {
            Some(c) => c != 0 ==> {
                let k = r.1@.len() - 1;
                &&& r.1@[k].level == LogLevel::Warning
                &&& r.1@[k].message@ == spec_exit_code_message(c as int)
                &&& r.1@[k].raw_line@ == spec_exit_code_message(c as int)
                &&& r.1@[k].index == EXIT_CODE_LOG_INDEX
                &&& r.1@[k].component matches LogComponent::Other(label) && label@ == "system"@
            },
            None => true,
        }),
{
    let success = match exit.exit_code {
        Some(code) => code == 0,
        None => false,
    };
    let mut logs: Vec<LogEntry> = Vec::new();
    let mut failure_reason: Option<String> = None;

    match exit.signal {
        Some(sig) => {
            let name = signal_name(sig);
            let sig_text = i32_to_string(sig);
            let mut reason = "Signal ".to_owned();
            reason.append(sig_text.as_str());
            reason.append(" (");
            reason.append(name);
            reason.append(")");
            failure_reason = Some(reason);

            let mut message = "\u{2501}\u{2501}\u{2501}\u{2501}\u{2501}\u{2501}\n".to_owned();
            message.append("Process terminated by signal ");
            message.append(sig_text.as_str());
            message.append("\nSignal: ");
            message.append(name);
            message.append("\n\u{2501}\u{2501}\u{2501}\u{2501}\u{2501}\u{2501}");
            logs.push(
                LogEntry::new(
                    LogLevel::Error,
                    message.clone(),
                    message,
                    LogComponent::Other("system".to_owned()),
                    SIGNAL_LOG_INDEX,
                ),
            );
        },
        None => {},
    }

    match exit.exit_code {
        Some(code) => {
            if code != 0 {
                match &failure_reason {
                    Some(_) => {},
                    None => {
                        let text = i32_to_string(code);
                        failure_reason = Some("Exit code ".to_owned().concat(text.as_str()));
                    },
                }
                let code_text = i32_to_string(code);
                let message = "Process exited with code: ".to_owned().concat(code_text.as_str());
                logs.push(
                    LogEntry::new(
                        LogLevel::Warning,
                        message.clone(),
                        message,
                        LogComponent::Other("system".to_owned()),
                        EXIT_CODE_LOG_INDEX,
                    ),
                );
            }
        },
        None => {},
    }

    let result = ExecutionResult {
        success,
        duration_ms,
        stdout: Vec::new(),
        stderr: Vec::new(),
        exit_code: exit.exit_code,
        failure_reason,
    };
    (result, logs)
}

/// A typed sample parsed from a running program's stdout.
#[derive(Debug, Clone)]
pub struct RuntimeMetric {
    pub key: String,
    pub value: String,
    pub timestamp: u64,
    pub category: String,
    pub explicit_visualization: Option<MetricVisualization>,
}

/// What kind of quantity a metric key names.
#[derive(Debug, Clone, Copy, PartialEq, Eq, Structural)]
pub enum MetricType {
    FPS,
    Percentage,
    TimeMillis,
    Count,
    Memory,
    Dimension,
    Generic,
}

/// How a metric asks to be drawn.
#[derive(Debug, Clone, Copy, PartialEq, Eq, Structural)]
pub enum MetricVisualization {
    Sparkline,
    Gauge,
    Table,
    Chart,
    Bar,
    Text,
    Auto,
}

/// The metric type a key names, judged on its lower-cased text.
pub open spec fn spec_metric_type(key: Seq<char>) -> MetricType {
    let lower = lower_seq(key);
    if spec_contains_seq(lower, "fps"@) {
        MetricType::FPS
    } else if spec_contains_seq(lower, "percent"@) || spec_contains_seq(lower, "percentage"@)
        || spec_ends_with(lower, "_pct"@) {
        MetricType::Percentage
    } else if spec_contains_seq(lower, "time"@) && spec_contains_seq(lower, "ms"@) {
        MetricType::TimeMillis
    } else if spec_contains_seq(lower, "count"@) || spec_contains_seq(lower, "entities"@)
        || spec_contains_seq(lower, "draw_calls"@) {
        MetricType::Count
    } else if spec_contains_seq(lower, "mb"@) || spec_contains_seq(lower, "memory"@)
        || spec_contains_seq(lower, "heap"@) {
        MetricType::Memory
    } else if spec_contains_seq(lower, "width"@) || spec_contains_seq(lower, "height"@) {
        MetricType::Dimension
    } else {
        MetricType::Generic
    }
}

/// The visualization a metric type defaults to.
pub open spec fn spec_default_visualization(t: MetricType) -> MetricVisualization {
    match t {
        MetricType::FPS => MetricVisualization::Sparkline,
        MetricType::TimeMillis => MetricVisualization::Sparkline,
        MetricType::Count => MetricVisualization::Sparkline,
        MetricType::Memory => MetricVisualization::Sparkline,
        MetricType::Percentage => MetricVisualization::Gauge,
        MetricType::Dimension => MetricVisualization::Text,
        MetricType::Generic => MetricVisualization::Text,
    }
}

/// The visualization a keyword names, judged on its lower-cased text.
pub open spec fn spec_visualization_keyword(s: Seq<char>) -> Option<MetricVisualization> {
    let lower = lower_seq(s);
    if lower == "sparkline"@ {
        Some(MetricVisualization::Sparkline)
    } else if lower == "gauge"@ {
        Some(MetricVisualization::Gauge)
    } else if lower == "table"@ {
        Some(MetricVisualization::Table)
    } else if lower == "chart"@ {
        Some(MetricVisualization::Chart)
    } else if lower == "bar"@ {
        Some(MetricVisualization::Bar)
    } else if lower == "text"@ {
        Some(MetricVisualization::Text)
    } else if lower == "auto"@ {
        Some(MetricVisualization::Auto)
    } else {
        None
    }
}

impl MetricVisualization {
    /// Parses a visualization keyword, case-insensitively.
    pub fn from_str(s: &str) -> (r: Option<MetricVisualization>)
        ensures
            r == spec_visualization_keyword(s@),
    {
        let lower = to_lower(s);
        let l = lower.as_str();
        if str_eq(l, "sparkline") {
            Some(MetricVisualization::Sparkline)
        } else if str_eq(l, "gauge") {
            Some(MetricVisualization::Gauge)
        } else if str_eq(l, "table") {
            Some(MetricVisualization::Table)
        } else if str_eq(l, "chart") {
            Some(MetricVisualization::Chart)
        } else if str_eq(l, "bar") {
            Some(MetricVisualization::Bar)
        } else if str_eq(l, "text") {
            Some(MetricVisualization::Text)
        } else if str_eq(l, "auto") {
            Some(MetricVisualization::Auto)
        } else {
            None
        }
    }
}

impl RuntimeMetric {
    /// The metric type this metric's key names.
    pub fn metric_type(&self) -> (r: MetricType)
        ensures
            r == spec_metric_type(self.key@),
    {
        let lower = to_lower(self.key.as_str());
        let lower_key = lower.as_str();

        if str_contains(lower_key, "fps") {
            return MetricType::FPS;
        }
        if str_contains(lower_key, "percent") || str_contains(lower_key, "percentage")
            || str_ends_with(lower_key, "_pct") {
            return MetricType::Percentage;
        }
        if str_contains(lower_key, "time") && str_contains(lower_key, "ms") {
            return MetricType::TimeMillis;
        }
        if str_contains(lower_key, "count") || str_contains(lower_key, "entities") || str_contains(
            lower_key,
            "draw_calls",
        ) {
            return MetricType::Count;
        }
        if str_contains(lower_key, "mb") || str_contains(lower_key, "memory") || str_contains(
            lower_key,
            "heap",
        ) {
            return MetricType::Memory;
        }
        if str_contains(lower_key, "width") || str_contains(lower_key, "height") {
            return MetricType::Dimension;
        }
        MetricType::Generic
    }

    /// The visualization to draw this metric with: the explicit request when
    /// one was parsed, else the default for its metric type.
    pub fn visualization(&self) -> (r: MetricVisualization)
        ensures
            r == match self.explicit_visualization {
                Some(v) => v,
                None => spec_default_visualization(spec_metric_type(self.key@)),
            },
    {
        match self.explicit_visualization {
            Some(viz) => viz,
            None => match self.metric_type() {
                MetricType::FPS => MetricVisualization::Sparkline,
                MetricType::TimeMillis => MetricVisualization::Sparkline,
                MetricType::Count => MetricVisualization::Sparkline,
                MetricType::Memory => MetricVisualization::Sparkline,
                MetricType::Percentage => MetricVisualization::Gauge,
                MetricType::Dimension => MetricVisualization::Text,
                MetricType::Generic => MetricVisualization::Text,
            },
        }
    }
}

/// An event delivered to the external observer during execution.
#[derive(Debug, Clone)]
pub enum StepUpdate {
    Started(String),
    Progress(String),
    Finished(ExecutionResult),
    ProcessStarted(u32),
    ProcessFinished(u32),
    Metric(RuntimeMetric),
}

/// The sequential walk of a step list, stopping at the first failure. This
/// is the decision core of the engine's step loop: the caller spawns the
/// step this machine hands out, then records the observed result; no further
/// step is handed out once a result came back unsuccessful.
pub struct StepsExecution {
    steps: Vec<BuildStep>,
    results: Vec<ExecutionResult>,
    halted: bool,
}

impl StepsExecution {
    /// The steps this run was created over.
    pub closed spec fn spec_steps(self) -> Seq<BuildStep> {
        self.steps@
    }

    /// The results recorded so far.
    pub closed spec fn spec_results(self) -> Seq<ExecutionResult> {
        self.results@
    }

    /// Whether a recorded failure stopped the run.
    pub closed spec fn spec_halted(self) -> bool {
        self.halted
    }

    /// Every result so far answers one step in order; every result before
    /// the last succeeded; the run halts exactly on a failing last result.
    pub open spec fn wf(self) -> bool {
        &&& self.spec_results().len() <= self.spec_steps().len()
        &&& forall|k: int|
            0 <= k < self.spec_results().len() - 1 ==> (#[trigger] self.spec_results()[k]).success
        &&& self.spec_halted() <==> (self.spec_results().len() > 0 && !self.spec_results().last().success)
    }

    /// A run over `steps` with nothing executed yet.
    pub fn new(steps: Vec<BuildStep>) -> (r: Self)
        ensures
            r.wf(),
            r.spec_steps() == steps@,
            r.spec_results().len() == 0,
            !r.spec_halted(),
    {
        StepsExecution { steps, results: Vec::new(), halted: false }
    }

    /// The next step the caller must run, or nothing when the list is
    /// exhausted or a failure stopped the run.
    pub fn next_step(&self) -> (r: Option<&BuildStep>)
        requires
            self.wf(),
        ensures
            match r {
                Some(step) => !self.spec_halted() && self.spec_results().len()
                    < self.spec_steps().len() && *step == self.spec_steps()[self.spec_results().len() as int],
                None => self.spec_halted() || self.spec_results().len() == self.spec_steps().len(),
            },
    {
        if self.halted || self.results.len() >= self.steps.len() {
            None
        } else {
            Some(&self.steps[self.results.len()])
        }
    }

    /// Records the observed result of the step last handed out; a failure
    /// halts the run, so later steps never run.
    pub fn record(&mut self, result: ExecutionResult)
        requires
            old(self).wf(),
            !old(self).spec_halted(),
            old(self).spec_results().len() < old(self).spec_steps().len(),
        ensures
            final(self).wf(),
            final(self).spec_steps() == old(self).spec_steps(),
            final(self).spec_results() == old(self).spec_results().push(result),
            final(self).spec_halted() == !result.success,
    {
        let halted = !result.success;
        self.results.push(result);
        self.halted = halted;
    }

    /// Whether the walk is over: every step ran, or a failure stopped it.
    pub fn is_finished(&self) -> (r: bool)
        requires
            self.wf(),
        ensures
            r == (self.spec_halted() || self.spec_results().len() == self.spec_steps().len()),
    {
        self.halted || self.results.len() >= self.steps.len()
    }

    /// The results produced so far, in step order.
    pub fn into_results(self) -> (r: Vec<ExecutionResult>)
        ensures
            r@ == self.spec_results(),
    {
        self.results
    }
}

} // verus!
