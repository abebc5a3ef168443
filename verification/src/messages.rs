//! The messages exchanged with the monitor.

use crate::parser::ProgressReading;
use crate::parser::ReadingModel;
use std::collections::HashMap;
use vstd::prelude::*;
use vstd::string::*;

verus! {

/// A command from the monitor.
#[derive(Debug, Clone, PartialEq, Eq)]
pub enum MonitorToAgent {
    Ping,
    Shutdown,
    Task(TaskMessage),
    Abort(AbortMessage),
}

/// One unit of render work: an inclusive frame range bound to one child process.
#[derive(Debug, Clone, PartialEq, Eq)]
pub struct TaskMessage {
    pub job_id: String,
    pub frame_start: u32,
    pub frame_end: u32,
    pub command: CommandSpec,
    pub working_dir: Option<String>,
    /// Environment overlay: variable names and their values.
    pub environment: HashMap<String, String>,
    pub progress: Option<ProgressSpec>,
    pub output_detection: Option<OutputConfig>,
    pub timeout_seconds: Option<u64>,
}

impl TaskMessage {
    /// What the monitor owes of a task: a frame range that is not empty.
    pub open spec fn well_formed(&self) -> bool {
        self.frame_start <= self.frame_end
    }

    /// The directory the child is to run in: the task's working directory
    /// unless it is absent or empty, in which case the child inherits the
    /// agent's.
    pub fn effective_working_dir(&self) -> (dir: Option<&String>)
        ensures
            dir == match self.working_dir {
                Some(wd) if wd@.len() > 0 => Some(&wd),
                _ => None,
            },
    {
        match &self.working_dir {
            Some(wd) => {
                if wd.as_str().is_empty() {
                    None
                } else {
                    Some(wd)
                }
            },
            None => None,
        }
    }
}

#[derive(Debug, Clone, PartialEq, Eq)]
pub struct CommandSpec {
    pub executable: String,
    pub args: Vec<String>,
}

#[derive(Debug, Clone, PartialEq, Eq)]
pub struct ProgressSpec {
    /// Progress patterns, tried in this order.
    pub patterns: Vec<ProgressPatternDef>,
    pub completion_pattern: Option<CompletionPatternDef>,
    /// Carried for the monitor's other consumers; never evaluated here.
    pub error_patterns: Vec<ErrorPatternDef>,
}

/// Capture group 1: the default numerator group, percentage group and output group.
pub fn default_1() -> (group: u32)
    ensures
        group == 1,
{
    1
}

/// Capture group 2: the default denominator group.
pub fn default_2() -> (group: u32)
    ensures
        group == 2,
{
    2
}

#[derive(Debug, Clone, PartialEq, Eq)]
pub struct ProgressPatternDef {
    pub regex: String,
    /// `"fraction"` or `"percentage"`.
    pub pattern_type: String,
    pub numerator_group: u32,
    pub denominator_group: u32,
    pub group: u32,
    pub info: String,
}

#[derive(Debug, Clone, PartialEq, Eq)]
pub struct CompletionPatternDef {
    pub regex: String,
    pub info: String,
}

#[derive(Debug, Clone, PartialEq, Eq)]
pub struct ErrorPatternDef {
    pub regex: String,
    pub info: String,
}

#[derive(Debug, Clone, PartialEq, Eq)]
pub struct OutputConfig {
    pub regex: Option<String>,
    pub capture_group: u32,
}

#[derive(Debug, Clone, PartialEq, Eq)]
pub struct AbortMessage {
    pub reason: String,
}

/// A report to the monitor.
#[derive(Debug, Clone, PartialEq, Eq)]
pub enum AgentToMonitor {
    Pong,
    Status(StatusMessage),
    Ack(AckMessage),
    Progress(ProgressMessage),
    Stdout(StdoutMessage),
    Completed(CompletedMessage),
    Failed(FailedMessage),
    FrameCompleted(FrameCompletedMessage),
}

#[derive(Debug, Clone, PartialEq, Eq)]
pub struct StatusMessage {
    pub state: String,
    pub pid: u32,
}

#[derive(Debug, Clone, PartialEq, Eq)]
pub struct AckMessage {
    pub job_id: String,
    pub frame_start: u32,
    pub frame_end: u32,
}

/// Progress of a job. The percentage travels as the numerals captured from the
/// output line, candidates in pattern order; the first that evaluates is the
/// one to report.
#[derive(Debug, Clone, PartialEq, Eq)]
pub struct ProgressMessage {
    pub job_id: String,
    pub frame_start: u32,
    pub frame_end: u32,
    pub readings: Vec<ProgressReading>,
    pub elapsed_ms: u64,
}

#[derive(Debug, Clone, PartialEq, Eq)]
pub struct StdoutMessage {
    pub job_id: String,
    pub frame_start: u32,
    pub frame_end: u32,
    pub lines: Vec<String>,
}

#[derive(Debug, Clone, PartialEq, Eq)]
pub struct CompletedMessage {
    pub job_id: String,
    pub frame_start: u32,
    pub frame_end: u32,
    pub elapsed_ms: u64,
    pub exit_code: i32,
    pub output_file: Option<String>,
}

#[derive(Debug, Clone, PartialEq, Eq)]
pub struct FailedMessage {
    pub job_id: String,
    pub frame_start: u32,
    pub frame_end: u32,
    pub exit_code: i32,
    pub error: String,
}

#[derive(Debug, Clone, PartialEq, Eq)]
pub struct FrameCompletedMessage {
    pub job_id: String,
    pub frame: u32,
}

/// The content of a report to the monitor.
pub enum ReportModel {
    Pong,
    Status { state: Seq<char>, pid: u32 },
    Ack { job_id: Seq<char>, frame_start: u32, frame_end: u32 },
    Progress {
        job_id: Seq<char>,
        frame_start: u32,
        frame_end: u32,
        readings: Seq<ReadingModel>,
        elapsed_ms: u64,
    },
    Stdout { job_id: Seq<char>, frame_start: u32, frame_end: u32, lines: Seq<Seq<char>> },
    Completed {
        job_id: Seq<char>,
        frame_start: u32,
        frame_end: u32,
        elapsed_ms: u64,
        exit_code: i32,
        output_file: Option<Seq<char>>,
    },
    Failed {
        job_id: Seq<char>,
        frame_start: u32,
        frame_end: u32,
        exit_code: i32,
        error: Seq<char>,
    },
    FrameCompleted { job_id: Seq<char>, frame: u32 },
}

impl DeepView for AgentToMonitor {
    type V = ReportModel;

    open spec fn deep_view(&self) -> ReportModel {
        match self {
            AgentToMonitor::Pong => ReportModel::Pong,
            AgentToMonitor::Status(m) => ReportModel::Status { state: m.state@, pid: m.pid },
            AgentToMonitor::Ack(m) => ReportModel::Ack {
                job_id: m.job_id@,
                frame_start: m.frame_start,
                frame_end: m.frame_end,
            },
            AgentToMonitor::Progress(m) => ReportModel::Progress {
                job_id: m.job_id@,
                frame_start: m.frame_start,
                frame_end: m.frame_end,
                readings: m.readings.deep_view(),
                elapsed_ms: m.elapsed_ms,
            },
            AgentToMonitor::Stdout(m) => ReportModel::Stdout {
                job_id: m.job_id@,
                frame_start: m.frame_start,
                frame_end: m.frame_end,
                lines: m.lines.deep_view(),
            },
            AgentToMonitor::Completed(m) => ReportModel::Completed {
                job_id: m.job_id@,
                frame_start: m.frame_start,
                frame_end: m.frame_end,
                elapsed_ms: m.elapsed_ms,
                exit_code: m.exit_code,
                output_file: m.output_file.deep_view(),
            },
            AgentToMonitor::Failed(m) => ReportModel::Failed {
                job_id: m.job_id@,
                frame_start: m.frame_start,
                frame_end: m.frame_end,
                exit_code: m.exit_code,
                error: m.error@,
            },
            AgentToMonitor::FrameCompleted(m) => ReportModel::FrameCompleted {
                job_id: m.job_id@,
                frame: m.frame,
            },
        }
    }
}

} // verus!
