//! The supervisor's state and its transitions, as mathematics.

use crate::executor::Directive;
use crate::executor::ExitReport;
use crate::executor::Phase;
use crate::executor::StopReason;
use crate::messages::TaskMessage;
use crate::parser::completion_built_from;
use crate::parser::output_built_from;
use crate::parser::output_path;
use crate::parser::OutputModel;
use crate::parser::PatternModel;
use crate::parser::patterns_built_from;
use crate::parser::ReadingModel;
use crate::parser::readings_of;
use crate::pattern::regex_matches;
use crate::text::decimal_digits;
use crate::text::signed_decimal;
use regex::Regex;
use vstd::prelude::*;

verus! {

/// Buffered primary lines that force a flush.
pub const STDOUT_FLUSH_LINES: usize = 50;

/// Milliseconds since the last flush that force a flush.
pub const STDOUT_FLUSH_INTERVAL_MS: u64 = 5000;

/// The exit code reported where the child's own is not known.
pub const UNKNOWN_EXIT_CODE: i32 = -1;

/// The content of a [`crate::executor::RenderEvent`].
pub enum EventModel {
    Started,
    Stdout(Seq<Seq<char>>),
    Progress { readings: Seq<ReadingModel>, elapsed_ms: u64 },
    FrameCompleted { frame: u32 },
    Completed { elapsed_ms: u64, exit_code: i32, output_file: Option<Seq<char>> },
    Failed { exit_code: i32, error: Seq<char> },
}

impl EventModel {
    /// Whether the event ends a job.
    pub open spec fn is_terminal(self) -> bool {
        self is Completed || self is Failed
    }
}

/// The directive that goes with a phase.
pub open spec fn directive_of(phase: Phase) -> Directive {
    match phase {
        Phase::Running => Directive::Continue,
        Phase::Stopping(_) => Directive::KillChild,
        Phase::Draining => Directive::AwaitExit,
        Phase::Finished => Directive::Done,
    }
}

/// A secondary line as it appears in a batch.
pub open spec fn stderr_line(line: Seq<char>) -> Seq<char> {
    "[stderr] "@ + line
}

/// The content of what waiting for the child gave: the exit report, or the
/// cause of the failure.
pub open spec fn outcome_model(outcome: Result<ExitReport, String>) -> Result<
    ExitReport,
    Seq<char>,
> {
    match outcome {
        Ok(report) => Ok(report),
        Err(cause) => Err(cause@),
    }
}

/// Secondary lines as they appear in a batch.
pub open spec fn stderr_lines(lines: Seq<Seq<char>>) -> Seq<Seq<char>> {
    Seq::new(lines.len(), |i: int| stderr_line(lines[i]))
}

/// The error text of a job that was stopped.
pub open spec fn stop_text(reason: StopReason) -> Seq<char> {
    match reason {
        StopReason::Aborted => "Aborted by monitor"@,
        StopReason::TimedOut { seconds } => "Timeout after "@ + decimal_digits(seconds as nat)
            + "s"@,
    }
}

/// The error text of a child that exited without success.
pub open spec fn exit_text(code: i32) -> Seq<char> {
    "Process exited with code "@ + signed_decimal(code as int)
}

/// The error text of a child whose exit could not be awaited.
pub open spec fn wait_text(cause: Seq<char>) -> Seq<char> {
    "Failed to wait for process: "@ + cause
}

/// The error text of a child that could not be spawned.
pub open spec fn spawn_text(cause: Seq<char>) -> Seq<char> {
    "Failed to spawn process: "@ + cause
}

/// The frames reported by a sequence of events, in order.
pub open spec fn frames_of(events: Seq<EventModel>) -> Seq<u32>
    decreases events.len(),
{
    if events.len() == 0 {
        Seq::empty()
    } else {
        let earlier = frames_of(events.drop_last());
        match events.last() {
            EventModel::FrameCompleted { frame } => earlier.push(frame),
            _ => earlier,
        }
    }
}

/// The number of `Stdout` batches among a sequence of events.
pub open spec fn batches_in(events: Seq<EventModel>) -> nat
    decreases events.len(),
{
    if events.len() == 0 {
        0
    } else {
        let earlier = batches_in(events.drop_last());
        if events.last() is Stdout {
            earlier + 1
        } else {
            earlier
        }
    }
}

/// Whether every input is a line read from the primary stream.
pub open spec fn all_primary_lines(inputs: Seq<Input>) -> bool {
    forall|i: int|
        0 <= i < inputs.len() ==> (#[trigger] inputs[i] matches Input::PrimaryLine { read, .. }
            && read is Some)
}

/// The number of frames in the inclusive range, zero where the range is empty.
pub open spec fn range_len(frame_start: u32, frame_end: u32) -> nat {
    if frame_start <= frame_end {
        (frame_end - frame_start + 1) as nat
    } else {
        0
    }
}

/// The first `count` frames from `frame_start` on.
pub open spec fn frame_run(frame_start: u32, count: nat) -> Seq<u32> {
    Seq::new(count, |i: int| (frame_start + i) as u32)
}

/// The matchers a job runs with.
pub struct Matchers {
    pub progress: Option<Seq<PatternModel>>,
    pub output: Option<OutputModel>,
    /// The regex of the completion matcher.
    pub completion: Option<Regex>,
}

/// Whether `matchers` are what the task's definitions give for some outcome
/// of compiling their regexes: progress patterns where the task has a
/// progress specification, a completion matcher only where that names a
/// completion pattern, an output matcher only where the task configures one.
pub open spec fn matchers_built_from(matchers: Matchers, task: TaskMessage) -> bool {
    &&& match task.progress {
        None => matchers.progress is None && matchers.completion is None,
        Some(spec) => {
            &&& matchers.progress matches Some(patterns) && patterns_built_from(
                patterns,
                spec.patterns@,
            )
            &&& match spec.completion_pattern {
                None => matchers.completion is None,
                Some(def) => completion_built_from(matchers.completion, def),
            }
        },
    }
    &&& match task.output_detection {
        None => matchers.output is None,
        Some(config) => output_built_from(matchers.output, config),
    }
}

/// The state of the job of `task` after `inputs`, taken in order from the
/// moment its child was spawned.
pub open spec fn job_after(
    task: TaskMessage,
    matchers: Matchers,
    inputs: Seq<Input>,
) -> ExecutorModel {
    ExecutorModel::initial(task, matchers).run(inputs)
}

/// What can happen to a job: each input is one call on its supervisor.
pub enum Input {
    /// A read on the primary stream gave a line, or failed (`None`).
    PrimaryLine { read: Option<Seq<char>>, elapsed_ms: u64 },
    /// The primary stream ended.
    PrimaryEof,
    /// The secondary stream gave a line.
    SecondaryLine { line: Seq<char> },
    /// The child was waited for.
    Exit { outcome: Result<ExitReport, Seq<char>>, elapsed_ms: u64 },
    /// The primary stream could not be had.
    StdoutUnavailable,
    /// The monitor asked for an abort.
    Abort,
    /// The queued events were polled.
    Poll,
}

/// The state of a supervisor.
pub struct ExecutorModel {
    pub job_id: Seq<char>,
    pub frame_start: u32,
    pub frame_end: u32,
    pub timeout_seconds: Option<u64>,
    pub matchers: Matchers,
    pub phase: Phase,
    /// Set by an abort, never cleared.
    pub abort_requested: bool,
    /// Completion matches so far, on both streams.
    pub completions: u64,
    /// Primary lines not yet flushed.
    pub primary: Seq<Seq<char>>,
    /// Secondary lines not yet flushed.
    pub secondary: Seq<Seq<char>>,
    pub last_flush_ms: u64,
    /// The most recent output path seen on the primary stream.
    pub output_file: Option<Seq<char>>,
    /// Events already handed out by a poll.
    pub delivered: Seq<EventModel>,
    /// Events waiting for the next poll.
    pub queued: Seq<EventModel>,
}

impl ExecutorModel {
    /// The state of a task's job right after its child was spawned: running,
    /// with `Started` queued.
    pub open spec fn initial(task: TaskMessage, matchers: Matchers) -> ExecutorModel {
        ExecutorModel {
            job_id: task.job_id@,
            frame_start: task.frame_start,
            frame_end: task.frame_end,
            timeout_seconds: task.timeout_seconds,
            matchers,
            phase: Phase::Running,
            abort_requested: false,
            completions: 0,
            primary: Seq::empty(),
            secondary: Seq::empty(),
            last_flush_ms: 0,
            output_file: None,
            delivered: Seq::empty(),
            queued: seq![EventModel::Started],
        }
    }

    /// Every event of the job so far, in the order of emission.
    pub open spec fn history(self) -> Seq<EventModel> {
        self.delivered + self.queued
    }

    /// The state with one more event queued.
    pub open spec fn emit(self, event: EventModel) -> ExecutorModel {
        ExecutorModel { queued: self.queued.push(event), ..self }
    }

    /// The state in another phase.
    pub open spec fn in_phase(self, phase: Phase) -> ExecutorModel {
        ExecutorModel { phase, ..self }
    }

    /// The lines of the next batch: the buffered primary lines, then the
    /// pending secondary lines, each marked as such.
    pub open spec fn batch(self) -> Seq<Seq<char>> {
        self.primary + stderr_lines(self.secondary)
    }

    /// The state after a flush: both buffers empty, and their lines queued as
    /// one `Stdout` event unless there were none.
    pub open spec fn flushed(self) -> ExecutorModel {
        let cleared = ExecutorModel { primary: Seq::empty(), secondary: Seq::empty(), ..self };
        if self.batch().len() == 0 {
            cleared
        } else {
            cleared.emit(EventModel::Stdout(self.batch()))
        }
    }

    /// Whether the next completion match falls on a frame of the range.
    pub open spec fn next_frame_in_range(self) -> bool {
        self.frame_start + self.completions <= self.frame_end
    }

    /// The state after a line went past the completion matcher: a match is
    /// counted, and reported as a frame while the frame lies in the range.
    pub open spec fn counted(self, line: Seq<char>) -> ExecutorModel {
        if self.matchers.completion matches Some(re) && regex_matches(re, line) {
            let bumped = ExecutorModel {
                completions: if self.completions < u64::MAX {
                    (self.completions + 1) as u64
                } else {
                    self.completions
                },
                ..self
            };
            if self.next_frame_in_range() {
                bumped.emit(
                    EventModel::FrameCompleted {
                        frame: (self.frame_start + self.completions) as u32,
                    },
                )
            } else {
                bumped
            }
        } else {
            self
        }
    }

    /// The state after an abort request.
    pub open spec fn with_abort(self) -> ExecutorModel {
        ExecutorModel { abort_requested: true, ..self }
    }

    /// Why the child must be stopped at `elapsed_ms`, if it must: an abort
    /// request goes before an exceeded timeout.
    pub open spec fn stop_reason(self, elapsed_ms: u64) -> Option<StopReason> {
        if self.abort_requested {
            Some(StopReason::Aborted)
        } else {
            match self.timeout_seconds {
                Some(seconds) if elapsed_ms > seconds * 1000 => Some(
                    StopReason::TimedOut { seconds },
                ),
                _ => None,
            }
        }
    }

    /// The state after the progress matcher saw the line.
    pub open spec fn progress_seen(self, line: Seq<char>, elapsed_ms: u64) -> ExecutorModel {
        match self.matchers.progress {
            Some(patterns) if readings_of(patterns, line).len() > 0 => self.emit(
                EventModel::Progress { readings: readings_of(patterns, line), elapsed_ms },
            ),
            _ => self,
        }
    }

    /// The state after the output matcher saw the line: a detected path
    /// replaces the one before.
    pub open spec fn output_seen(self, line: Seq<char>) -> ExecutorModel {
        match self.matchers.output {
            Some(matcher) if output_path(matcher, line) is Some => ExecutorModel {
                output_file: output_path(matcher, line),
                ..self
            },
            _ => self,
        }
    }

    /// Whether a flush is due at `elapsed_ms`.
    pub open spec fn flush_due(self, elapsed_ms: u64) -> bool {
        self.primary.len() >= STDOUT_FLUSH_LINES || elapsed_ms - self.last_flush_ms
            >= STDOUT_FLUSH_INTERVAL_MS
    }

    /// The state after a primary line was accepted: progress, output path and
    /// completion are derived from it in this order, the line is buffered, and
    /// the buffer is flushed where that is due.
    pub open spec fn accepted(self, line: Seq<char>, elapsed_ms: u64) -> ExecutorModel {
        let seen = self.progress_seen(line, elapsed_ms).output_seen(line).counted(line);
        let buffered = ExecutorModel { primary: seen.primary.push(line), ..seen };
        if buffered.flush_due(elapsed_ms) {
            ExecutorModel { last_flush_ms: elapsed_ms, ..buffered.flushed() }
        } else {
            buffered
        }
    }

    /// The state after the primary stream ended.
    pub open spec fn after_primary_eof(self) -> ExecutorModel {
        if self.phase is Running {
            self.flushed().in_phase(Phase::Draining)
        } else {
            self
        }
    }

    /// The state after a read on the primary stream gave a line, or failed
    /// (`None`). Outside the running phase nothing changes. A due stop wins
    /// over whatever was read; a failed read counts as the end of the stream.
    pub open spec fn after_primary_line(
        self,
        line: Option<Seq<char>>,
        elapsed_ms: u64,
    ) -> ExecutorModel {
        if !(self.phase is Running) {
            self
        } else {
            match self.stop_reason(elapsed_ms) {
                Some(reason) => self.in_phase(Phase::Stopping(reason)),
                None => match line {
                    Some(text) => self.accepted(text, elapsed_ms),
                    None => self.after_primary_eof(),
                },
            }
        }
    }

    /// The state after a line on the secondary stream: it counts toward
    /// completion and waits for the next flush. A finished job takes no more
    /// lines.
    pub open spec fn after_secondary_line(self, line: Seq<char>) -> ExecutorModel {
        if self.phase is Finished {
            self
        } else {
            let seen = self.counted(line);
            ExecutorModel { secondary: seen.secondary.push(line), ..seen }
        }
    }

    /// The terminal event of a child that left on its own.
    pub open spec fn verdict(
        self,
        outcome: Result<ExitReport, Seq<char>>,
        elapsed_ms: u64,
    ) -> EventModel {
        match outcome {
            Err(cause) => EventModel::Failed {
                exit_code: UNKNOWN_EXIT_CODE,
                error: wait_text(cause),
            },
            Ok(report) => {
                let exit_code = match report.code {
                    Some(code) => code,
                    None => UNKNOWN_EXIT_CODE,
                };
                if report.success {
                    EventModel::Completed { elapsed_ms, exit_code, output_file: self.output_file }
                } else {
                    EventModel::Failed { exit_code, error: exit_text(exit_code) }
                }
            },
        }
    }

    /// The state after the child was waited for. A stopped job flushes what is
    /// buffered and fails with the reason of the stop, whatever the wait gave.
    /// Otherwise the outcome decides, after the flush that the end of the
    /// primary stream brings if that has not happened yet.
    pub open spec fn after_exit(
        self,
        outcome: Result<ExitReport, Seq<char>>,
        elapsed_ms: u64,
    ) -> ExecutorModel {
        match self.phase {
            Phase::Finished => self,
            Phase::Stopping(reason) => self.flushed().emit(
                EventModel::Failed { exit_code: UNKNOWN_EXIT_CODE, error: stop_text(reason) },
            ).in_phase(Phase::Finished),
            Phase::Running => {
                let drained = self.after_primary_eof();
                drained.emit(drained.verdict(outcome, elapsed_ms)).in_phase(Phase::Finished)
            },
            Phase::Draining => self.emit(self.verdict(outcome, elapsed_ms)).in_phase(
                Phase::Finished,
            ),
        }
    }

    /// The state after the primary stream turned out not to be available: a
    /// running job fails at once.
    pub open spec fn after_stdout_unavailable(self) -> ExecutorModel {
        if self.phase is Running {
            self.emit(
                EventModel::Failed {
                    exit_code: UNKNOWN_EXIT_CODE,
                    error: "Failed to capture stdout"@,
                },
            ).in_phase(Phase::Finished)
        } else {
            self
        }
    }

    /// The state after a poll: every queued event has been handed out.
    pub open spec fn after_poll(self) -> ExecutorModel {
        ExecutorModel { delivered: self.history(), queued: Seq::empty(), ..self }
    }

    /// The state after one input.
    pub open spec fn step(self, input: Input) -> ExecutorModel {
        match input {
            Input::PrimaryLine { read, elapsed_ms } => self.after_primary_line(read, elapsed_ms),
            Input::PrimaryEof => self.after_primary_eof(),
            Input::SecondaryLine { line } => self.after_secondary_line(line),
            Input::Exit { outcome, elapsed_ms } => self.after_exit(outcome, elapsed_ms),
            Input::StdoutUnavailable => self.after_stdout_unavailable(),
            Input::Abort => self.with_abort(),
            Input::Poll => self.after_poll(),
        }
    }

    /// The state after a sequence of inputs, taken in order.
    pub open spec fn run(self, inputs: Seq<Input>) -> ExecutorModel
        decreases inputs.len(),
    {
        if inputs.len() == 0 {
            self
        } else {
            self.run(inputs.drop_last()).step(inputs.last())
        }
    }

    /// The number of completion matches that were reported as frames.
    pub open spec fn reported(self) -> nat {
        if self.completions <= range_len(self.frame_start, self.frame_end) {
            self.completions as nat
        } else {
            range_len(self.frame_start, self.frame_end)
        }
    }

    /// What holds of every state a job can reach: `Started` is the first event
    /// and occurs once; a terminal event occurs exactly when the job is
    /// finished, and then as the last event; the frames reported are the first
    /// frames of the range, one for each completion match until the range is
    /// used up; fewer primary lines are buffered than force a flush.
    pub open spec fn inv(self) -> bool {
        let h = self.history();
        &&& h.len() > 0
        &&& forall|i: int| 0 <= i < h.len() ==> (#[trigger] h[i] is Started <==> i == 0)
        &&& forall|i: int|
            0 <= i < h.len() ==> (#[trigger] h[i].is_terminal() <==> self.phase is Finished && i
                == h.len() - 1)
        &&& frames_of(h) == frame_run(self.frame_start, self.reported())
        &&& self.primary.len() < STDOUT_FLUSH_LINES
    }
}

} // verus!
