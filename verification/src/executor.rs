//! The process supervisor as a state machine.
//!
//! The supervisor owns no process and reads no pipe. Whoever does feeds it what
//! happened (a line on either stream, the end of the primary stream, the child's
//! exit) together with the time elapsed since the spawn, and carries out what it
//! answers. Every event the job produces is queued here until it is polled.

pub mod laws;
pub mod model;

use crate::executor::laws::lemma_abort_inv;
use crate::executor::laws::lemma_exit_inv;
use crate::executor::laws::lemma_initial_inv;
use crate::executor::laws::lemma_poll_inv;
use crate::executor::laws::lemma_primary_eof_inv;
use crate::executor::laws::lemma_primary_line_inv;
use crate::executor::laws::lemma_secondary_line_inv;
use crate::executor::laws::lemma_stdout_unavailable_inv;
use crate::executor::model::directive_of;
use crate::executor::model::matchers_built_from;
use crate::executor::model::outcome_model;
use crate::executor::model::spawn_text;
use crate::executor::model::stderr_line;
use crate::executor::model::stderr_lines;
use crate::executor::model::EventModel;
use crate::executor::model::ExecutorModel;
use crate::executor::model::Matchers;
use crate::executor::model::STDOUT_FLUSH_INTERVAL_MS;
use crate::executor::model::STDOUT_FLUSH_LINES;
use crate::executor::model::UNKNOWN_EXIT_CODE;
use crate::messages::TaskMessage;
use crate::parser::CompletionParser;
use crate::parser::OutputParser;
use crate::parser::ProgressParser;
use crate::parser::ProgressReading;
use crate::text::i32_to_decimal;
use crate::text::prefixed;
use crate::text::u64_to_decimal;
use vstd::prelude::*;
use vstd::string::*;

verus! {

/// What a job reports while it runs.
#[derive(Debug, Clone, PartialEq, Eq)]
pub enum RenderEvent {
    Started,
    Stdout(Vec<String>),
    /// The numerals that the progress patterns captured from one line,
    /// candidates in pattern order.
    Progress { readings: Vec<ProgressReading>, elapsed_ms: u64 },
    FrameCompleted { frame: u32 },
    Completed { elapsed_ms: u64, exit_code: i32, output_file: Option<String> },
    Failed { exit_code: i32, error: String },
}

impl DeepView for RenderEvent {
    type V = EventModel;

    open spec fn deep_view(&self) -> EventModel {
        match self {
            RenderEvent::Started => EventModel::Started,
            RenderEvent::Stdout(lines) => EventModel::Stdout(lines.deep_view()),
            RenderEvent::Progress { readings, elapsed_ms } => EventModel::Progress {
                readings: readings.deep_view(),
                elapsed_ms: *elapsed_ms,
            },
            RenderEvent::FrameCompleted { frame } => EventModel::FrameCompleted { frame: *frame },
            RenderEvent::Completed { elapsed_ms, exit_code, output_file } => EventModel::Completed {
                elapsed_ms: *elapsed_ms,
                exit_code: *exit_code,
                output_file: output_file.deep_view(),
            },
            RenderEvent::Failed { exit_code, error } => EventModel::Failed {
                exit_code: *exit_code,
                error: error@,
            },
        }
    }
}

/// Why a running child is to be killed.
#[derive(Debug, Clone, Copy, PartialEq, Eq)]
pub enum StopReason {
    /// The monitor asked for it.
    Aborted,
    /// The job ran longer than the seconds it was given.
    TimedOut { seconds: u64 },
}

/// Where a job stands.
#[derive(Debug, Clone, Copy, PartialEq, Eq)]
pub enum Phase {
    /// The child runs and its primary stream is read.
    Running,
    /// The child is to be killed and reaped.
    Stopping(StopReason),
    /// The primary stream has ended; the child's exit is awaited.
    Draining,
    /// The terminal event has been emitted.
    Finished,
}

/// What the owner of the child does next.
#[derive(Debug, Clone, Copy, PartialEq, Eq)]
pub enum Directive {
    /// Read the next primary line.
    Continue,
    /// Kill the child, wait for it to exit, then report the exit.
    KillChild,
    /// Wait for the child to exit, then report the exit.
    AwaitExit,
    /// Nothing: the job is over.
    Done,
}

/// How the child left, as far as the system tells.
#[derive(Debug, Clone, Copy, PartialEq, Eq)]
pub struct ExitReport {
    /// Whether the exit status indicates success.
    pub success: bool,
    /// The exit code, where the child exited with one.
    pub code: Option<i32>,
}

/// Merges the buffered primary lines and the pending secondary lines into one
/// batch: the primary lines first, then each secondary line behind its mark.
pub fn merge_lines(primary: Vec<String>, secondary: &Vec<String>) -> (batch: Vec<String>)
    ensures
        batch.deep_view() == primary.deep_view() + stderr_lines(secondary.deep_view()),
{
    let mut batch = primary;
    let mut i: usize = 0;
    while i < secondary.len()
        invariant
            i <= secondary@.len(),
            batch.deep_view() == primary.deep_view() + stderr_lines(
                secondary.deep_view().take(i as int),
            ),
        decreases secondary@.len() - i,
    {
        let ghost before = batch.deep_view();
        let line = prefixed("[stderr] ", secondary[i].as_str());
        batch.push(line);
        proof {
            assert(batch.deep_view() =~= before.push(line@));
        }
        i += 1;
    }
    batch
}

/// The supervisor of one job.
pub struct RenderExecutor {
    job_id: String,
    frame_start: u32,
    frame_end: u32,
    timeout_seconds: Option<u64>,
    progress_parser: Option<ProgressParser>,
    output_parser: Option<OutputParser>,
    completion_parser: Option<CompletionParser>,
    phase: Phase,
    abort_requested: bool,
    completions: u64,
    primary: Vec<String>,
    secondary: Vec<String>,
    last_flush_ms: u64,
    output_file: Option<String>,
    queued: Vec<RenderEvent>,
    delivered: Ghost<Seq<EventModel>>,
}

impl View for RenderExecutor {
    type V = ExecutorModel;

    closed spec fn view(&self) -> ExecutorModel {
        ExecutorModel {
            job_id: self.job_id@,
            frame_start: self.frame_start,
            frame_end: self.frame_end,
            timeout_seconds: self.timeout_seconds,
            matchers: Matchers {
                progress: match self.progress_parser {
                    Some(parser) => Some(parser@),
                    None => None,
                },
                output: match self.output_parser {
                    Some(parser) => Some(parser@),
                    None => None,
                },
                completion: match self.completion_parser {
                    Some(parser) => Some(parser@),
                    None => None,
                },
            },
            phase: self.phase,
            abort_requested: self.abort_requested,
            completions: self.completions,
            primary: self.primary.deep_view(),
            secondary: self.secondary.deep_view(),
            last_flush_ms: self.last_flush_ms,
            output_file: self.output_file.deep_view(),
            delivered: self.delivered@,
            queued: self.queued.deep_view(),
        }
    }
}

impl RenderExecutor {
    /// Whether the supervisor is in a state a job can reach.
    pub open spec fn wf(&self) -> bool {
        self@.inv()
    }

    /// Takes over a job whose child was spawned, or reports why it was not.
    ///
    /// A failed spawn gives the error text and no supervisor. Otherwise the
    /// matchers are compiled from the task, and the supervisor starts
    /// running with `Started` queued as the job's first event.
    pub fn start(task: TaskMessage, spawned: Result<(), String>) -> (started: Result<Self, String>)
        ensures
            match spawned {
                Err(cause) => started matches Err(text) && text@ == spawn_text(cause@),
                Ok(_) => {
                    &&& started matches Ok(executor)
                    &&& executor.wf()
                    &&& executor@ == ExecutorModel::initial(task, executor@.matchers)
                    &&& matchers_built_from(executor@.matchers, task)
                },
            },
    {
        if let Err(cause) = spawned {
            return Err(prefixed("Failed to spawn process: ", cause.as_str()));
        }
        let (progress_parser, completion_parser) = match &task.progress {
            Some(spec) => {
                let completion = match &spec.completion_pattern {
                    Some(def) => CompletionParser::new(def),
                    None => None,
                };
                (Some(ProgressParser::new(spec)), completion)
            },
            None => (None, None),
        };
        let output_parser = match &task.output_detection {
            Some(config) => OutputParser::new(config),
            None => None,
        };
        let mut queued: Vec<RenderEvent> = Vec::new();
        queued.push(RenderEvent::Started);
        let executor = RenderExecutor {
            job_id: task.job_id,
            frame_start: task.frame_start,
            frame_end: task.frame_end,
            timeout_seconds: task.timeout_seconds,
            progress_parser,
            output_parser,
            completion_parser,
            phase: Phase::Running,
            abort_requested: false,
            completions: 0,
            primary: Vec::new(),
            secondary: Vec::new(),
            last_flush_ms: 0,
            output_file: None,
            queued,
            delivered: Ghost(Seq::empty()),
        };
        proof {
            let m = executor@;
            assert(m.queued =~= seq![EventModel::Started]);
            assert(m.primary =~= Seq::empty());
            assert(m.secondary =~= Seq::empty());
            lemma_initial_inv(task, m.matchers);
        }
        Ok(executor)
    }

    /// The job this supervisor runs.
    pub fn job_id(&self) -> (id: &String)
        ensures
            id@ == self@.job_id,
    {
        &self.job_id
    }

    /// The first frame of the job's range.
    pub fn frame_start(&self) -> (frame: u32)
        ensures
            frame == self@.frame_start,
    {
        self.frame_start
    }

    /// The last frame of the job's range.
    pub fn frame_end(&self) -> (frame: u32)
        ensures
            frame == self@.frame_end,
    {
        self.frame_end
    }

    /// Hands out every event queued since the last poll, in the order of
    /// emission; an empty batch if there is none.
    pub fn poll_events(&mut self) -> (events: Vec<RenderEvent>)
        requires
            old(self).wf(),
        ensures
            final(self).wf(),
            events.deep_view() == old(self)@.queued,
            final(self)@ == old(self)@.after_poll(),
    {
        let mut events: Vec<RenderEvent> = Vec::new();
        core::mem::swap(&mut events, &mut self.queued);
        self.delivered = Ghost(self.delivered@ + events.deep_view());
        proof {
            assert(self.queued.deep_view() =~= Seq::empty());
            lemma_poll_inv(old(self)@);
        }
        events
    }

    /// Requests that the job be stopped. The request takes effect at the next
    /// read of the primary stream and is never withdrawn.
    pub fn abort(&mut self)
        requires
            old(self).wf(),
        ensures
            final(self).wf(),
            final(self)@ == old(self)@.with_abort(),
    {
        self.abort_requested = true;
        proof {
            lemma_abort_inv(old(self)@);
        }
    }

    /// Whether the job has emitted its terminal event.
    pub fn is_done(&self) -> (done: bool)
        ensures
            done == (self@.phase is Finished),
    {
        match self.phase {
            Phase::Finished => true,
            _ => false,
        }
    }

    /// What the owner of the child does next.
    pub fn directive(&self) -> (next: Directive)
        ensures
            next == directive_of(self@.phase),
    {
        match self.phase {
            Phase::Running => Directive::Continue,
            Phase::Stopping(_) => Directive::KillChild,
            Phase::Draining => Directive::AwaitExit,
            Phase::Finished => Directive::Done,
        }
    }

    fn emit(&mut self, event: RenderEvent)
        ensures
            final(self)@ == old(self)@.emit(event.deep_view()),
    {
        self.queued.push(event);
        proof {
            assert(self.queued.deep_view() =~= old(self).queued.deep_view().push(
                event.deep_view(),
            ));
        }
    }

    /// Flushes both buffers into one `Stdout` event, or into none where both
    /// are empty.
    fn flush_stdout(&mut self)
        ensures
            final(self)@ == old(self)@.flushed(),
    {
        let mut primary: Vec<String> = Vec::new();
        core::mem::swap(&mut primary, &mut self.primary);
        let batch = merge_lines(primary, &self.secondary);
        self.secondary.clear();
        proof {
            assert(self.primary.deep_view() =~= Seq::empty());
            assert(self.secondary.deep_view() =~= Seq::empty());
        }
        if batch.len() > 0 {
            self.emit(RenderEvent::Stdout(batch));
        }
    }

    /// Runs a line past the completion matcher.
    fn count(&mut self, line: &str)
        ensures
            final(self)@ == old(self)@.counted(line@),
    {
        let matched = match &self.completion_parser {
            Some(parser) => parser.matches(line),
            None => false,
        };
        if matched {
            let count = self.completions;
            if count < u64::MAX {
                self.completions = count + 1;
            }
            if self.frame_start <= self.frame_end && count <= (self.frame_end
                - self.frame_start) as u64 {
                let frame = self.frame_start + count as u32;
                self.emit(RenderEvent::FrameCompleted { frame });
            }
        }
    }

    /// Why the child must be stopped now, if it must.
    fn stop_reason(&self, elapsed_ms: u64) -> (reason: Option<StopReason>)
        ensures
            reason == self@.stop_reason(elapsed_ms),
    {
        if self.abort_requested {
            return Some(StopReason::Aborted);
        }
        match self.timeout_seconds {
            Some(seconds) => {
                if elapsed_ms as u128 > seconds as u128 * 1000 {
                    Some(StopReason::TimedOut { seconds })
                } else {
                    None
                }
            },
            None => None,
        }
    }

    /// Takes in a line that was accepted from the primary stream.
    fn accept(&mut self, line: String, elapsed_ms: u64)
        requires
            old(self)@.primary.len() < STDOUT_FLUSH_LINES,
        ensures
            final(self)@ == old(self)@.accepted(line@, elapsed_ms),
    {
        let readings = match &self.progress_parser {
            Some(parser) => parser.parse_line(line.as_str()),
            None => Vec::new(),
        };
        if readings.len() > 0 {
            self.emit(RenderEvent::Progress { readings, elapsed_ms });
        }
        let found = match &self.output_parser {
            Some(parser) => parser.parse_line(line.as_str()),
            None => None,
        };
        if found.is_some() {
            self.output_file = found;
        }
        self.count(line.as_str());
        let ghost seen = self@;
        self.primary.push(line);
        proof {
            assert(self.primary.deep_view() =~= seen.primary.push(line@));
        }
        if self.primary.len() >= STDOUT_FLUSH_LINES || (elapsed_ms >= self.last_flush_ms
            && elapsed_ms - self.last_flush_ms >= STDOUT_FLUSH_INTERVAL_MS) {
            self.flush_stdout();
            self.last_flush_ms = elapsed_ms;
        }
    }

    /// Takes in what a read on the primary stream gave: a line, or `None`
    /// where the read failed. Returns what to do next.
    ///
    /// A running job first looks at the abort request and the timeout. Where
    /// either asks for a stop, nothing is derived from the line and the child
    /// is to be killed. Otherwise a line feeds the progress, output and
    /// completion matchers in this order and is buffered, and the buffers are
    /// flushed once the line count or the time since the last flush asks for
    /// it; a failed read ends the stream. Outside the running phase the read
    /// is ignored.
    pub fn on_primary_line(&mut self, line: Option<String>, elapsed_ms: u64) -> (next: Directive)
        requires
            old(self).wf(),
        ensures
            final(self).wf(),
            final(self)@ == old(self)@.after_primary_line(line.deep_view(), elapsed_ms),
            next == directive_of(final(self)@.phase),
    {
        proof {
            lemma_primary_line_inv(old(self)@, line.deep_view(), elapsed_ms);
        }
        if let Phase::Running = self.phase {
            match self.stop_reason(elapsed_ms) {
                Some(reason) => {
                    self.phase = Phase::Stopping(reason);
                },
                None => match line {
                    Some(text) => {
                        self.accept(text, elapsed_ms);
                    },
                    None => {
                        self.flush_stdout();
                        self.phase = Phase::Draining;
                    },
                },
            }
        }
        self.directive()
    }

    /// Takes in the end of the primary stream: a running job flushes what is
    /// buffered and awaits the child's exit.
    pub fn on_primary_eof(&mut self)
        requires
            old(self).wf(),
        ensures
            final(self).wf(),
            final(self)@ == old(self)@.after_primary_eof(),
    {
        proof {
            lemma_primary_eof_inv(old(self)@);
        }
        if let Phase::Running = self.phase {
            self.flush_stdout();
            self.phase = Phase::Draining;
        }
    }

    /// Takes in a line of the secondary stream: it counts toward completion
    /// like a primary line and joins the next batch. A finished job ignores it.
    pub fn on_secondary_line(&mut self, line: String)
        requires
            old(self).wf(),
        ensures
            final(self).wf(),
            final(self)@ == old(self)@.after_secondary_line(line@),
    {
        proof {
            lemma_secondary_line_inv(old(self)@, line@);
        }
        if let Phase::Finished = self.phase {
            return ;
        }
        self.count(line.as_str());
        let ghost seen = self@;
        self.secondary.push(line);
        proof {
            assert(self.secondary.deep_view() =~= seen.secondary.push(line@));
        }
    }

    /// The terminal event of a child that left on its own.
    fn verdict(&self, outcome: Result<ExitReport, String>, elapsed_ms: u64) -> (event: RenderEvent)
        ensures
            event.deep_view() == self@.verdict(
                outcome_model(outcome),
                elapsed_ms,
            ),
    {
        match outcome {
            Err(cause) => {
                RenderEvent::Failed {
                    exit_code: UNKNOWN_EXIT_CODE,
                    error: prefixed("Failed to wait for process: ", cause.as_str()),
                }
            },
            Ok(report) => {
                let exit_code = match report.code {
                    Some(code) => code,
                    None => UNKNOWN_EXIT_CODE,
                };
                if report.success {
                    let output_file = match &self.output_file {
                        Some(path) => Some(path.clone()),
                        None => None,
                    };
                    RenderEvent::Completed { elapsed_ms, exit_code, output_file }
                } else {
                    let digits = i32_to_decimal(exit_code);
                    RenderEvent::Failed {
                        exit_code,
                        error: prefixed("Process exited with code ", digits.as_str()),
                    }
                }
            },
        }
    }

    /// Takes in the outcome of waiting for the child: the exit report, or why
    /// the wait failed. Emits the job's terminal event and finishes the job.
    ///
    /// A job that was stopped flushes what is buffered and fails with the
    /// reason of the stop. Any other job completes if the child left with
    /// success, carrying the most recent output path, and fails otherwise.
    pub fn on_exit(&mut self, outcome: Result<ExitReport, String>, elapsed_ms: u64)
        requires
            old(self).wf(),
        ensures
            final(self).wf(),
            final(self)@ == old(self)@.after_exit(
                outcome_model(outcome),
                elapsed_ms,
            ),
            final(self)@.phase is Finished,
    {
        proof {
            lemma_exit_inv(
                old(self)@,
                outcome_model(outcome),
                elapsed_ms,
            );
        }
        match self.phase {
            Phase::Finished => {
                return ;
            },
            Phase::Stopping(reason) => {
                self.flush_stdout();
                let error = match reason {
                    StopReason::Aborted => String::from_str("Aborted by monitor"),
                    StopReason::TimedOut { seconds } => {
                        let digits = u64_to_decimal(seconds);
                        let mut text = prefixed("Timeout after ", digits.as_str());
                        text.append("s");
                        text
                    },
                };
                self.emit(RenderEvent::Failed { exit_code: UNKNOWN_EXIT_CODE, error });
            },
            Phase::Running => {
                self.flush_stdout();
                self.phase = Phase::Draining;
                let event = self.verdict(outcome, elapsed_ms);
                self.emit(event);
            },
            Phase::Draining => {
                let event = self.verdict(outcome, elapsed_ms);
                self.emit(event);
            },
        }
        self.phase = Phase::Finished;
    }

    /// Takes in that the child's primary stream could not be had: a running
    /// job fails at once, without a flush.
    pub fn on_stdout_unavailable(&mut self)
        requires
            old(self).wf(),
        ensures
            final(self).wf(),
            final(self)@ == old(self)@.after_stdout_unavailable(),
    {
        proof {
            lemma_stdout_unavailable_inv(old(self)@);
        }
        if let Phase::Running = self.phase {
            self.emit(
                RenderEvent::Failed {
                    exit_code: UNKNOWN_EXIT_CODE,
                    error: String::from_str("Failed to capture stdout"),
                },
            );
            self.phase = Phase::Finished;
        }
    }
}

} // verus!
