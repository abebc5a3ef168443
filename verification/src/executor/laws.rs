//! What holds of every job: proofs over the supervisor's transitions.

use crate::executor::model::all_primary_lines;
use crate::executor::model::batches_in;
use crate::executor::model::frame_run;
use crate::executor::model::frames_of;
use crate::executor::model::job_after;
use crate::executor::model::stderr_lines;
use crate::executor::model::EventModel;
use crate::executor::model::ExecutorModel;
use crate::executor::model::Input;
use crate::executor::model::Matchers;
use crate::executor::model::STDOUT_FLUSH_LINES;
use crate::executor::ExitReport;
use crate::executor::Phase;
use crate::executor::StopReason;
use crate::messages::TaskMessage;
use vstd::prelude::*;

verus! {

/// The frames of a history with one more event.
pub proof fn lemma_frames_of_push(events: Seq<EventModel>, event: EventModel)
    ensures
        frames_of(events.push(event)) == match event {
            EventModel::FrameCompleted { frame } => frames_of(events).push(frame),
            _ => frames_of(events),
        },
{
    assert(events.push(event).drop_last() =~= events);
}

/// The batches of a history with one more event.
pub proof fn lemma_batches_in_push(events: Seq<EventModel>, event: EventModel)
    ensures
        batches_in(events.push(event)) == if event is Stdout {
            batches_in(events) + 1
        } else {
            batches_in(events)
        },
{
    assert(events.push(event).drop_last() =~= events);
}

/// Queuing an event appends it to the history.
pub proof fn lemma_emit_history(m: ExecutorModel, event: EventModel)
    ensures
        m.emit(event).history() == m.history().push(event),
{
}

/// An event that neither starts nor ends a job nor reports a frame keeps the
/// invariant of a job that is not finished.
proof fn lemma_emit_plain(m: ExecutorModel, event: EventModel)
    requires
        m.inv(),
        !(m.phase is Finished),
        event is Stdout || event is Progress,
    ensures
        m.emit(event).inv(),
{
    lemma_emit_history(m, event);
    lemma_frames_of_push(m.history(), event);
}

/// The terminal event of a job that is not finished keeps the invariant.
proof fn lemma_emit_terminal(m: ExecutorModel, event: EventModel)
    requires
        m.inv(),
        !(m.phase is Finished),
        event.is_terminal(),
    ensures
        m.emit(event).in_phase(Phase::Finished).inv(),
{
    lemma_emit_history(m, event);
    lemma_frames_of_push(m.history(), event);
}

/// A flush keeps the invariant of a job that is not finished and leaves no
/// line buffered.
proof fn lemma_flushed(m: ExecutorModel)
    requires
        !(m.phase is Finished),
        (ExecutorModel { primary: Seq::empty(), ..m }).inv(),
    ensures
        m.flushed().inv(),
        m.flushed().primary.len() == 0,
        m.flushed().secondary.len() == 0,
        m.flushed().phase == m.phase,
{
    if m.batch().len() != 0 {
        lemma_emit_plain(
            ExecutorModel { primary: Seq::empty(), secondary: Seq::empty(), ..m },
            EventModel::Stdout(m.batch()),
        );
    }
}

/// Counting a line keeps the invariant of a job that is not finished.
proof fn lemma_counted(m: ExecutorModel, line: Seq<char>)
    requires
        m.inv(),
        !(m.phase is Finished),
    ensures
        m.counted(line).inv(),
        m.counted(line).phase == m.phase,
        m.counted(line).primary == m.primary,
{
    let after = m.counted(line);
    if after != m && m.next_frame_in_range() {
        let frame = (m.frame_start + m.completions) as u32;
        let event = EventModel::FrameCompleted { frame };
        lemma_emit_history(ExecutorModel { completions: after.completions, ..m }, event);
        lemma_frames_of_push(m.history(), event);
        assert(frame_run(m.frame_start, after.reported()) =~= frame_run(
            m.frame_start,
            m.reported(),
        ).push(frame));
    }
}

/// An accepted primary line keeps the invariant of a running job.
proof fn lemma_accepted_inv(m: ExecutorModel, line: Seq<char>, elapsed_ms: u64)
    requires
        m.inv(),
        m.phase is Running,
    ensures
        m.accepted(line, elapsed_ms).inv(),
{
    let noted = m.progress_seen(line, elapsed_ms);
    if noted != m {
        lemma_emit_plain(m, noted.queued.last());
    }
    let located = noted.output_seen(line);
    lemma_counted(located, line);
    let seen = located.counted(line);
    let buffered = ExecutorModel { primary: seen.primary.push(line), ..seen };
    if buffered.flush_due(elapsed_ms) {
        lemma_flushed(buffered);
    }
}

/// A job starts in a state that meets the invariant.
pub proof fn lemma_initial_inv(task: TaskMessage, matchers: Matchers)
    ensures
        ExecutorModel::initial(task, matchers).inv(),
{
    lemma_frames_of_push(Seq::empty(), EventModel::Started);
    assert(frame_run(task.frame_start, 0) =~= Seq::empty());
}

/// An abort request keeps the invariant.
pub proof fn lemma_abort_inv(m: ExecutorModel)
    requires
        m.inv(),
    ensures
        m.with_abort().inv(),
{
}

/// A poll keeps the invariant, and the history with it.
pub proof fn lemma_poll_inv(m: ExecutorModel)
    requires
        m.inv(),
    ensures
        m.after_poll().inv(),
        m.after_poll().history() == m.history(),
{
}

/// The end of the primary stream keeps the invariant.
pub proof fn lemma_primary_eof_inv(m: ExecutorModel)
    requires
        m.inv(),
    ensures
        m.after_primary_eof().inv(),
{
    if m.phase is Running {
        lemma_flushed(m);
    }
}

/// A read on the primary stream keeps the invariant.
pub proof fn lemma_primary_line_inv(m: ExecutorModel, line: Option<Seq<char>>, elapsed_ms: u64)
    requires
        m.inv(),
    ensures
        m.after_primary_line(line, elapsed_ms).inv(),
{
    if m.phase is Running && m.stop_reason(elapsed_ms) is None {
        match line {
            Some(text) => lemma_accepted_inv(m, text, elapsed_ms),
            None => lemma_primary_eof_inv(m),
        }
    }
}

/// A line on the secondary stream keeps the invariant.
pub proof fn lemma_secondary_line_inv(m: ExecutorModel, line: Seq<char>)
    requires
        m.inv(),
    ensures
        m.after_secondary_line(line).inv(),
{
    if !(m.phase is Finished) {
        lemma_counted(m, line);
    }
}

/// The child's exit keeps the invariant and finishes the job.
pub proof fn lemma_exit_inv(
    m: ExecutorModel,
    outcome: Result<ExitReport, Seq<char>>,
    elapsed_ms: u64,
)
    requires
        m.inv(),
    ensures
        m.after_exit(outcome, elapsed_ms).inv(),
        m.after_exit(outcome, elapsed_ms).phase is Finished,
{
    match m.phase {
        Phase::Finished => {},
        Phase::Stopping(_) => {
            lemma_flushed(m);
            lemma_emit_terminal(m.flushed(), m.after_exit(outcome, elapsed_ms).queued.last());
        },
        Phase::Running => {
            lemma_primary_eof_inv(m);
            let drained = m.after_primary_eof();
            lemma_emit_terminal(drained, drained.verdict(outcome, elapsed_ms));
        },
        Phase::Draining => {
            lemma_emit_terminal(m, m.verdict(outcome, elapsed_ms));
        },
    }
}

/// A primary stream that is not available keeps the invariant.
pub proof fn lemma_stdout_unavailable_inv(m: ExecutorModel)
    requires
        m.inv(),
    ensures
        m.after_stdout_unavailable().inv(),
{
    if m.phase is Running {
        lemma_emit_terminal(m, m.after_stdout_unavailable().queued.last());
    }
}

/// Every input keeps the invariant.
pub proof fn lemma_step_inv(m: ExecutorModel, input: Input)
    requires
        m.inv(),
    ensures
        m.step(input).inv(),
{
    match input {
        Input::PrimaryLine { read, elapsed_ms } => lemma_primary_line_inv(m, read, elapsed_ms),
        Input::PrimaryEof => lemma_primary_eof_inv(m),
        Input::SecondaryLine { line } => lemma_secondary_line_inv(m, line),
        Input::Exit { outcome, elapsed_ms } => lemma_exit_inv(m, outcome, elapsed_ms),
        Input::StdoutUnavailable => lemma_stdout_unavailable_inv(m),
        Input::Abort => lemma_abort_inv(m),
        Input::Poll => lemma_poll_inv(m),
    }
}

/// The invariant holds of every state a job can reach: whatever happens to a
/// task's job after its start, in whatever order and with whatever matchers,
/// the state meets the invariant.
pub proof fn lemma_job_inv(task: TaskMessage, matchers: Matchers, inputs: Seq<Input>)
    ensures
        job_after(task, matchers, inputs).inv(),
    decreases inputs.len(),
{
    if inputs.len() == 0 {
        lemma_initial_inv(task, matchers);
    } else {
        lemma_job_inv(task, matchers, inputs.drop_last());
        lemma_step_inv(job_after(task, matchers, inputs.drop_last()), inputs.last());
    }
}

/// No input changes the job a supervisor runs: its name and its frame range
/// stay.
pub proof fn lemma_run_keeps_the_job(m: ExecutorModel, inputs: Seq<Input>)
    ensures
        m.run(inputs).job_id == m.job_id,
        m.run(inputs).frame_start == m.frame_start,
        m.run(inputs).frame_end == m.frame_end,
    decreases inputs.len(),
{
    if inputs.len() > 0 {
        lemma_run_keeps_the_job(m, inputs.drop_last());
    }
}

/// Frames stay within the range: a job with a frame range that is not empty
/// reports at most as many frames as the range holds, and each of them lies in
/// the range.
pub proof fn lemma_frames_within_range(m: ExecutorModel)
    requires
        m.inv(),
        m.frame_start <= m.frame_end,
    ensures
        frames_of(m.history()).len() <= m.frame_end - m.frame_start + 1,
        forall|i: int|
            0 <= i < frames_of(m.history()).len() ==> m.frame_start <= #[trigger] frames_of(
                m.history(),
            )[i] <= m.frame_end,
{
}

/// For every well-formed task, whatever happens to its job: the job reports at
/// most as many frames as its range holds, and every reported frame lies in
/// the range.
pub proof fn lemma_job_frames_within_range(
    task: TaskMessage,
    matchers: Matchers,
    inputs: Seq<Input>,
)
    requires
        task.well_formed(),
    ensures
        frames_of(job_after(task, matchers, inputs).history()).len() <= task.frame_end
            - task.frame_start + 1,
        forall|i: int|
            0 <= i < frames_of(job_after(task, matchers, inputs).history()).len()
                ==> task.frame_start <= #[trigger] frames_of(
                job_after(task, matchers, inputs).history(),
            )[i] <= task.frame_end,
{
    lemma_job_inv(task, matchers, inputs);
    lemma_run_keeps_the_job(ExecutorModel::initial(task, matchers), inputs);
    lemma_frames_within_range(job_after(task, matchers, inputs));
}

/// Frames are reported in order and without gaps: the k-th reported frame is
/// the k-th frame of the range.
pub proof fn lemma_frames_in_order(m: ExecutorModel, k: int)
    requires
        m.inv(),
        0 <= k < frames_of(m.history()).len(),
    ensures
        frames_of(m.history())[k] == m.frame_start + k,
{
}

/// The terminal event is the last one: an event of the history is `Completed`
/// or `Failed` exactly when the job is finished and the event is the last.
pub proof fn lemma_terminal_event_is_last(m: ExecutorModel, i: int)
    requires
        m.inv(),
        0 <= i < m.history().len(),
    ensures
        m.history()[i].is_terminal() <==> m.phase is Finished && i == m.history().len() - 1,
{
}

/// A finished job has emitted exactly one terminal event: the last event is
/// one, and any two terminal events of the history are the same event.
pub proof fn lemma_exactly_one_terminal_event(m: ExecutorModel, i: int, j: int)
    requires
        m.inv(),
        m.phase is Finished,
        0 <= i < m.history().len(),
        0 <= j < m.history().len(),
        m.history()[i].is_terminal(),
        m.history()[j].is_terminal(),
    ensures
        m.history().last().is_terminal(),
        i == j,
{
}

/// For every task, whatever happens to its job: an event of the job is
/// `Completed` or `Failed` exactly when the job is finished and the event is
/// its last, so a job emits at most one terminal event and nothing after it.
pub proof fn lemma_job_terminal_event_is_last(
    task: TaskMessage,
    matchers: Matchers,
    inputs: Seq<Input>,
    i: int,
)
    requires
        0 <= i < job_after(task, matchers, inputs).history().len(),
    ensures
        job_after(task, matchers, inputs).history()[i].is_terminal() <==> job_after(
            task,
            matchers,
            inputs,
        ).phase is Finished && i == job_after(task, matchers, inputs).history().len() - 1,
{
    lemma_job_inv(task, matchers, inputs);
}

/// A finished job stays finished and emits nothing more.
pub proof fn lemma_finished_stays_finished(m: ExecutorModel, input: Input)
    requires
        m.phase is Finished,
    ensures
        m.step(input).phase is Finished,
        m.step(input).history() == m.history(),
{
}

/// For every task, once its child has been waited for the job is finished,
/// whatever happened before and whatever happens after: together with the
/// law before, exactly one terminal event has been emitted.
pub proof fn lemma_job_finishes_with_the_exit(
    task: TaskMessage,
    matchers: Matchers,
    inputs: Seq<Input>,
    k: int,
)
    requires
        0 <= k < inputs.len(),
        inputs[k] is Exit,
    ensures
        job_after(task, matchers, inputs).phase is Finished,
        job_after(task, matchers, inputs).history().last().is_terminal(),
    decreases inputs.len(),
{
    lemma_job_inv(task, matchers, inputs);
    let before = job_after(task, matchers, inputs.drop_last());
    if k == inputs.len() - 1 {
        lemma_job_inv(task, matchers, inputs.drop_last());
        match inputs.last() {
            Input::Exit { outcome, elapsed_ms } => lemma_exit_inv(before, outcome, elapsed_ms),
            _ => {},
        }
    } else {
        lemma_job_finishes_with_the_exit(task, matchers, inputs.drop_last(), k);
        lemma_finished_stays_finished(before, inputs.last());
    }
}

/// `Started` is the first event of every job, and no later event is `Started`.
pub proof fn lemma_started_is_first(m: ExecutorModel)
    requires
        m.inv(),
    ensures
        m.history().len() > 0,
        m.history()[0] is Started,
        forall|i: int| 0 < i < m.history().len() ==> !(#[trigger] m.history()[i] is Started),
{
}

/// For every task, whatever happens to its job: `Started` is the job's first
/// event, and no later event is `Started`.
pub proof fn lemma_job_started_is_first(task: TaskMessage, matchers: Matchers, inputs: Seq<Input>)
    ensures
        job_after(task, matchers, inputs).history().len() > 0,
        job_after(task, matchers, inputs).history()[0] is Started,
        forall|i: int|
            0 < i < job_after(task, matchers, inputs).history().len() ==> !(#[trigger] job_after(
                task,
                matchers,
                inputs,
            ).history()[i] is Started),
{
    lemma_job_inv(task, matchers, inputs);
}

/// Aborting is idempotent: a second request changes nothing.
pub proof fn lemma_abort_idempotent(m: ExecutorModel)
    ensures
        m.with_abort().with_abort() == m.with_abort(),
{
}

/// Once requested, an abort stays requested whatever happens next.
pub proof fn lemma_abort_is_never_cleared(m: ExecutorModel, input: Input)
    requires
        m.abort_requested,
    ensures
        m.step(input).abort_requested,
{
}

/// An abort request stops a running job at the next read of the primary
/// stream, whatever was read and whenever.
pub proof fn lemma_abort_stops_at_next_line(
    m: ExecutorModel,
    line: Option<Seq<char>>,
    elapsed_ms: u64,
)
    requires
        m.phase is Running,
        m.abort_requested,
    ensures
        m.after_primary_line(line, elapsed_ms) == m.in_phase(Phase::Stopping(StopReason::Aborted)),
{
}

/// Events are never taken back: whatever happens next, the history so far
/// stays as the beginning of the history.
pub proof fn lemma_history_only_grows(m: ExecutorModel, input: Input)
    ensures
        m.history().is_prefix_of(m.step(input).history()),
{
}

/// Whatever happens to a job, in whatever order, the history before stays
/// as the beginning of the history after: events keep the order of their
/// emission, and none is dropped or changed.
pub proof fn lemma_run_history_only_grows(m: ExecutorModel, inputs: Seq<Input>)
    ensures
        m.history().is_prefix_of(m.run(inputs).history()),
    decreases inputs.len(),
{
    if inputs.len() > 0 {
        lemma_run_history_only_grows(m, inputs.drop_last());
        lemma_history_only_grows(m.run(inputs.drop_last()), inputs.last());
    }
}

/// A batch holds at most fifty primary lines: where an accepted line brings a
/// flush, the batch is the primary lines buffered before, the line itself,
/// and behind them the pending secondary lines, and the primary lines among
/// them number fifty at most.
pub proof fn lemma_batch_of_an_accepted_line(m: ExecutorModel, line: Seq<char>, elapsed_ms: u64)
    requires
        m.inv(),
    ensures
        m.primary.push(line).len() <= STDOUT_FLUSH_LINES,
        forall|i: int|
            0 <= i < m.accepted(line, elapsed_ms).queued.len() && #[trigger] m.accepted(
                line,
                elapsed_ms,
            ).queued[i] is Stdout && i >= m.queued.len() ==> m.accepted(line, elapsed_ms).queued[i]
                == EventModel::Stdout(m.primary.push(line) + stderr_lines(m.secondary)),
{
}

/// One accepted line adds at least one to fifty times the number of batches
/// plus the lines buffered.
proof fn lemma_line_fills_batches(m: ExecutorModel, line: Seq<char>, elapsed_ms: u64)
    requires
        m.inv(),
        m.phase is Running,
    ensures
        m.accepted(line, elapsed_ms).phase is Running,
        m.accepted(line, elapsed_ms).abort_requested == m.abort_requested,
        m.accepted(line, elapsed_ms).timeout_seconds == m.timeout_seconds,
        STDOUT_FLUSH_LINES * batches_in(m.accepted(line, elapsed_ms).history()) + m.accepted(
            line,
            elapsed_ms,
        ).primary.len() >= STDOUT_FLUSH_LINES * batches_in(m.history()) + m.primary.len() + 1,
{
    let noted = m.progress_seen(line, elapsed_ms);
    if noted != m {
        lemma_emit_history(m, noted.queued.last());
        lemma_batches_in_push(m.history(), noted.queued.last());
    }
    let located = noted.output_seen(line);
    let seen = located.counted(line);
    if seen != located && located.next_frame_in_range() {
        lemma_emit_history(
            ExecutorModel { completions: seen.completions, ..located },
            seen.queued.last(),
        );
        lemma_batches_in_push(located.history(), seen.queued.last());
    }
    let buffered = ExecutorModel { primary: seen.primary.push(line), ..seen };
    if buffered.flush_due(elapsed_ms) {
        lemma_emit_history(
            ExecutorModel { primary: Seq::empty(), secondary: Seq::empty(), ..buffered },
            EventModel::Stdout(buffered.batch()),
        );
        lemma_batches_in_push(buffered.history(), EventModel::Stdout(buffered.batch()));
    }
}

/// Lines fill batches: while a job runs without an abort request and without
/// a timeout, every line read from the primary stream either joins the
/// buffer or closes a batch, so fifty times the number of batches plus the
/// lines still buffered grows by at least one with every line.
pub proof fn lemma_lines_fill_batches(m: ExecutorModel, inputs: Seq<Input>)
    requires
        m.inv(),
        m.phase is Running,
        !m.abort_requested,
        m.timeout_seconds is None,
        all_primary_lines(inputs),
    ensures
        m.run(inputs).inv(),
        m.run(inputs).phase is Running,
        !m.run(inputs).abort_requested,
        m.run(inputs).timeout_seconds is None,
        STDOUT_FLUSH_LINES * batches_in(m.run(inputs).history()) + m.run(inputs).primary.len()
            >= STDOUT_FLUSH_LINES * batches_in(m.history()) + m.primary.len() + inputs.len(),
    decreases inputs.len(),
{
    if inputs.len() > 0 {
        let earlier = inputs.drop_last();
        assert(all_primary_lines(earlier)) by {
            assert forall|i: int| 0 <= i < earlier.len() implies (#[trigger] earlier[i] matches
                Input::PrimaryLine {
                    read,
                    ..
                } && read is Some) by {
                assert(earlier[i] == inputs[i]);
            }
        }
        lemma_lines_fill_batches(m, earlier);
        match inputs.last() {
            Input::PrimaryLine { read: Some(text), elapsed_ms } => {
                lemma_line_fills_batches(m.run(earlier), text, elapsed_ms);
                lemma_primary_line_inv(m.run(earlier), Some(text), elapsed_ms);
            },
            _ => {},
        }
    }
}

/// A job that takes in `n` lines from its start on, without abort or
/// timeout, has emitted at least `n / 50` batches: one hundred and twenty
/// lines give at least two.
pub proof fn lemma_job_batches(task: TaskMessage, matchers: Matchers, inputs: Seq<Input>)
    requires
        task.timeout_seconds is None,
        all_primary_lines(inputs),
    ensures
        batches_in(job_after(task, matchers, inputs).history()) >= inputs.len() / (
        STDOUT_FLUSH_LINES as nat),
{
    lemma_initial_inv(task, matchers);
    lemma_lines_fill_batches(ExecutorModel::initial(task, matchers), inputs);
}

} // verus!
