//! The control loop as a state machine: Idle and Rendering.
//!
//! The loop that owns the channel to the monitor reads frames, decodes them
//! and sends what is decided here; the decisions themselves, and the relay of
//! a job's events to the monitor, are made here.

use crate::executor::model::matchers_built_from;
use crate::executor::model::spawn_text;
use crate::executor::model::EventModel;
use crate::executor::model::ExecutorModel;
use crate::executor::RenderEvent;
use crate::executor::RenderExecutor;
use crate::messages::AckMessage;
use crate::messages::AgentToMonitor;
use crate::messages::CompletedMessage;
use crate::messages::FailedMessage;
use crate::messages::FrameCompletedMessage;
use crate::messages::MonitorToAgent;
use crate::messages::ProgressMessage;
use crate::messages::ReportModel;
use crate::messages::StatusMessage;
use crate::messages::StdoutMessage;
use crate::messages::TaskMessage;
use vstd::prelude::*;
use vstd::string::*;

verus! {

/// Milliseconds the loop sleeps between two rounds while a job runs.
pub const RENDER_POLL_INTERVAL_MS: u64 = 100;

/// Milliseconds a shutdown grants a running job to unwind.
pub const SHUTDOWN_GRACE_MS: u64 = 500;

/// The two states of the control loop.
#[derive(Debug, Clone, Copy, PartialEq, Eq)]
pub enum Mode {
    /// No job is active; the loop blocks on the next frame.
    Idle,
    /// One job is active.
    Rendering,
}

/// What a read on the channel gave.
#[derive(Debug, Clone, PartialEq, Eq)]
pub enum Inbound {
    /// A frame that decoded to a command.
    Command(MonitorToAgent),
    /// A frame whose payload did not decode.
    Undecodable,
    /// The read itself failed: the channel is broken.
    Disconnected,
}

/// What the loop does after a read.
#[derive(Debug, Clone, PartialEq, Eq)]
pub enum Action {
    /// Nothing; go on with the loop.
    Proceed,
    /// Send the message; leave the loop if `exit_on_failure` is set and the
    /// send fails.
    Send { message: AgentToMonitor, exit_on_failure: bool },
    /// Spawn the task's child and report the outcome of the spawn.
    Spawn(TaskMessage),
    /// Leave the loop, after sleeping `grace_ms` milliseconds.
    Exit { grace_ms: u64 },
}

/// The content of an [`Action`].
pub enum ActionModel {
    Proceed,
    Send { message: ReportModel, exit_on_failure: bool },
    Spawn(TaskMessage),
    Exit { grace_ms: u64 },
}

impl DeepView for Action {
    type V = ActionModel;

    open spec fn deep_view(&self) -> ActionModel {
        match self {
            Action::Proceed => ActionModel::Proceed,
            Action::Send { message, exit_on_failure } => ActionModel::Send {
                message: message.deep_view(),
                exit_on_failure: *exit_on_failure,
            },
            Action::Spawn(task) => ActionModel::Spawn(*task),
            Action::Exit { grace_ms } => ActionModel::Exit { grace_ms: *grace_ms },
        }
    }
}

/// The status report of an agent.
pub open spec fn status_report(state: Seq<char>, pid: u32) -> ReportModel {
    ReportModel::Status { state, pid }
}

/// The report that relays one event of a job.
pub open spec fn report_of(
    job_id: Seq<char>,
    frame_start: u32,
    frame_end: u32,
    event: EventModel,
) -> ReportModel {
    match event {
        EventModel::Started => ReportModel::Ack { job_id, frame_start, frame_end },
        EventModel::Stdout(lines) => ReportModel::Stdout { job_id, frame_start, frame_end, lines },
        EventModel::Progress { readings, elapsed_ms } => ReportModel::Progress {
            job_id,
            frame_start,
            frame_end,
            readings,
            elapsed_ms,
        },
        EventModel::FrameCompleted { frame } => ReportModel::FrameCompleted { job_id, frame },
        EventModel::Completed { elapsed_ms, exit_code, output_file } => ReportModel::Completed {
            job_id,
            frame_start,
            frame_end,
            elapsed_ms,
            exit_code,
            output_file,
        },
        EventModel::Failed { exit_code, error } => ReportModel::Failed {
            job_id,
            frame_start,
            frame_end,
            exit_code,
            error,
        },
    }
}

/// The reports that relay a batch of events, one for one and in order.
pub open spec fn reports_of(
    job_id: Seq<char>,
    frame_start: u32,
    frame_end: u32,
    events: Seq<EventModel>,
) -> Seq<ReportModel> {
    Seq::new(events.len(), |i: int| report_of(job_id, frame_start, frame_end, events[i]))
}

/// Whether a batch of events holds a terminal one.
pub open spec fn ends_job(events: Seq<EventModel>) -> bool {
    exists|i: int| 0 <= i < events.len() && #[trigger] events[i].is_terminal()
}

/// A batch ends the job up to and with its k-th event exactly if it does so
/// before that event, or that event is terminal.
pub proof fn lemma_ends_job_by_prefix(events: Seq<EventModel>, k: int)
    requires
        0 <= k < events.len(),
    ensures
        ends_job(events.take(k + 1)) <==> ends_job(events.take(k)) || events[k].is_terminal(),
{
    let longer = events.take(k + 1);
    let shorter = events.take(k);
    if ends_job(longer) {
        let i = choose|i: int| 0 <= i < longer.len() && #[trigger] longer[i].is_terminal();
        if i < k {
            assert(shorter[i].is_terminal());
        }
    }
    if ends_job(shorter) {
        let i = choose|i: int| 0 <= i < shorter.len() && #[trigger] shorter[i].is_terminal();
        assert(longer[i].is_terminal());
    }
    if events[k].is_terminal() {
        assert(longer[k].is_terminal());
    }
}

/// What is sent for a batch of events: their reports, and behind them the
/// return to idle where the batch ends the job.
pub open spec fn relayed(
    job_id: Seq<char>,
    frame_start: u32,
    frame_end: u32,
    pid: u32,
    events: Seq<EventModel>,
) -> Seq<ReportModel> {
    if ends_job(events) {
        reports_of(job_id, frame_start, frame_end, events).push(status_report("idle"@, pid))
    } else {
        reports_of(job_id, frame_start, frame_end, events)
    }
}

/// What an idle loop does after a read: a ping is answered, and the loop ends
/// if the answer cannot be sent; a shutdown or a broken channel ends the
/// loop; a task is to be spawned; an abort finds nothing to abort, and a
/// payload that did not decode is dropped.
pub open spec fn idle_action(input: Inbound) -> ActionModel {
    match input {
        Inbound::Command(MonitorToAgent::Ping) => ActionModel::Send {
            message: ReportModel::Pong,
            exit_on_failure: true,
        },
        Inbound::Command(MonitorToAgent::Shutdown) => ActionModel::Exit { grace_ms: 0 },
        Inbound::Command(MonitorToAgent::Task(task)) => ActionModel::Spawn(task),
        Inbound::Command(MonitorToAgent::Abort(_)) => ActionModel::Proceed,
        Inbound::Undecodable => ActionModel::Proceed,
        Inbound::Disconnected => ActionModel::Exit { grace_ms: 0 },
    }
}

/// What a rendering loop does after a read: a ping is answered; a shutdown
/// ends the loop after the grace period; a broken channel ends it at once; a
/// task is ignored, one job at a time; an abort leaves the loop running, and
/// a payload that did not decode is dropped.
pub open spec fn rendering_action(input: Inbound) -> ActionModel {
    match input {
        Inbound::Command(MonitorToAgent::Ping) => ActionModel::Send {
            message: ReportModel::Pong,
            exit_on_failure: false,
        },
        Inbound::Command(MonitorToAgent::Shutdown) => ActionModel::Exit {
            grace_ms: SHUTDOWN_GRACE_MS,
        },
        Inbound::Command(MonitorToAgent::Task(_)) => ActionModel::Proceed,
        Inbound::Command(MonitorToAgent::Abort(_)) => ActionModel::Proceed,
        Inbound::Undecodable => ActionModel::Proceed,
        Inbound::Disconnected => ActionModel::Exit { grace_ms: 0 },
    }
}

/// Whether a read makes a rendering loop abort its job: a shutdown, an abort
/// and a broken channel do.
pub open spec fn aborts_job(input: Inbound) -> bool {
    match input {
        Inbound::Command(MonitorToAgent::Shutdown) => true,
        Inbound::Command(MonitorToAgent::Abort(_)) => true,
        Inbound::Disconnected => true,
        _ => false,
    }
}

/// The status message of an agent.
pub fn status_message(state: &str, pid: u32) -> (message: AgentToMonitor)
    ensures
        message.deep_view() == status_report(state@, pid),
{
    AgentToMonitor::Status(StatusMessage { state: String::from_str(state), pid })
}

/// Relays one event of a job as the message the monitor expects for it.
pub fn relay_event(
    job_id: &String,
    frame_start: u32,
    frame_end: u32,
    event: RenderEvent,
) -> (message: AgentToMonitor)
    ensures
        message.deep_view() == report_of(job_id@, frame_start, frame_end, event.deep_view()),
{
    let job_id = job_id.clone();
    match event {
        RenderEvent::Started => AgentToMonitor::Ack(AckMessage { job_id, frame_start, frame_end }),
        RenderEvent::Stdout(lines) => AgentToMonitor::Stdout(
            StdoutMessage { job_id, frame_start, frame_end, lines },
        ),
        RenderEvent::Progress { readings, elapsed_ms } => AgentToMonitor::Progress(
            ProgressMessage { job_id, frame_start, frame_end, readings, elapsed_ms },
        ),
        RenderEvent::FrameCompleted { frame } => AgentToMonitor::FrameCompleted(
            FrameCompletedMessage { job_id, frame },
        ),
        RenderEvent::Completed { elapsed_ms, exit_code, output_file } => AgentToMonitor::Completed(
            CompletedMessage { job_id, frame_start, frame_end, elapsed_ms, exit_code, output_file },
        ),
        RenderEvent::Failed { exit_code, error } => AgentToMonitor::Failed(
            FailedMessage { job_id, frame_start, frame_end, exit_code, error },
        ),
    }
}

/// The control loop's state: its mode, and the process id it reports.
pub struct ControlLoop {
    pid: u32,
    mode: Mode,
}

impl ControlLoop {
    /// The mode the loop is in.
    pub closed spec fn spec_mode(&self) -> Mode {
        self.mode
    }

    /// The process id the loop reports.
    pub closed spec fn spec_pid(&self) -> u32 {
        self.pid
    }

    /// Starts the loop: idle, with the status message to send first.
    pub fn new(pid: u32) -> (started: (ControlLoop, AgentToMonitor))
        ensures
            started.0.spec_mode() == Mode::Idle,
            started.0.spec_pid() == pid,
            started.1.deep_view() == status_report("idle"@, pid),
    {
        (ControlLoop { pid, mode: Mode::Idle }, status_message("idle", pid))
    }

    /// The mode the loop is in.
    #[verifier::when_used_as_spec(spec_mode)]
    pub fn mode(&self) -> (mode: Mode)
        ensures
            mode == self.spec_mode(),
    {
        self.mode
    }

    /// The process id the loop reports.
    #[verifier::when_used_as_spec(spec_pid)]
    pub fn pid(&self) -> (pid: u32)
        ensures
            pid == self.spec_pid(),
    {
        self.pid
    }

    /// Decides what an idle loop does after a read.
    pub fn on_idle_input(&self, input: Inbound) -> (action: Action)
        ensures
            action.deep_view() == idle_action(input),
    {
        match input {
            Inbound::Command(MonitorToAgent::Ping) => Action::Send {
                message: AgentToMonitor::Pong,
                exit_on_failure: true,
            },
            Inbound::Command(MonitorToAgent::Shutdown) => Action::Exit { grace_ms: 0 },
            Inbound::Command(MonitorToAgent::Task(task)) => Action::Spawn(task),
            Inbound::Command(MonitorToAgent::Abort(_)) => Action::Proceed,
            Inbound::Undecodable => Action::Proceed,
            Inbound::Disconnected => Action::Exit { grace_ms: 0 },
        }
    }

    /// Takes in the outcome of spawning a task's child.
    ///
    /// After a spawn that worked, the loop is rendering: the job's supervisor
    /// comes back with the status message to send. After one that failed the
    /// loop stays as it was and nothing is to be sent; the error text comes
    /// back for the log.
    pub fn on_spawn(&mut self, task: TaskMessage, spawned: Result<(), String>) -> (started: Result<
        (RenderExecutor, AgentToMonitor),
        String,
    >)
        ensures
            final(self).spec_pid() == old(self).spec_pid(),
            match spawned {
                Err(cause) => {
                    &&& started matches Err(text)
                    &&& text@ == spawn_text(cause@)
                    &&& final(self).spec_mode() == old(self).spec_mode()
                },
                Ok(_) => {
                    &&& started matches Ok((executor, message))
                    &&& final(self).spec_mode() == Mode::Rendering
                    &&& message.deep_view() == status_report("rendering"@, old(self).spec_pid())
                    &&& executor.wf()
                    &&& executor@ == ExecutorModel::initial(task, executor@.matchers)
                    &&& matchers_built_from(executor@.matchers, task)
                },
            },
    {
        match RenderExecutor::start(task, spawned) {
            Ok(executor) => {
                self.mode = Mode::Rendering;
                Ok((executor, status_message("rendering", self.pid)))
            },
            Err(text) => Err(text),
        }
    }

    /// Drains the job's queued events and relays each as a message, in order.
    /// Where a terminal event is among them, the return to idle is reported
    /// behind them and the loop is idle again.
    pub fn relay_events(&mut self, executor: &mut RenderExecutor) -> (messages: Vec<AgentToMonitor>)
        requires
            old(executor).wf(),
        ensures
            final(executor).wf(),
            final(executor)@ == old(executor)@.after_poll(),
            final(self).spec_pid() == old(self).spec_pid(),
            final(self).spec_mode() == if ends_job(old(executor)@.queued) {
                Mode::Idle
            } else {
                old(self).spec_mode()
            },
            messages.deep_view() == relayed(
                old(executor)@.job_id,
                old(executor)@.frame_start,
                old(executor)@.frame_end,
                old(self).spec_pid(),
                old(executor)@.queued,
            ),
    {
        let events = executor.poll_events();
        let frame_start = executor.frame_start();
        let frame_end = executor.frame_end();
        let ghost batch = events.deep_view();
        let ghost job = executor@.job_id;
        let mut messages: Vec<AgentToMonitor> = Vec::new();
        let mut done = false;
        for event in it: events
            invariant
                it.seq().len() == batch.len(),
                forall|i: int|
                    0 <= i < batch.len() ==> (#[trigger] it.seq()[i]).deep_view() == batch[i],
                job == executor@.job_id,
                done == ends_job(batch.take(it.index())),
                messages.deep_view() == reports_of(
                    job,
                    frame_start,
                    frame_end,
                    batch.take(it.index()),
                ),
        {
            let ghost seen = it.index();
            let ghost before = messages.deep_view();
            let terminal = match &event {
                RenderEvent::Completed { .. } => true,
                RenderEvent::Failed { .. } => true,
                _ => false,
            };
            let message = relay_event(executor.job_id(), frame_start, frame_end, event);
            messages.push(message);
            proof {
                assert(messages.deep_view() =~= before.push(message.deep_view()));
                lemma_ends_job_by_prefix(batch, seen);
            }
            if terminal {
                done = true;
            }
        }
        assert(batch.take(batch.len() as int) =~= batch);
        if done {
            self.mode = Mode::Idle;
            messages.push(status_message("idle", self.pid));
        }
        messages
    }

    /// Decides what a rendering loop does after a read, and passes an abort
    /// on to the job where the read asks for one.
    pub fn on_rendering_input(&self, executor: &mut RenderExecutor, input: Inbound) -> (action:
        Action)
        requires
            old(executor).wf(),
        ensures
            final(executor).wf(),
            final(executor)@ == if aborts_job(input) {
                old(executor)@.with_abort()
            } else {
                old(executor)@
            },
            action.deep_view() == rendering_action(input),
    {
        match input {
            Inbound::Command(MonitorToAgent::Ping) => Action::Send {
                message: AgentToMonitor::Pong,
                exit_on_failure: false,
            },
            Inbound::Command(MonitorToAgent::Shutdown) => {
                executor.abort();
                Action::Exit { grace_ms: SHUTDOWN_GRACE_MS }
            },
            Inbound::Command(MonitorToAgent::Task(_)) => Action::Proceed,
            Inbound::Command(MonitorToAgent::Abort(_)) => {
                executor.abort();
                Action::Proceed
            },
            Inbound::Undecodable => Action::Proceed,
            Inbound::Disconnected => {
                executor.abort();
                Action::Exit { grace_ms: 0 }
            },
        }
    }
}

} // verus!
