use std::collections::HashMap;
use sr_agent::control::relay_event;
use sr_agent::control::status_message;
use sr_agent::control::Action;
use sr_agent::control::ControlLoop;
use sr_agent::control::Inbound;
use sr_agent::control::Mode;
use sr_agent::control::RENDER_POLL_INTERVAL_MS;
use sr_agent::control::SHUTDOWN_GRACE_MS;
use sr_agent::executor::Directive;
use sr_agent::executor::ExitReport;
use sr_agent::executor::RenderEvent;
use sr_agent::messages::AbortMessage;
use sr_agent::messages::AckMessage;
use sr_agent::messages::AgentToMonitor;
use sr_agent::messages::CommandSpec;
use sr_agent::messages::CompletedMessage;
use sr_agent::messages::FailedMessage;
use sr_agent::messages::FrameCompletedMessage;
use sr_agent::messages::MonitorToAgent;
use sr_agent::messages::ProgressMessage;
use sr_agent::messages::StatusMessage;
use sr_agent::messages::StdoutMessage;
use sr_agent::messages::TaskMessage;
use sr_agent::parser::ProgressReading;

fn task() -> TaskMessage {
    TaskMessage {
        job_id: "job-7".to_string(),
        frame_start: 10,
        frame_end: 20,
        command: CommandSpec { executable: "render".to_string(), args: Vec::new() },
        working_dir: None,
        environment: HashMap::from([("THREADS".to_string(), "8".to_string())]),
        progress: None,
        output_detection: None,
        timeout_seconds: None,
    }
}

fn status(state: &str, pid: u32) -> AgentToMonitor {
    AgentToMonitor::Status(StatusMessage { state: state.to_string(), pid })
}

fn abort_command() -> Inbound {
    Inbound::Command(MonitorToAgent::Abort(AbortMessage { reason: "user".to_string() }))
}

#[test]
fn loop_constants() {
    assert_eq!(RENDER_POLL_INTERVAL_MS, 100);
    assert_eq!(SHUTDOWN_GRACE_MS, 500);
}

#[test]
fn loop_starts_idle_and_says_so() {
    let (control, first) = ControlLoop::new(4242);
    assert_eq!(control.mode(), Mode::Idle);
    assert_eq!(control.pid(), 4242);
    assert_eq!(first, status("idle", 4242));
}

#[test]
fn status_message_carries_state_and_pid() {
    assert_eq!(status_message("rendering", 1), status("rendering", 1));
}

#[test]
fn idle_ping_is_answered_and_a_failed_answer_ends_the_loop() {
    let (control, _) = ControlLoop::new(1);
    assert_eq!(
        control.on_idle_input(Inbound::Command(MonitorToAgent::Ping)),
        Action::Send { message: AgentToMonitor::Pong, exit_on_failure: true }
    );
}

#[test]
fn idle_shutdown_ends_the_loop_at_once() {
    let (control, _) = ControlLoop::new(1);
    assert_eq!(
        control.on_idle_input(Inbound::Command(MonitorToAgent::Shutdown)),
        Action::Exit { grace_ms: 0 }
    );
}

#[test]
fn idle_task_is_to_be_spawned() {
    let (control, _) = ControlLoop::new(1);
    assert_eq!(
        control.on_idle_input(Inbound::Command(MonitorToAgent::Task(task()))),
        Action::Spawn(task())
    );
}

#[test]
fn idle_abort_finds_nothing_to_abort() {
    let (control, _) = ControlLoop::new(1);
    assert_eq!(control.on_idle_input(abort_command()), Action::Proceed);
}

#[test]
fn idle_undecodable_payload_is_dropped() {
    let (control, _) = ControlLoop::new(1);
    assert_eq!(control.on_idle_input(Inbound::Undecodable), Action::Proceed);
}

#[test]
fn idle_broken_channel_ends_the_loop() {
    let (control, _) = ControlLoop::new(1);
    assert_eq!(control.on_idle_input(Inbound::Disconnected), Action::Exit { grace_ms: 0 });
}

#[test]
fn spawn_that_worked_starts_rendering() {
    let (mut control, _) = ControlLoop::new(77);
    let (mut executor, message) = control.on_spawn(task(), Ok(())).ok().unwrap();
    assert_eq!(control.mode(), Mode::Rendering);
    assert_eq!(message, status("rendering", 77));
    assert_eq!(executor.job_id(), "job-7");
    assert_eq!(executor.poll_events(), vec![RenderEvent::Started]);
}

#[test]
fn spawn_that_failed_leaves_the_loop_idle_and_sends_nothing() {
    let (mut control, _) = ControlLoop::new(77);
    let started = control.on_spawn(task(), Err("permission denied".to_string()));
    assert_eq!(started.err(), Some("Failed to spawn process: permission denied".to_string()));
    assert_eq!(control.mode(), Mode::Idle);
}

#[test]
fn each_event_is_relayed_as_its_message() {
    let job = "j".to_string();
    assert_eq!(
        relay_event(&job, 1, 2, RenderEvent::Started),
        AgentToMonitor::Ack(AckMessage { job_id: "j".to_string(), frame_start: 1, frame_end: 2 })
    );
    assert_eq!(
        relay_event(&job, 1, 2, RenderEvent::Stdout(vec!["a".to_string()])),
        AgentToMonitor::Stdout(StdoutMessage {
            job_id: "j".to_string(),
            frame_start: 1,
            frame_end: 2,
            lines: vec!["a".to_string()],
        })
    );
    assert_eq!(
        relay_event(
            &job,
            1,
            2,
            RenderEvent::Progress {
                readings: vec![ProgressReading::Percentage { value: "5".to_string() }],
                elapsed_ms: 9,
            }
        ),
        AgentToMonitor::Progress(ProgressMessage {
            job_id: "j".to_string(),
            frame_start: 1,
            frame_end: 2,
            readings: vec![ProgressReading::Percentage { value: "5".to_string() }],
            elapsed_ms: 9,
        })
    );
    assert_eq!(
        relay_event(&job, 1, 2, RenderEvent::FrameCompleted { frame: 2 }),
        AgentToMonitor::FrameCompleted(FrameCompletedMessage { job_id: "j".to_string(), frame: 2 })
    );
    assert_eq!(
        relay_event(
            &job,
            1,
            2,
            RenderEvent::Completed { elapsed_ms: 3, exit_code: 0, output_file: Some("o".to_string()) }
        ),
        AgentToMonitor::Completed(CompletedMessage {
            job_id: "j".to_string(),
            frame_start: 1,
            frame_end: 2,
            elapsed_ms: 3,
            exit_code: 0,
            output_file: Some("o".to_string()),
        })
    );
    assert_eq!(
        relay_event(&job, 1, 2, RenderEvent::Failed { exit_code: 4, error: "e".to_string() }),
        AgentToMonitor::Failed(FailedMessage {
            job_id: "j".to_string(),
            frame_start: 1,
            frame_end: 2,
            exit_code: 4,
            error: "e".to_string(),
        })
    );
}

#[test]
fn relay_of_a_running_job_keeps_rendering() {
    let (mut control, _) = ControlLoop::new(5);
    let (mut executor, _) = control.on_spawn(task(), Ok(())).ok().unwrap();
    executor.on_primary_line(Some("hello".to_string()), 6000);
    let messages = control.relay_events(&mut executor);
    assert_eq!(
        messages,
        vec![
            AgentToMonitor::Ack(AckMessage { job_id: "job-7".to_string(), frame_start: 10, frame_end: 20 }),
            AgentToMonitor::Stdout(StdoutMessage {
                job_id: "job-7".to_string(),
                frame_start: 10,
                frame_end: 20,
                lines: vec!["hello".to_string()],
            }),
        ]
    );
    assert_eq!(control.mode(), Mode::Rendering);
    assert_eq!(control.relay_events(&mut executor), Vec::new());
    assert_eq!(control.mode(), Mode::Rendering);
}

#[test]
fn relay_of_a_terminal_event_returns_to_idle() {
    let (mut control, _) = ControlLoop::new(5);
    let (mut executor, _) = control.on_spawn(task(), Ok(())).ok().unwrap();
    control.relay_events(&mut executor);
    executor.on_primary_eof();
    executor.on_exit(Ok(ExitReport { success: true, code: Some(0) }), 40);
    let messages = control.relay_events(&mut executor);
    assert_eq!(
        messages,
        vec![
            AgentToMonitor::Completed(CompletedMessage {
                job_id: "job-7".to_string(),
                frame_start: 10,
                frame_end: 20,
                elapsed_ms: 40,
                exit_code: 0,
                output_file: None,
            }),
            status("idle", 5),
        ]
    );
    assert_eq!(control.mode(), Mode::Idle);
}

#[test]
fn relay_of_a_failed_job_returns_to_idle() {
    let (mut control, _) = ControlLoop::new(5);
    let (mut executor, _) = control.on_spawn(task(), Ok(())).ok().unwrap();
    executor.on_stdout_unavailable();
    let messages = control.relay_events(&mut executor);
    assert_eq!(messages.len(), 3);
    assert_eq!(messages[2], status("idle", 5));
    assert_eq!(control.mode(), Mode::Idle);
}

#[test]
fn rendering_ping_is_answered_and_a_failed_answer_is_ignored() {
    let (mut control, _) = ControlLoop::new(5);
    let (mut executor, _) = control.on_spawn(task(), Ok(())).ok().unwrap();
    assert_eq!(
        control.on_rendering_input(&mut executor, Inbound::Command(MonitorToAgent::Ping)),
        Action::Send { message: AgentToMonitor::Pong, exit_on_failure: false }
    );
    assert_eq!(executor.on_primary_line(Some("x".to_string()), 1), Directive::Continue);
}

#[test]
fn rendering_shutdown_aborts_the_job_and_ends_the_loop_after_the_grace_period() {
    let (mut control, _) = ControlLoop::new(5);
    let (mut executor, _) = control.on_spawn(task(), Ok(())).ok().unwrap();
    assert_eq!(
        control.on_rendering_input(&mut executor, Inbound::Command(MonitorToAgent::Shutdown)),
        Action::Exit { grace_ms: 500 }
    );
    assert_eq!(executor.on_primary_line(Some("x".to_string()), 1), Directive::KillChild);
}

#[test]
fn rendering_abort_aborts_the_job_and_keeps_rendering() {
    let (mut control, _) = ControlLoop::new(5);
    let (mut executor, _) = control.on_spawn(task(), Ok(())).ok().unwrap();
    assert_eq!(control.on_rendering_input(&mut executor, abort_command()), Action::Proceed);
    assert_eq!(control.mode(), Mode::Rendering);
    assert_eq!(executor.on_primary_line(Some("x".to_string()), 1), Directive::KillChild);
    executor.on_exit(Ok(ExitReport { success: false, code: None }), 2);
    let messages = control.relay_events(&mut executor);
    assert_eq!(
        messages[1],
        AgentToMonitor::Failed(FailedMessage {
            job_id: "job-7".to_string(),
            frame_start: 10,
            frame_end: 20,
            exit_code: -1,
            error: "Aborted by monitor".to_string(),
        })
    );
    assert_eq!(control.mode(), Mode::Idle);
}

#[test]
fn rendering_task_is_ignored() {
    let (mut control, _) = ControlLoop::new(5);
    let (mut executor, _) = control.on_spawn(task(), Ok(())).ok().unwrap();
    assert_eq!(
        control.on_rendering_input(&mut executor, Inbound::Command(MonitorToAgent::Task(task()))),
        Action::Proceed
    );
    assert_eq!(executor.on_primary_line(Some("x".to_string()), 1), Directive::Continue);
}

#[test]
fn rendering_undecodable_payload_is_dropped() {
    let (mut control, _) = ControlLoop::new(5);
    let (mut executor, _) = control.on_spawn(task(), Ok(())).ok().unwrap();
    assert_eq!(control.on_rendering_input(&mut executor, Inbound::Undecodable), Action::Proceed);
    assert_eq!(executor.on_primary_line(Some("x".to_string()), 1), Directive::Continue);
}

#[test]
fn rendering_broken_channel_aborts_the_job_and_ends_the_loop() {
    let (mut control, _) = ControlLoop::new(5);
    let (mut executor, _) = control.on_spawn(task(), Ok(())).ok().unwrap();
    assert_eq!(
        control.on_rendering_input(&mut executor, Inbound::Disconnected),
        Action::Exit { grace_ms: 0 }
    );
    assert_eq!(executor.on_primary_line(Some("x".to_string()), 1), Directive::KillChild);
}
