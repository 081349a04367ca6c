use pumpkin_core::server::controller::STOP_TIMEOUT_MILLIS;
use pumpkin_core::{
    command_written, stop_written, stop_poll, trim_logs, LaunchOutcome, Platform, PumpkinConfig, PumpkinError, ServerController,
    ServerLogLine, ServerStatus, ServerStream, StopPoll, LOG_LIMIT,
};
use std::collections::VecDeque;

fn config() -> PumpkinConfig {
    PumpkinConfig {
        server_directory: "world".to_string(),
        executable: "/opt/pumpkin/pumpkin-X64-Linux".to_string(),
        arguments: vec!["--nogui".to_string()],
    }
}

fn controller() -> ServerController {
    ServerController::new("/srv/pumpkin/pumpkin-ui.toml".to_string(), config())
}

fn running(pid: u32) -> ServerController {
    let mut c = controller();
    let plan = c.start().unwrap();
    c.complete_start(&plan, LaunchOutcome::Spawned(pid)).unwrap();
    c
}

fn line(text: &str) -> ServerLogLine {
    ServerLogLine { stream: ServerStream::Stdout, line: text.to_string() }
}

#[test]
fn new_controller_is_stopped() {
    let c = controller();
    let s = c.status();
    assert_eq!(s.status, ServerStatus::Stopped);
    assert_eq!(s.process_id, None);
    assert_eq!(s.last_error, None);
    assert!(c.logs().is_empty());
    assert_eq!(c.config_path(), "/srv/pumpkin/pumpkin-ui.toml");
    assert_eq!(c.tracked_process(), None);
}

#[test]
fn start_plans_paths_from_config_directory() {
    let mut c = controller();
    let plan = c.start().unwrap();
    assert_eq!(plan.executable, "/opt/pumpkin/pumpkin-X64-Linux");
    assert_eq!(plan.working_directory, "/srv/pumpkin/world");
    assert_eq!(plan.arguments, vec!["--nogui".to_string()]);
    assert_eq!(c.status().status, ServerStatus::Starting);
}

#[test]
fn start_with_bare_config_name_resolves_relative() {
    let mut c = ServerController::new("pumpkin-ui.toml".to_string(), config());
    let plan = c.start().unwrap();
    assert_eq!(plan.working_directory, "world");
}

#[test]
fn start_with_root_config_path_uses_dot() {
    let mut c = ServerController::new("/".to_string(), config());
    let plan = c.start().unwrap();
    assert_eq!(plan.working_directory, "./world");
}

#[test]
fn spawned_process_runs_and_is_announced() {
    let c = running(4242);
    let s = c.status();
    assert_eq!(s.status, ServerStatus::Running);
    assert_eq!(s.process_id, Some(4242));
    assert_eq!(c.tracked_process(), Some(4242));
    let logs = c.logs();
    assert_eq!(logs.len(), 1);
    assert_eq!(logs[0].stream, ServerStream::Stdout);
    assert_eq!(logs[0].line, "process 4242 started");
}

#[test]
fn start_refused_while_running() {
    let mut c = running(7);
    match c.start() {
        Err(PumpkinError::ServerAlreadyRunning) => {}
        other => panic!("unexpected {:?}", other),
    }
    assert_eq!(c.status().status, ServerStatus::Running);
}

#[test]
fn failed_launches_record_their_error() {
    let mut c = controller();
    let plan = c.start().unwrap();
    let r = c.complete_start(
        &plan,
        LaunchOutcome::ExecutableUnavailable(PumpkinError::MissingExecutable("x".to_string())),
    );
    assert!(matches!(r, Err(PumpkinError::MissingExecutable(_))));
    assert_eq!(c.status().status, ServerStatus::Failed);
    assert_eq!(c.status().last_error.as_deref(), Some("server executable is missing: x"));

    let plan = c.start().unwrap();
    assert_eq!(c.status().last_error, None);
    match c.complete_start(&plan, LaunchOutcome::WorkingDirectoryMissing) {
        Err(PumpkinError::MissingWorkingDirectory(d)) => assert_eq!(d, "/srv/pumpkin/world"),
        other => panic!("unexpected {:?}", other),
    }
    assert_eq!(
        c.status().last_error.as_deref(),
        Some("missing working directory: /srv/pumpkin/world")
    );

    let plan = c.start().unwrap();
    match c.complete_start(&plan, LaunchOutcome::SpawnFailed("permission denied".to_string())) {
        Err(PumpkinError::StartFailed(m)) => assert_eq!(m, "permission denied"),
        other => panic!("unexpected {:?}", other),
    }
    assert_eq!(c.status().last_error.as_deref(), Some("permission denied"));

    let plan = c.start().unwrap();
    match c.complete_start(&plan, LaunchOutcome::StdinUnavailable) {
        Err(PumpkinError::StartFailed(m)) => assert_eq!(m, "stdin pipe unavailable"),
        other => panic!("unexpected {:?}", other),
    }
    assert_eq!(c.status().status, ServerStatus::Failed);
    assert_eq!(c.tracked_process(), None);
}

#[test]
fn stop_then_stop_again_is_refused() {
    let mut c = running(11);
    let request = c.stop().unwrap();
    assert_eq!(request.pid, 11);
    assert_eq!(request.input, "stop\n");
    assert_eq!(c.status().status, ServerStatus::Stopping);
    assert!(matches!(c.stop(), Err(PumpkinError::ServerNotRunning)));
    c.stop_finished(11);
    let s = c.status();
    assert_eq!(s.status, ServerStatus::Stopped);
    assert_eq!(s.process_id, None);
}

#[test]
fn stop_without_process_is_refused() {
    let mut c = controller();
    assert!(matches!(c.stop(), Err(PumpkinError::ServerNotRunning)));
    assert_eq!(c.status().status, ServerStatus::Stopped);
}

#[test]
fn restart_after_stop_ignores_old_process() {
    let mut c = running(1);
    c.stop().unwrap();
    let plan = c.start().unwrap();
    c.complete_start(&plan, LaunchOutcome::Spawned(2)).unwrap();
    c.stop_finished(1);
    c.process_exited(1);
    assert!(!c.record_output(1, ServerStream::Stdout, "late".to_string()));
    let s = c.status();
    assert_eq!(s.status, ServerStatus::Running);
    assert_eq!(s.process_id, Some(2));
    assert_eq!(c.logs().len(), 2);
}

#[test]
fn output_of_active_process_is_kept() {
    let mut c = running(5);
    assert!(c.record_output(5, ServerStream::Stderr, "oops".to_string()));
    let logs = c.logs();
    assert_eq!(logs[1].stream, ServerStream::Stderr);
    assert_eq!(logs[1].line, "oops");
}

#[test]
fn log_keeps_newest_lines() {
    let mut c = running(9);
    for i in 0..(LOG_LIMIT + 10) {
        assert!(c.record_output(9, ServerStream::Stdout, format!("line {}", i)));
    }
    let logs = c.logs();
    assert_eq!(logs.len(), LOG_LIMIT);
    assert_eq!(logs[0].line, "line 10");
    assert_eq!(logs[LOG_LIMIT - 1].line, format!("line {}", LOG_LIMIT + 9));
}

#[test]
fn drain_renders_and_empties() {
    let mut c = running(3);
    c.record_output(3, ServerStream::Stderr, "bad".to_string());
    let drained = c.drain_logs();
    assert_eq!(drained, vec!["[stdout] process 3 started".to_string(), "[stderr] bad".to_string()]);
    assert!(c.logs().is_empty());
    assert!(c.drain_logs().is_empty());
    assert_eq!(c.status().status, ServerStatus::Running);
}

#[test]
fn send_command_adds_line_break_once() {
    let c = running(8);
    assert_eq!(c.send_command("say hi").unwrap(), "say hi\n");
    assert_eq!(c.send_command("stop\n").unwrap(), "stop\n");
    assert_eq!(c.send_command("").unwrap(), "\n");
    let idle = controller();
    assert!(matches!(idle.send_command("list"), Err(PumpkinError::ServerNotRunning)));
}

#[test]
fn refresh_follows_the_process() {
    let mut c = running(12);
    c.refresh(true);
    assert_eq!(c.status().status, ServerStatus::Running);
    assert_eq!(c.status().process_id, Some(12));
    c.refresh(false);
    assert_eq!(c.status().status, ServerStatus::Stopped);
    assert_eq!(c.status().process_id, None);
    assert_eq!(c.tracked_process(), None);
    c.refresh(true);
    assert_eq!(c.status().status, ServerStatus::Stopped);
}

#[test]
fn exit_of_active_process_stops() {
    let mut c = running(21);
    c.process_exited(21);
    assert_eq!(c.status().status, ServerStatus::Stopped);
    assert_eq!(c.tracked_process(), None);
    let plan = c.start();
    assert!(plan.is_ok());
}

#[test]
fn config_read_back() {
    let mut c = controller();
    let mut other = config();
    other.arguments.push("-v".to_string());
    c.set_config(other);
    assert_eq!(c.config().arguments, vec!["--nogui".to_string(), "-v".to_string()]);
}

#[test]
fn from_config_path_cases() {
    let c = ServerController::from_config_path("/a/pumpkin-ui.toml", None, Platform::Linux).unwrap();
    assert_eq!(c.config().executable, "pumpkin-X64-Linux");
    let c = ServerController::from_config_path("/a/pumpkin-ui.toml", Some(Ok(config())), Platform::Linux)
        .unwrap();
    assert_eq!(c.config().server_directory, "world");
    let r = ServerController::from_config_path(
        "/a/pumpkin-ui.toml",
        Some(Err(PumpkinError::TomlDeserialize("x".to_string()))),
        Platform::Linux,
    );
    assert!(matches!(r, Err(PumpkinError::TomlDeserialize(_))));
}

#[test]
fn trim_logs_drops_oldest() {
    let mut logs: VecDeque<ServerLogLine> = (0..(LOG_LIMIT + 3)).map(|i| line(&i.to_string())).collect();
    trim_logs(&mut logs);
    assert_eq!(logs.len(), LOG_LIMIT);
    assert_eq!(logs[0].line, "3");
    let mut few: VecDeque<ServerLogLine> = (0..3).map(|i| line(&i.to_string())).collect();
    trim_logs(&mut few);
    assert_eq!(few.len(), 3);
}

#[test]
fn stop_poll_decisions() {
    assert_eq!(stop_poll(true, 0), StopPoll::Finished);
    assert_eq!(stop_poll(true, 50_000), StopPoll::Finished);
    assert_eq!(stop_poll(false, STOP_TIMEOUT_MILLIS), StopPoll::Kill);
    assert_eq!(stop_poll(false, STOP_TIMEOUT_MILLIS - 1), StopPoll::Wait);
}

#[test]
fn write_outcomes_map_to_errors() {
    assert!(stop_written(Ok(())).is_ok());
    match stop_written(Err("broken pipe".to_string())) {
        Err(PumpkinError::StopFailed(m)) => assert_eq!(m, "broken pipe"),
        other => panic!("unexpected {:?}", other),
    }
    assert!(command_written(Ok(())).is_ok());
    match command_written(Err("broken pipe".to_string())) {
        Err(PumpkinError::Io(m)) => assert_eq!(m, "broken pipe"),
        other => panic!("unexpected {:?}", other),
    }
}

#[test]
fn open_or_default_falls_back() {
    let (c, error) = ServerController::open_or_default(
        "/a/pumpkin-ui.toml",
        Some(Err(PumpkinError::TomlDeserialize("expected `=`".to_string()))),
        Platform::Linux,
    );
    assert_eq!(error.as_deref(), Some("toml deserialize error: expected `=`"));
    assert_eq!(c.config().executable, "pumpkin-X64-Linux");
    assert_eq!(c.config().server_directory, ".");
    assert_eq!(c.config_path(), "/a/pumpkin-ui.toml");
    let (c, error) = ServerController::open_or_default("p", Some(Ok(config())), Platform::Linux);
    assert_eq!(error, None);
    assert_eq!(c.config().server_directory, "world");
    let (c, error) = ServerController::open_or_default("p", None, Platform::Windows);
    assert_eq!(error, None);
    assert_eq!(c.config().executable, "pumpkin-X64-Windows.exe");
}
