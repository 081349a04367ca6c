use pumpkin_core::ui::app_state::{badge_label, fields_of_config, status_line};
use pumpkin_core::ui::theme::{default_executable_hint, status_tone};
use pumpkin_core::{
    parse_arguments, terminal_font_family, AppState, Platform, PumpkinConfig, ServerLogLine,
    ServerSnapshot, ServerStatus, ServerStream, Tone,
};

fn snapshot(status: ServerStatus, pid: Option<u32>, error: Option<&str>) -> ServerSnapshot {
    ServerSnapshot { status, process_id: pid, last_error: error.map(str::to_string) }
}

#[test]
fn parse_arguments_splits_on_whitespace() {
    assert_eq!(parse_arguments("  --nogui   -Xmx2G\t"), vec!["--nogui".to_string(), "-Xmx2G".to_string()]);
    assert!(parse_arguments("   ").is_empty());
    assert!(parse_arguments("").is_empty());
}

#[test]
fn font_families() {
    assert_eq!(terminal_font_family(Platform::Windows), "Consolas");
    assert_eq!(terminal_font_family(Platform::MacOs), "Menlo");
    assert_eq!(terminal_font_family(Platform::Linux), "monospace");
    assert_eq!(terminal_font_family(Platform::Other), "monospace");
    assert_eq!(default_executable_hint(Platform::Linux), "pumpkin-X64-Linux");
}

#[test]
fn tones() {
    assert_eq!(status_tone(ServerStatus::Stopped), Tone::Muted);
    assert_eq!(status_tone(ServerStatus::Starting), Tone::Warning);
    assert_eq!(status_tone(ServerStatus::Running), Tone::Success);
    assert_eq!(status_tone(ServerStatus::Stopping), Tone::Warning);
    assert_eq!(status_tone(ServerStatus::Failed), Tone::Danger);
}

#[test]
fn status_texts() {
    assert_eq!(status_line(ServerStatus::Running, Some(99)), "Running \u{b7} pid 99");
    assert_eq!(status_line(ServerStatus::Stopped, None), "Stopped");
    assert_eq!(badge_label(ServerStatus::Running, Some("pid 5")), "Running \u{b7} pid 5");
    assert_eq!(badge_label(ServerStatus::Failed, None), "Failed");
}

#[test]
fn fields_round_trip() {
    let config = PumpkinConfig {
        server_directory: "world".to_string(),
        executable: "bin/pumpkin".to_string(),
        arguments: vec!["--nogui".to_string(), "-p".to_string(), "25565".to_string()],
    };
    let (dir, exe, args) = fields_of_config(&config);
    assert_eq!(args, "--nogui -p 25565");
    let back = AppState::load_config_from_fields(&dir, &exe, &args);
    assert_eq!(back.server_directory, "world");
    assert_eq!(back.executable, "bin/pumpkin");
    assert_eq!(back.arguments, config.arguments);
    let trimmed = AppState::load_config_from_fields("  world ", "\tbin ", " a  b ");
    assert_eq!(trimmed.server_directory, "world");
    assert_eq!(trimmed.executable, "bin");
    assert_eq!(trimmed.arguments, vec!["a".to_string(), "b".to_string()]);
}

#[test]
fn panel_opens() {
    let ok = AppState::new(None);
    assert_eq!(ok.status_message, "Stopped");
    assert_eq!(ok.error_message, None);
    let failed = AppState::new(Some("bad toml".to_string()));
    assert_eq!(failed.status_message, "Config load failed");
    assert_eq!(failed.error_message.as_deref(), Some("bad toml"));
}

#[test]
fn refresh_shows_controller_state() {
    let mut state = AppState::new(Some("bad toml".to_string()));
    let logs = vec![ServerLogLine { stream: ServerStream::Stdout, line: "hi".to_string() }];
    state.refresh_runtime(snapshot(ServerStatus::Running, Some(4), None), logs);
    assert_eq!(state.status_message, "Running \u{b7} pid 4");
    assert_eq!(state.error_message.as_deref(), Some("bad toml"));
    assert_eq!(state.logs.len(), 1);
    state.refresh_runtime(snapshot(ServerStatus::Failed, None, Some("crash")), Vec::new());
    assert_eq!(state.status_message, "Failed");
    assert_eq!(state.error_message.as_deref(), Some("crash"));
}

#[test]
fn start_is_not_launched_twice() {
    let mut state = AppState::new(None);
    assert!(state.start_server());
    assert_eq!(state.status_message, "Starting");
    assert!(!state.start_server());
    state.start_finished(Err("no exe".to_string()), snapshot(ServerStatus::Failed, None, Some("no exe")), Vec::new());
    assert_eq!(state.error_message.as_deref(), Some("no exe"));
    assert!(state.start_server());
}

#[test]
fn save_and_stop_messages() {
    let mut state = AppState::new(Some("bad toml".to_string()));
    state.config_saved(Err("disk full".to_string()));
    assert_eq!(state.status_message, "Save failed");
    assert_eq!(state.error_message.as_deref(), Some("disk full"));
    state.config_saved(Ok(()));
    assert_eq!(state.status_message, "Config saved");
    assert_eq!(state.error_message, None);
    state.refresh_runtime(snapshot(ServerStatus::Stopped, None, None), Vec::new());
    assert_eq!(state.error_message, None);
    assert!(state.stop_server(Ok(())));
    assert_eq!(state.status_message, "Stopping");
    assert!(!state.stop_server(Err("server is not running".to_string())));
    assert_eq!(state.status_message, "Failed");
}

#[test]
fn refresh_worker_starts_once() {
    let mut state = AppState::new(None);
    assert!(state.start_refresh_worker());
    assert!(!state.start_refresh_worker());
}
