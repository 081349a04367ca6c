use pumpkin_core::{
    default_executable_path, Platform, PumpkinConfig, PumpkinError, ServerLogLine, ServerStatus,
    ServerStream,
};

#[test]
fn status_labels() {
    assert_eq!(ServerStatus::Stopped.label(), "Stopped");
    assert_eq!(ServerStatus::Starting.label(), "Starting");
    assert_eq!(ServerStatus::Running.label(), "Running");
    assert_eq!(ServerStatus::Stopping.label(), "Stopping");
    assert_eq!(ServerStatus::Failed.label(), "Failed");
}

#[test]
fn render_tags_each_stream() {
    let out = ServerLogLine { stream: ServerStream::Stdout, line: "Done (1.2s)!".to_string() };
    let err = ServerLogLine { stream: ServerStream::Stderr, line: "warning".to_string() };
    assert_eq!(out.render(), "[stdout] Done (1.2s)!");
    assert_eq!(err.render(), "[stderr] warning");
    let empty = ServerLogLine { stream: ServerStream::Stdout, line: String::new() };
    assert_eq!(empty.render(), "[stdout] ");
}

#[test]
fn default_config_per_platform() {
    let linux = PumpkinConfig::default_for(Platform::Linux);
    assert_eq!(linux.server_directory, ".");
    assert_eq!(linux.executable, "pumpkin-X64-Linux");
    assert!(linux.arguments.is_empty());
    assert_eq!(default_executable_path(Platform::Windows), "pumpkin-X64-Windows.exe");
    assert_eq!(default_executable_path(Platform::MacOs), "pumpkin-X64-macOS");
    assert_eq!(default_executable_path(Platform::Other), "pumpkin-X64-Windows.exe");
}

#[test]
fn config_clone_keeps_fields() {
    let config = PumpkinConfig {
        server_directory: "srv".to_string(),
        executable: "bin/pumpkin".to_string(),
        arguments: vec!["--nogui".to_string(), "-Xmx2G".to_string()],
    };
    let copy = config.clone();
    assert_eq!(copy.server_directory, "srv");
    assert_eq!(copy.executable, "bin/pumpkin");
    assert_eq!(copy.arguments, vec!["--nogui".to_string(), "-Xmx2G".to_string()]);
}

#[test]
fn error_messages() {
    let cases = vec![
        (PumpkinError::Io("denied".to_string()), "io error: denied"),
        (PumpkinError::TomlDeserialize("bad".to_string()), "toml deserialize error: bad"),
        (PumpkinError::TomlSerialize("bad".to_string()), "toml serialize error: bad"),
        (
            PumpkinError::ConfigNotFound("/a/pumpkin-ui.toml".to_string()),
            "configuration file not found: /a/pumpkin-ui.toml",
        ),
        (PumpkinError::ServerAlreadyRunning, "server is already running"),
        (PumpkinError::ServerNotRunning, "server is not running"),
        (PumpkinError::MissingExecutable("x".to_string()), "server executable is missing: x"),
        (
            PumpkinError::MissingWorkingDirectory("w".to_string()),
            "server working directory is missing: w",
        ),
        (PumpkinError::StartFailed("boom".to_string()), "failed to start server: boom"),
        (PumpkinError::StopFailed("pipe".to_string()), "failed to stop server: pipe"),
        (PumpkinError::InvalidConfig("nope".to_string()), "invalid configuration: nope"),
    ];
    for (error, text) in cases {
        assert_eq!(error.message(), text);
    }
}
