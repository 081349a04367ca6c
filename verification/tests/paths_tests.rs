use pumpkin_core::paths::base_directory;
use pumpkin_core::{
    check_download, config_path, ensure_executable, executable_url, load_config, load_or_default,
    resolve_path, Platform, PumpkinConfig, PumpkinError,
};
use std::path::Path;

#[test]
fn config_path_joins_file_name() {
    assert_eq!(config_path("/srv"), "/srv/pumpkin-ui.toml");
    assert_eq!(config_path("/srv/"), "/srv/pumpkin-ui.toml");
    assert_eq!(config_path(""), "pumpkin-ui.toml");
    assert_eq!(pumpkin_core::CONFIG_FILE_NAME, "pumpkin-ui.toml");
}

#[test]
fn resolve_matches_std() {
    for (base, path) in [("/a", "b"), ("/a/", "b"), ("", "b"), ("a", "/b"), ("a", ""), ("x/y", "z/w")] {
        let p = Path::new(path);
        let expected = if p.is_absolute() { p.to_path_buf() } else { Path::new(base).join(p) };
        assert_eq!(resolve_path(base, path), expected.to_str().unwrap());
    }
}

#[test]
fn resolve_keeps_absolute_paths() {
    assert_eq!(resolve_path("/srv", "/opt/bin"), "/opt/bin");
    assert_eq!(resolve_path("/srv", "bin"), "/srv/bin");
    assert_eq!(resolve_path(".", "pumpkin"), "./pumpkin");
}

#[test]
fn base_directory_of_config() {
    assert_eq!(base_directory("/srv/pumpkin-ui.toml"), "/srv");
    assert_eq!(base_directory("pumpkin-ui.toml"), "");
    assert_eq!(base_directory("/"), ".");
    assert_eq!(base_directory(""), ".");
}

#[test]
fn executable_urls() {
    assert_eq!(
        executable_url("linux", "x86_64", "/srv/pumpkin-X64-Linux"),
        Some("https://github.com/Pumpkin-MC/Pumpkin/releases/download/nightly/pumpkin-X64-Linux")
    );
    assert_eq!(
        executable_url("windows", "aarch64", "C/pumpkin-ARM64-Windows.exe"),
        Some("https://github.com/Pumpkin-MC/Pumpkin/releases/download/nightly/pumpkin-ARM64-Windows.exe")
    );
    assert_eq!(
        executable_url("macos", "aarch64", "pumpkin-ARM64-macOS"),
        Some("https://github.com/Pumpkin-MC/Pumpkin/releases/download/nightly/pumpkin-ARM64-macOS")
    );
    assert_eq!(executable_url("linux", "x86_64", "/srv/pumpkin-X64-macOS"), None);
    assert_eq!(executable_url("linux", "riscv64", "pumpkin-X64-Linux"), None);
    assert_eq!(executable_url("linux", "x86_64", "/srv/.."), None);
}

#[test]
fn ensure_executable_decisions() {
    assert!(matches!(ensure_executable(true, "linux", "x86_64", "anything"), Ok(None)));
    assert_eq!(
        ensure_executable(false, "linux", "aarch64", "bin/pumpkin-ARM64-Linux").unwrap(),
        Some("https://github.com/Pumpkin-MC/Pumpkin/releases/download/nightly/pumpkin-ARM64-Linux")
    );
    match ensure_executable(false, "linux", "x86_64", "bin/server") {
        Err(PumpkinError::MissingExecutable(p)) => assert_eq!(p, "bin/server"),
        other => panic!("unexpected {:?}", other),
    }
}

#[test]
fn empty_download_refused() {
    assert!(check_download(10).is_ok());
    match check_download(0) {
        Err(PumpkinError::StartFailed(m)) => assert_eq!(m, "downloaded executable was empty"),
        other => panic!("unexpected {:?}", other),
    }
}

#[test]
fn loading_the_config_file() {
    match load_config("/x/pumpkin-ui.toml", None) {
        Err(PumpkinError::ConfigNotFound(p)) => assert_eq!(p, "/x/pumpkin-ui.toml"),
        other => panic!("unexpected {:?}", other),
    }
    let found = PumpkinConfig {
        server_directory: "s".to_string(),
        executable: "e".to_string(),
        arguments: Vec::new(),
    };
    assert_eq!(load_config("p", Some(Ok(found))).unwrap().executable, "e");
    let default = load_or_default("p", None, Platform::MacOs).unwrap();
    assert_eq!(default.executable, "pumpkin-X64-macOS");
    assert_eq!(default.server_directory, ".");
    assert!(matches!(
        load_or_default("p", Some(Err(PumpkinError::Io("denied".to_string()))), Platform::Linux),
        Err(PumpkinError::Io(_))
    ));
}
