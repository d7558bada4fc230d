use cargo_status::error::{CargoStatusError, CommandError};

#[test]
fn constructors() {
    assert!(matches!(CargoStatusError::config("bad"), CargoStatusError::Config(m) if m == "bad"));
    assert!(matches!(
        CargoStatusError::command_execution("cargo check", "killed"),
        CargoStatusError::CommandExecution { command, reason }
            if command == "cargo check" && reason == "killed"
    ));
    assert!(matches!(
        CargoStatusError::tool_not_installed("clippy", "rustup component add clippy"),
        CargoStatusError::ToolNotInstalled { tool, install_cmd }
            if tool == "clippy" && install_cmd == "rustup component add clippy"
    ));
    assert!(matches!(CargoStatusError::other("x"), CargoStatusError::Other(m) if m == "x"));
}

#[test]
fn messages() {
    let s = |t: &str| t.to_string();
    let cases = [
        (CargoStatusError::config("bad"), "Configuration error: bad"),
        (CargoStatusError::ProfileNotFound { name: s("ci") }, "Profile 'ci' not found"),
        (
            CargoStatusError::ProfileLoadError { path: s("/p.json"), source: s("denied") },
            "Failed to load profile from /p.json: denied",
        ),
        (
            CargoStatusError::ProfileSaveError { path: s("/p.json"), source: s("full") },
            "Failed to save profile to /p.json: full",
        ),
        (
            CargoStatusError::ProfileParseError { source: s("eof") },
            "Failed to parse profile JSON: eof",
        ),
        (
            CargoStatusError::command_execution("cargo", "killed"),
            "Command execution failed for 'cargo': killed",
        ),
        (
            CargoStatusError::tool_not_installed("audit", "cargo install cargo-audit"),
            "Tool 'audit' is not installed. Install with: cargo install cargo-audit",
        ),
        (CargoStatusError::CargoTomlRead { source: s("gone") }, "Failed to read Cargo.toml: gone"),
        (
            CargoStatusError::CargoTomlParse { source: s("line 1") },
            "Failed to parse Cargo.toml: line 1",
        ),
        (CargoStatusError::NoConfigDir, "No configuration directory found"),
        (
            CargoStatusError::Io { context: s("reading x"), source: s("denied") },
            "IO error: reading x",
        ),
        (
            CargoStatusError::WorkspaceScan(s("loop")),
            "Multiple workspace scanning error: loop",
        ),
        (CargoStatusError::other("plain"), "plain"),
    ];
    for (error, expected) in cases {
        assert_eq!(error.message(), expected);
    }
}

#[test]
fn command_error_message() {
    let error = |exit_code| CommandError {
        command: "cargo check".to_string(),
        exit_code,
        stderr: "ignored".to_string(),
    };
    assert_eq!(error(Some(1)).message(), "Command 'cargo check' failed with exit code Some(1)");
    assert_eq!(error(Some(0)).message(), "Command 'cargo check' failed with exit code Some(0)");
    assert_eq!(
        error(Some(-11)).message(),
        "Command 'cargo check' failed with exit code Some(-11)"
    );
    assert_eq!(
        error(Some(i32::MIN)).message(),
        "Command 'cargo check' failed with exit code Some(-2147483648)"
    );
    assert_eq!(
        error(Some(i32::MAX)).message(),
        "Command 'cargo check' failed with exit code Some(2147483647)"
    );
    assert_eq!(error(None).message(), "Command 'cargo check' failed with exit code None");
}
