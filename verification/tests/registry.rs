use cargo_status::cache::Cache;
use cargo_status::config::{CargoStatusConfig, Config, StatusArgs};
use cargo_status::table::Table;
use cargo_status::tools::registry::{audit_missing_notice, clippy_missing_notice};
use cargo_status::tools::{create_all_checks, ToolRegistry};

fn texts(items: &[&str]) -> Vec<String> {
    items.iter().map(|s| s.to_string()).collect()
}

fn config_of(args: StatusArgs) -> Config {
    Config::new(args, None, &Table::new(), &[]).unwrap()
}

#[test]
fn test_create_checks_empty() {
    // Create config without TOML defaults by passing explicit false values
    let config = Config {
        args: StatusArgs::default(),
        toml_config: None,
        verbose_tools: Vec::new(),
    };
    let checks = create_all_checks(&config, || true, || true, || true);
    assert!(checks.is_empty());
}

#[test]
fn test_create_fmt_check() {
    let args = StatusArgs { fmt: true, ..Default::default() };
    let config = Config::new(args, None, &Table::new(), &[]).unwrap();
    let checks = create_all_checks(&config, || true, || true, || true);
    assert_eq!(checks.len(), 1);
    assert_eq!(checks[0].name, "Format");
}

#[test]
fn all_checks_in_order() {
    let config = config_of(StatusArgs { all: true, ..Default::default() });
    let checks = create_all_checks(&config, || true, || false, || true);
    let names: Vec<&str> = checks.iter().map(|c| c.name.as_str()).collect();
    assert_eq!(names, vec!["Format", "Check", "Clippy", "Test", "Build", "Doc", "Audit"]);
    assert_eq!(checks[0].command, vec!["cargo", "fmt", "--all"]);
    assert_eq!(checks[1].command, vec!["cargo", "check", "--workspace", "--all-targets"]);
    assert_eq!(
        checks[2].command,
        vec![
            "cargo",
            "clippy",
            "--workspace",
            "--all-targets",
            "--all-features",
            "--",
            "-D",
            "warnings"
        ]
    );
    assert_eq!(checks[2].warning_patterns, vec!["warning", "help:"]);
    assert_eq!(checks[3].command, vec!["cargo", "test", "--workspace"]);
    assert_eq!(checks[3].warning_patterns, vec!["warning"]);
    assert_eq!(checks[4].command, vec!["cargo", "build", "--workspace", "--all-targets"]);
    assert_eq!(checks[5].command, vec!["cargo", "doc", "--workspace", "--no-deps"]);
    assert_eq!(checks[6].command, vec!["cargo", "audit"]);
    assert!(checks.iter().all(|c| !c.verbose));
}

#[test]
fn missing_tools_are_left_out() {
    let config = config_of(StatusArgs { all: true, ..Default::default() });
    let checks = create_all_checks(&config, || false, || true, || false);
    let names: Vec<&str> = checks.iter().map(|c| c.name.as_str()).collect();
    assert_eq!(names, vec!["Format", "Check", "Test", "Build", "Doc"]);
    assert_eq!(
        checks[2].command,
        vec!["cargo", "nextest", "run", "--no-fail-fast", "--color=always"]
    );
}

#[test]
fn tools_are_only_asked_for_when_needed() {
    let config = config_of(StatusArgs { build: true, ..Default::default() });
    let mut asked = 0;
    let checks = create_all_checks(
        &config,
        || {
            asked += 1;
            true
        },
        || true,
        || true,
    );
    assert_eq!(checks.len(), 1);
    assert_eq!(asked, 0);
}

#[test]
fn arguments_from_command_line_and_manifest() {
    let mut toml = CargoStatusConfig::default();
    toml.tool_args.clippy = texts(&["--no-deps"]);
    toml.tool_args.test = texts(&["--lib"]);
    toml.tool_args.build = texts(&["--release"]);
    toml.tool_args.fmt = texts(&["--check"]);
    toml.tool_args.audit = texts(&["--deny", "warnings"]);
    let args = StatusArgs {
        clippy_args: Some("  -p  core \t--fix ".to_string()),
        test_args: Some("--nocapture".to_string()),
        build_args: Some("".to_string()),
        verbose: 1,
        ..Default::default()
    };
    let config = Config::new(args, Some(toml), &Table::new(), &[]).unwrap();

    let clippy = ToolRegistry::create_clippy_check(&config, || true).unwrap();
    assert_eq!(
        clippy.command,
        vec![
            "cargo",
            "clippy",
            "--workspace",
            "--all-targets",
            "--all-features",
            "-p",
            "core",
            "--fix",
            "--no-deps",
            "--",
            "-D",
            "warnings"
        ]
    );
    assert!(clippy.verbose);
    assert!(ToolRegistry::create_clippy_check(&config, || false).is_none());

    let test = ToolRegistry::create_test_check(&config, || false);
    assert_eq!(test.command, vec!["cargo", "test", "--workspace", "--nocapture", "--lib"]);
    assert_eq!(test.name, "Test");

    let build = ToolRegistry::create_build_check(&config);
    assert_eq!(
        build.command,
        vec!["cargo", "build", "--workspace", "--all-targets", "--release"]
    );

    assert_eq!(
        ToolRegistry::create_fmt_check(&config).command,
        vec!["cargo", "fmt", "--all", "--check"]
    );
    assert_eq!(
        ToolRegistry::create_audit_check(&config, || true).unwrap().command,
        vec!["cargo", "audit", "--deny", "warnings"]
    );
    assert!(ToolRegistry::create_audit_check(&config, || false).is_none());
    assert_eq!(ToolRegistry::create_check_check(&config).name, "Check");
    assert_eq!(ToolRegistry::create_doc_check(&config).name, "Doc");
}

#[test]
fn verbose_follows_the_tool() {
    let args = StatusArgs { fmt: true, check: true, ..Default::default() };
    let config = Config::new(args, None, &Table::new(), &texts(&["-cv"])).unwrap();
    assert!(!ToolRegistry::create_fmt_check(&config).verbose);
    assert!(ToolRegistry::create_check_check(&config).verbose);
}

#[test]
fn availability_is_cached_per_tool() {
    let mut cache: Cache<bool> = Cache::new(300);
    assert!(ToolRegistry::has_clippy(&mut cache, || true));
    assert!(ToolRegistry::has_clippy(&mut cache, || false));
    assert!(!ToolRegistry::has_audit(&mut cache, || false));
    assert!(!ToolRegistry::has_audit(&mut cache, || true));
    assert!(ToolRegistry::has_nextest(&mut cache, || true));
    assert_eq!(cache.get("tool_clippy"), Some(true));
    assert_eq!(cache.get("tool_audit"), Some(false));
    assert_eq!(cache.get("tool_nextest"), Some(true));
}

#[test]
fn notices_for_missing_tools() {
    assert_eq!(
        clippy_missing_notice(),
        vec![
            "Warning: clippy is not installed. Skipping clippy check.",
            "Install it with: rustup component add clippy"
        ]
    );
    assert_eq!(
        audit_missing_notice(),
        vec![
            "Warning: cargo-audit is not installed. Skipping audit check.",
            "Install it with: cargo install cargo-audit"
        ]
    );
}
