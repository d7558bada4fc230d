use cargo_status::config::toml_config::default_true;
use cargo_status::config::{
    build_command_with_config, get_default_profile_name, list_profiles, load_profile,
    save_profile, select_config, CargoStatusConfig, ChecksConfig, Config, Profile, StatusArgs,
    VerboseTools,
};
use cargo_status::config::{apply_cargo_toml_config, apply_toml_config, parse_verbose_tools};
use cargo_status::error::CargoStatusError;
use cargo_status::table::Table;

fn texts(items: &[&str]) -> Vec<String> {
    items.iter().map(|s| s.to_string()).collect()
}

#[test]
fn test_status_args_default() {
    let args = StatusArgs::default();
    assert!(!args.has_tool_flags());
    assert!(!args.has_profile_flags());
    assert!(args.get_enabled_tools().is_empty());
}

#[test]
fn test_status_args_with_tools() {
    let args = StatusArgs { fmt: true, clippy: true, ..Default::default() };

    assert!(args.has_tool_flags());
    let tools = args.get_enabled_tools();
    assert_eq!(tools, vec!["fmt", "clippy"]);
}

#[test]
fn test_config_creation() {
    let args = StatusArgs::default();
    let config = Config::new(args, None, &Table::new(), &[]);
    assert!(config.is_ok());
}

#[test]
fn test_apply_toml_config() {
    let mut args = StatusArgs::default();
    let mut toml_config = CargoStatusConfig::default();
    toml_config.checks.fmt = true;
    toml_config.checks.clippy = true;

    apply_toml_config(&mut args, &toml_config);

    assert!(args.fmt);
    assert!(args.clippy);
    assert!(!args.check); // Should be false by default
}

#[test]
fn test_profile_from_args() {
    let args = StatusArgs { fmt: true, clippy: true, ..Default::default() };

    let profile = Profile::from_args(&args);
    assert!(profile.fmt);
    assert!(profile.clippy);
    assert!(!profile.check);
}

#[test]
fn test_profile_apply_to_args() {
    let profile = Profile { fmt: true, test: true, ..Default::default() };

    let mut args = StatusArgs::default();
    profile.apply_to_args(&mut args);

    assert!(args.fmt);
    assert!(args.test);
    assert!(!args.check);
}

#[test]
fn test_profile_get_enabled_tools() {
    let profile = Profile { fmt: true, clippy: true, ..Default::default() };

    let tools = profile.get_enabled_tools();
    assert_eq!(tools, vec!["fmt", "clippy"]);
}

#[test]
fn toml_config_test_default_true() {
    assert!(default_true());
}

#[test]
fn tests_test_default_true() {
    assert_eq!(default_true(), true);
}

#[test]
fn test_build_command_with_config() {
    let base = vec!["cargo".to_string(), "check".to_string()];
    let args = vec!["--lib".to_string()];
    let result = build_command_with_config(base.clone(), &args);
    assert_eq!(result, vec!["cargo", "check", "--lib"]);

    let empty_result = build_command_with_config(base.clone(), &[]);
    assert_eq!(empty_result, base);
}

#[test]
fn test_verbose_tools_parsing() {
    let cmd_args = texts(&["-fv", "-cv", "-lv"]);
    let verbose_tools = parse_verbose_tools(None, &cmd_args);

    assert!(verbose_tools.contains(&"fmt".to_string()));
    assert!(verbose_tools.contains(&"check".to_string()));
    assert!(verbose_tools.contains(&"clippy".to_string()));
    assert!(!verbose_tools.contains(&"test".to_string()));
}

#[test]
fn test_checks_config_defaults() {
    let config = ChecksConfig::default();
    assert_eq!(config.fmt, false);
    assert_eq!(config.check, false);
    assert_eq!(config.clippy, false);
    assert_eq!(config.test, false);
    assert_eq!(config.build, false);
    assert_eq!(config.doc, false);
    assert_eq!(config.audit, false);
}

#[test]
fn test_verbose_tools_defaults() {
    let tools = VerboseTools::default();
    assert_eq!(tools.fmt, false);
    assert_eq!(tools.check, false);
    assert_eq!(tools.clippy, false);
    assert_eq!(tools.test, false);
    assert_eq!(tools.build, false);
    assert_eq!(tools.doc, false);
    assert_eq!(tools.audit, false);
}

#[test]
fn test_cargo_status_config_defaults() {
    let config = CargoStatusConfig::default();
    assert_eq!(config.sequential, false);
    assert_eq!(config.verbose, false);
    assert_eq!(config.profile, None);
}

#[test]
fn enabled_tools_keep_their_order() {
    let args = StatusArgs {
        audit: true,
        doc: true,
        build: true,
        test: true,
        clippy: true,
        check: true,
        fmt: true,
        ..Default::default()
    };
    assert_eq!(
        args.get_enabled_tools(),
        vec!["fmt", "check", "clippy", "test", "build", "doc", "audit"]
    );
    assert_eq!(
        args.get_enabled_tools_display_names(),
        vec!["Format", "Check", "Clippy", "Test", "Build", "Doc", "Audit"]
    );
}

#[test]
fn profile_flags_are_seen() {
    assert!(StatusArgs { save_profile: true, ..Default::default() }.has_profile_flags());
    assert!(StatusArgs { use_profile: true, ..Default::default() }.has_profile_flags());
    assert!(StatusArgs { list_profiles: true, ..Default::default() }.has_profile_flags());
}

#[test]
fn manifest_does_not_override_named_tools() {
    let mut args = StatusArgs { test: true, ..Default::default() };
    let mut config = CargoStatusConfig::default();
    config.checks.fmt = true;
    config.sequential = true;
    config.profile = Some("ci".to_string());
    apply_toml_config(&mut args, &config);
    assert!(!args.fmt);
    assert!(args.test);
    assert!(args.sequential);
    assert_eq!(args.profile, Some("ci".to_string()));
}

#[test]
fn manifest_does_not_override_all_or_profile() {
    let mut args =
        StatusArgs { all: true, profile: Some("mine".to_string()), ..Default::default() };
    let mut config = CargoStatusConfig::default();
    config.checks.fmt = true;
    config.profile = Some("ci".to_string());
    apply_toml_config(&mut args, &config);
    assert!(!args.fmt);
    assert_eq!(args.profile, Some("mine".to_string()));
}

#[test]
fn manifest_verbose_counts_once() {
    let mut config = CargoStatusConfig::default();
    config.verbose = true;

    let mut args = StatusArgs::default();
    apply_cargo_toml_config(&mut args, &config);
    assert_eq!(args.verbose, 1);

    let mut loud = StatusArgs { verbose: 3, ..Default::default() };
    apply_cargo_toml_config(&mut loud, &config);
    assert_eq!(loud.verbose, 3);

    let mut plain = StatusArgs::default();
    apply_toml_config(&mut plain, &config);
    assert_eq!(plain.verbose, 0);
}

#[test]
fn verbose_tools_from_manifest_and_command_line() {
    let mut config = CargoStatusConfig::default();
    config.verbose_tools.audit = true;
    config.verbose_tools.fmt = true;
    let cmd_args = texts(&["status", "-tv", "--verbose", "-b", "-v", "--dv", "-vd"]);
    let tools = parse_verbose_tools(Some(&config), &cmd_args);
    assert_eq!(tools, vec!["fmt", "test", "doc", "audit"]);
}

#[test]
fn verbose_tools_need_the_letter_v() {
    let cmd_args = texts(&["-fc", "-l", "-"]);
    assert!(parse_verbose_tools(None, &cmd_args).is_empty());
}

#[test]
fn default_profile_name() {
    assert_eq!(get_default_profile_name(), "default");
}

#[test]
fn profiles_save_load_and_list() {
    let mut profiles: Table<Profile> = Table::new();
    assert_eq!(list_profiles(&profiles), vec!["No profiles found."]);

    let args = StatusArgs { fmt: true, test: true, sequential: true, ..Default::default() };
    let said = save_profile(&mut profiles, &args, "quick");
    assert_eq!(said, "Profile 'quick' saved successfully.");
    let none = StatusArgs::default();
    save_profile(&mut profiles, &none, "empty");

    let loaded = load_profile(&profiles, "quick").unwrap();
    assert!(loaded.fmt && loaded.test && loaded.sequential);
    assert!(!loaded.check && !loaded.clippy && !loaded.build && !loaded.doc && !loaded.audit);

    assert_eq!(
        list_profiles(&profiles),
        vec!["Available profiles:", "  quick: fmt, test", "  empty: "]
    );

    // Saving again under the same name replaces the profile and keeps its place.
    let other = StatusArgs { doc: true, ..Default::default() };
    save_profile(&mut profiles, &other, "quick");
    assert_eq!(
        list_profiles(&profiles),
        vec!["Available profiles:", "  quick: doc", "  empty: "]
    );
}

#[test]
fn load_profile_errors() {
    let mut profiles: Table<Profile> = Table::new();
    match load_profile(&profiles, "quick") {
        Err(CargoStatusError::Other(msg)) => {
            assert_eq!(msg, "No profiles found. Save a profile first with --save-profile")
        }
        other => panic!("unexpected: {:?}", other),
    }
    save_profile(&mut profiles, &StatusArgs::default(), "other");
    match load_profile(&profiles, "quick") {
        Err(CargoStatusError::ProfileNotFound { name }) => assert_eq!(name, "quick"),
        other => panic!("unexpected: {:?}", other),
    }
}

#[test]
fn config_uses_the_named_profile() {
    let mut profiles: Table<Profile> = Table::new();
    save_profile(
        &mut profiles,
        &StatusArgs { clippy: true, ..Default::default() },
        "default",
    );
    save_profile(&mut profiles, &StatusArgs { doc: true, ..Default::default() }, "docs");

    let by_default = StatusArgs { use_profile: true, fmt: true, ..Default::default() };
    let config = Config::new(by_default, None, &profiles, &[]).unwrap();
    assert!(config.args.clippy && !config.args.fmt && !config.args.doc);

    let named =
        StatusArgs { use_profile: true, profile: Some("docs".to_string()), ..Default::default() };
    let config = Config::new(named, None, &profiles, &[]).unwrap();
    assert!(config.args.doc && !config.args.clippy);

    // The manifest can name the profile.
    let mut toml = CargoStatusConfig::default();
    toml.profile = Some("docs".to_string());
    let from_manifest = StatusArgs { use_profile: true, ..Default::default() };
    let config = Config::new(from_manifest, Some(toml), &profiles, &[]).unwrap();
    assert!(config.args.doc && !config.args.clippy);

    let missing =
        StatusArgs { use_profile: true, profile: Some("nope".to_string()), ..Default::default() };
    assert!(matches!(
        Config::new(missing, None, &profiles, &[]),
        Err(CargoStatusError::ProfileNotFound { .. })
    ));
    let no_profiles = StatusArgs { use_profile: true, ..Default::default() };
    assert!(matches!(
        Config::new(no_profiles, None, &Table::new(), &[]),
        Err(CargoStatusError::Other(_))
    ));
}

#[test]
fn config_answers() {
    let args = StatusArgs { build: true, ..Default::default() };
    let cmd_args = texts(&["-bv"]);
    let config = Config::new(args, None, &Table::new(), &cmd_args).unwrap();
    assert!(config.has_checks_enabled());
    assert_eq!(config.get_enabled_tools(), vec!["Build"]);
    assert!(config.is_tool_verbose("build"));
    assert!(!config.is_tool_verbose("test"));

    let all = StatusArgs { all: true, verbose: 1, ..Default::default() };
    let config = Config::new(all, None, &Table::new(), &[]).unwrap();
    assert!(config.has_checks_enabled());
    assert_eq!(
        config.get_enabled_tools(),
        vec!["Format", "Check", "Clippy", "Test", "Build", "Doc", "Audit"]
    );
    assert!(config.is_tool_verbose("anything"));

    let none = Config::new(StatusArgs::default(), None, &Table::new(), &[]).unwrap();
    assert!(!none.has_checks_enabled());
    assert!(none.get_enabled_tools().is_empty());
}

#[test]
fn package_settings_come_first() {
    let mut package = CargoStatusConfig::default();
    package.sequential = true;
    let workspace = CargoStatusConfig::default();
    assert!(select_config(Some(package.clone()), Some(workspace.clone())).unwrap().sequential);
    assert!(!select_config(None, Some(workspace)).unwrap().sequential);
    assert!(select_config(Some(package), None).unwrap().sequential);
    assert!(select_config(None, None).is_none());
}
