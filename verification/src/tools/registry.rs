//! The tools that the program knows, and the check that stands for each.

use vstd::prelude::*;
use crate::cache::{has_tool_cached, lookup, tool_key, tool_outcome, Cache};
use crate::config::Config;
use crate::text::{extend_from, push_text, split_words, words};
use crate::tools::status_check::{StatusCheck, StatusCheckView};

verus! {

/// The tools that the program knows.
pub struct ToolRegistry;

/// Nothing, or the words of a text that may be missing.
pub open spec fn optional_words(text: Option<String>) -> Seq<Seq<char>> {
    match text {
        Some(t) => words(t@),
        None => Seq::empty(),
    }
}

impl Config {
    /// The output of `tool` is shown as it comes.
    pub open spec fn tool_is_verbose(&self, tool: Seq<char>) -> bool {
        self.verbose_tools.deep_view().contains(tool) || self.args.verbose > 0
    }

    /// What the manifest adds to the formatter's arguments.
    pub open spec fn fmt_extra(&self) -> Seq<Seq<char>> {
        match self.toml_config {
            Some(t) => t.tool_args.fmt.deep_view(),
            None => Seq::empty(),
        }
    }

    /// What the manifest adds to the type check's arguments.
    pub open spec fn check_extra(&self) -> Seq<Seq<char>> {
        match self.toml_config {
            Some(t) => t.tool_args.check.deep_view(),
            None => Seq::empty(),
        }
    }

    /// What the manifest adds to the linter's arguments.
    pub open spec fn clippy_extra(&self) -> Seq<Seq<char>> {
        match self.toml_config {
            Some(t) => t.tool_args.clippy.deep_view(),
            None => Seq::empty(),
        }
    }

    /// What the manifest adds to the tests' arguments.
    pub open spec fn test_extra(&self) -> Seq<Seq<char>> {
        match self.toml_config {
            Some(t) => t.tool_args.test.deep_view(),
            None => Seq::empty(),
        }
    }

    /// What the manifest adds to the build's arguments.
    pub open spec fn build_extra(&self) -> Seq<Seq<char>> {
        match self.toml_config {
            Some(t) => t.tool_args.build.deep_view(),
            None => Seq::empty(),
        }
    }

    /// What the manifest adds to the documentation's arguments.
    pub open spec fn doc_extra(&self) -> Seq<Seq<char>> {
        match self.toml_config {
            Some(t) => t.tool_args.doc.deep_view(),
            None => Seq::empty(),
        }
    }

    /// What the manifest adds to the audit's arguments.
    pub open spec fn audit_extra(&self) -> Seq<Seq<char>> {
        match self.toml_config {
            Some(t) => t.tool_args.audit.deep_view(),
            None => Seq::empty(),
        }
    }
}

/// The check that runs the formatter.
pub open spec fn fmt_check(config: Config) -> StatusCheckView {
    StatusCheckView {
        name: "Format"@,
        command: seq!["cargo"@, "fmt"@, "--all"@] + config.fmt_extra(),
        warning_patterns: seq!["warning"@],
        verbose: config.tool_is_verbose("fmt"@),
    }
}

/// The check that runs the type check.
pub open spec fn check_check(config: Config) -> StatusCheckView {
    StatusCheckView {
        name: "Check"@,
        command: seq!["cargo"@, "check"@, "--workspace"@, "--all-targets"@]
            + config.check_extra(),
        warning_patterns: seq!["warning"@],
        verbose: config.tool_is_verbose("check"@),
    }
}

/// The check that runs the linter: the arguments of the command line and
/// then those of the manifest stand before the `--`, and a hint counts as a
/// warning too.
pub open spec fn clippy_check(config: Config) -> StatusCheckView {
    StatusCheckView {
        name: "Clippy"@,
        command: seq!["cargo"@, "clippy"@, "--workspace"@, "--all-targets"@, "--all-features"@]
            + optional_words(config.args.clippy_args) + config.clippy_extra() + seq![
            "--"@,
            "-D"@,
            "warnings"@,
        ],
        warning_patterns: seq!["warning"@, "help:"@],
        verbose: config.tool_is_verbose("clippy"@),
    }
}

/// The check that runs the tests, with the alternate runner if it is
/// installed.
pub open spec fn test_check(config: Config, nextest: bool) -> StatusCheckView {
    StatusCheckView {
        name: "Test"@,
        command: (if nextest {
            seq!["cargo"@, "nextest"@, "run"@, "--no-fail-fast"@, "--color=always"@]
        } else {
            seq!["cargo"@, "test"@, "--workspace"@]
        }) + optional_words(config.args.test_args) + config.test_extra(),
        warning_patterns: seq!["warning"@],
        verbose: config.tool_is_verbose("test"@),
    }
}

/// The check that runs the build.
pub open spec fn build_check(config: Config) -> StatusCheckView {
    StatusCheckView {
        name: "Build"@,
        command: seq!["cargo"@, "build"@, "--workspace"@, "--all-targets"@] + optional_words(
            config.args.build_args,
        ) + config.build_extra(),
        warning_patterns: seq!["warning"@],
        verbose: config.tool_is_verbose("build"@),
    }
}

/// The check that builds the documentation.
pub open spec fn doc_check(config: Config) -> StatusCheckView {
    StatusCheckView {
        name: "Doc"@,
        command: seq!["cargo"@, "doc"@, "--workspace"@, "--no-deps"@] + config.doc_extra(),
        warning_patterns: seq!["warning"@],
        verbose: config.tool_is_verbose("doc"@),
    }
}

/// The check that runs the audit.
pub open spec fn audit_check(config: Config) -> StatusCheckView {
    StatusCheckView {
        name: "Audit"@,
        command: seq!["cargo"@, "audit"@] + config.audit_extra(),
        warning_patterns: seq!["warning"@],
        verbose: config.tool_is_verbose("audit"@),
    }
}

/// Puts the words of `text`, if there is one, at the end of `cmd`.
pub fn push_words(cmd: &mut Vec<String>, text: &Option<String>)
    ensures
        final(cmd).deep_view() == old(cmd).deep_view() + optional_words(*text),
{
    match text {
        Some(t) => {
            let found = split_words(t.as_str());
            extend_from(cmd, found.as_slice(), 0);
        },
        None => {},
    }
}

/// Puts `extra` at the end of `cmd`.
pub fn push_all(cmd: &mut Vec<String>, extra: &[String])
    ensures
        final(cmd).deep_view() == old(cmd).deep_view() + extra.deep_view(),
{
    extend_from(cmd, extra, 0);
}

/// `cargo` and the subcommand `tool`.
pub fn cargo_command(tool: &str) -> (cmd: Vec<String>)
    ensures
        cmd.deep_view() == seq!["cargo"@, tool@],
{
    let mut cmd: Vec<String> = Vec::new();
    push_text(&mut cmd, "cargo");
    push_text(&mut cmd, tool);
    cmd
}

impl ToolRegistry {
    /// Whether the linter is installed, by the cache or by `probe`.
    pub fn has_clippy(cache: &mut Cache<bool>, probe: impl FnOnce() -> bool) -> (available: bool)
        requires
            old(cache).wf(),
            probe.requires(()),
        ensures
            final(cache).wf(),
            final(cache).ttl_nanos() == old(cache).ttl_nanos(),
            exists|now: u128, stored: u128|
                {
                    &&& #[trigger] tool_outcome(
                        old(cache)@,
                        final(cache)@,
                        tool_key("clippy"@),
                        old(cache).ttl_nanos(),
                        available,
                        now,
                        stored,
                    )
                    &&& lookup(old(cache)@, tool_key("clippy"@), now, old(cache).ttl_nanos())
                        is None ==> probe.ensures((), available)
                },
    {
        has_tool_cached(cache, "clippy", probe)
    }

    /// Whether the audit is installed, by the cache or by `probe`.
    pub fn has_audit(cache: &mut Cache<bool>, probe: impl FnOnce() -> bool) -> (available: bool)
        requires
            old(cache).wf(),
            probe.requires(()),
        ensures
            final(cache).wf(),
            final(cache).ttl_nanos() == old(cache).ttl_nanos(),
            exists|now: u128, stored: u128|
                {
                    &&& #[trigger] tool_outcome(
                        old(cache)@,
                        final(cache)@,
                        tool_key("audit"@),
                        old(cache).ttl_nanos(),
                        available,
                        now,
                        stored,
                    )
                    &&& lookup(old(cache)@, tool_key("audit"@), now, old(cache).ttl_nanos())
                        is None ==> probe.ensures((), available)
                },
    {
        has_tool_cached(cache, "audit", probe)
    }

    /// Whether the alternate test runner is installed, by the cache or by
    /// `probe`.
    pub fn has_nextest(cache: &mut Cache<bool>, probe: impl FnOnce() -> bool) -> (available: bool)
        requires
            old(cache).wf(),
            probe.requires(()),
        ensures
            final(cache).wf(),
            final(cache).ttl_nanos() == old(cache).ttl_nanos(),
            exists|now: u128, stored: u128|
                {
                    &&& #[trigger] tool_outcome(
                        old(cache)@,
                        final(cache)@,
                        tool_key("nextest"@),
                        old(cache).ttl_nanos(),
                        available,
                        now,
                        stored,
                    )
                    &&& lookup(old(cache)@, tool_key("nextest"@), now, old(cache).ttl_nanos())
                        is None ==> probe.ensures((), available)
                },
    {
        has_tool_cached(cache, "nextest", probe)
    }

    /// The check that runs the formatter.
    pub fn create_fmt_check(config: &Config) -> (check: StatusCheck)
        ensures
            check@ == fmt_check(*config),
    {
        let mut cmd = cargo_command("fmt");
        push_text(&mut cmd, "--all");
        assert(cmd.deep_view() =~= seq!["cargo"@, "fmt"@, "--all"@]);
        match &config.toml_config {
            Some(t) => {
                push_all(&mut cmd, t.tool_args.fmt.as_slice());
            },
            None => {},
        }
        StatusCheck::new("Format", cmd).with_verbose(config.is_tool_verbose("fmt"))
    }

    /// The check that runs the type check.
    pub fn create_check_check(config: &Config) -> (check: StatusCheck)
        ensures
            check@ == check_check(*config),
    {
        let mut cmd = cargo_command("check");
        push_text(&mut cmd, "--workspace");
        push_text(&mut cmd, "--all-targets");
        assert(cmd.deep_view() =~= seq!["cargo"@, "check"@, "--workspace"@, "--all-targets"@]);
        match &config.toml_config {
            Some(t) => {
                push_all(&mut cmd, t.tool_args.check.as_slice());
            },
            None => {},
        }
        StatusCheck::new("Check", cmd).with_verbose(config.is_tool_verbose("check"))
    }

    /// The check that runs the linter, if `installed` says that the linter
    /// is there.
    pub fn create_clippy_check(config: &Config, installed: impl FnOnce() -> bool) -> (check: Option<
        StatusCheck,
    >)
        requires
            installed.requires(()),
        ensures
            match check {
                Some(c) => installed.ensures((), true) && c@ == clippy_check(*config),
                None => installed.ensures((), false),
            },
    {
        if !installed() {
            return None;
        }
        let mut cmd = cargo_command("clippy");
        push_text(&mut cmd, "--workspace");
        push_text(&mut cmd, "--all-targets");
        push_text(&mut cmd, "--all-features");
        assert(cmd.deep_view() =~= seq![
            "cargo"@,
            "clippy"@,
            "--workspace"@,
            "--all-targets"@,
            "--all-features"@,
        ]);
        push_words(&mut cmd, &config.args.clippy_args);
        match &config.toml_config {
            Some(t) => {
                push_all(&mut cmd, t.tool_args.clippy.as_slice());
            },
            None => {},
        }
        let ghost before = cmd.deep_view();
        push_text(&mut cmd, "--");
        push_text(&mut cmd, "-D");
        push_text(&mut cmd, "warnings");
        assert(cmd.deep_view() =~= before + seq!["--"@, "-D"@, "warnings"@]);
        let mut patterns: Vec<String> = Vec::new();
        push_text(&mut patterns, "warning");
        push_text(&mut patterns, "help:");
        assert(patterns.deep_view() =~= seq!["warning"@, "help:"@]);
        Some(
            StatusCheck::new("Clippy", cmd).with_warning_patterns(patterns).with_verbose(
                config.is_tool_verbose("clippy"),
            ),
        )
    }

    /// The check that runs the tests: with the alternate runner if
    /// `nextest` says that it is there, with the standard one if not.
    pub fn create_test_check(config: &Config, nextest: impl FnOnce() -> bool) -> (check: StatusCheck)
        requires
            nextest.requires(()),
        ensures
            exists|there: bool| nextest.ensures((), there) && check@ == #[trigger] test_check(*config, there),
    {
        let there = nextest();
        let mut cmd: Vec<String>;
        if there {
            cmd = cargo_command("nextest");
            push_text(&mut cmd, "run");
            push_text(&mut cmd, "--no-fail-fast");
            push_text(&mut cmd, "--color=always");
            assert(cmd.deep_view() =~= seq![
                "cargo"@,
                "nextest"@,
                "run"@,
                "--no-fail-fast"@,
                "--color=always"@,
            ]);
        } else {
            cmd = cargo_command("test");
            push_text(&mut cmd, "--workspace");
            assert(cmd.deep_view() =~= seq!["cargo"@, "test"@, "--workspace"@]);
        }
        push_words(&mut cmd, &config.args.test_args);
        match &config.toml_config {
            Some(t) => {
                push_all(&mut cmd, t.tool_args.test.as_slice());
            },
            None => {},
        }
        let check = StatusCheck::new("Test", cmd).with_verbose(config.is_tool_verbose("test"));
        assert(check@ == test_check(*config, there));
        check
    }

    /// The check that runs the build.
    pub fn create_build_check(config: &Config) -> (check: StatusCheck)
        ensures
            check@ == build_check(*config),
    {
        let mut cmd = cargo_command("build");
        push_text(&mut cmd, "--workspace");
        push_text(&mut cmd, "--all-targets");
        assert(cmd.deep_view() =~= seq!["cargo"@, "build"@, "--workspace"@, "--all-targets"@]);
        push_words(&mut cmd, &config.args.build_args);
        match &config.toml_config {
            Some(t) => {
                push_all(&mut cmd, t.tool_args.build.as_slice());
            },
            None => {},
        }
        StatusCheck::new("Build", cmd).with_verbose(config.is_tool_verbose("build"))
    }

    /// The check that builds the documentation.
    pub fn create_doc_check(config: &Config) -> (check: StatusCheck)
        ensures
            check@ == doc_check(*config),
    {
        let mut cmd = cargo_command("doc");
        push_text(&mut cmd, "--workspace");
        push_text(&mut cmd, "--no-deps");
        assert(cmd.deep_view() =~= seq!["cargo"@, "doc"@, "--workspace"@, "--no-deps"@]);
        match &config.toml_config {
            Some(t) => {
                push_all(&mut cmd, t.tool_args.doc.as_slice());
            },
            None => {},
        }
        StatusCheck::new("Doc", cmd).with_verbose(config.is_tool_verbose("doc"))
    }

    /// The check that runs the audit, if `installed` says that the audit is
    /// there.
    pub fn create_audit_check(config: &Config, installed: impl FnOnce() -> bool) -> (check: Option<
        StatusCheck,
    >)
        requires
            installed.requires(()),
        ensures
            match check {
                Some(c) => installed.ensures((), true) && c@ == audit_check(*config),
                None => installed.ensures((), false),
            },
    {
        if !installed() {
            return None;
        }
        let mut cmd = cargo_command("audit");
        match &config.toml_config {
            Some(t) => {
                push_all(&mut cmd, t.tool_args.audit.as_slice());
            },
            None => {},
        }
        Some(StatusCheck::new("Audit", cmd).with_verbose(config.is_tool_verbose("audit")))
    }
}

/// The check, if it is to run.
pub open spec fn one_if(flag: bool, check: StatusCheckView) -> Seq<StatusCheckView> {
    if flag {
        seq![check]
    } else {
        Seq::empty()
    }
}

/// The checks of a run, in the order in which they are listed: the
/// formatter first, then the type check, the linter, the tests, the build,
/// the documentation and the audit. A tool takes part if it is named or if
/// all are asked for; the linter and the audit only if they are installed.
pub open spec fn planned_checks(config: Config, clippy: bool, nextest: bool, audit: bool) -> Seq<
    StatusCheckView,
> {
    let a = config.args;
    one_if(a.fmt || a.all, fmt_check(config)) + one_if(a.check || a.all, check_check(config))
        + one_if((a.clippy || a.all) && clippy, clippy_check(config)) + one_if(
        a.test || a.all,
        test_check(config, nextest),
    ) + one_if(a.build || a.all, build_check(config)) + one_if(a.doc || a.all, doc_check(config))
        + one_if((a.audit || a.all) && audit, audit_check(config))
}

/// The checks, each with its texts as characters.
pub open spec fn check_views(checks: Seq<StatusCheck>) -> Seq<StatusCheckView> {
    checks.map_values(|c: StatusCheck| c@)
}

/// Puts `check` at the end of `checks`.
pub fn push_check(checks: &mut Vec<StatusCheck>, check: StatusCheck)
    ensures
        check_views(final(checks)@) == check_views(old(checks)@) + seq![check@],
{
    checks.push(check);
}

/// The checks of a run. Which tools are installed is asked of
/// `has_clippy`, `has_nextest` and `has_audit`, each only if its tool is to
/// run.
pub fn create_all_checks(
    config: &Config,
    has_clippy: impl FnOnce() -> bool,
    has_nextest: impl FnOnce() -> bool,
    has_audit: impl FnOnce() -> bool,
) -> (checks: Vec<StatusCheck>)
    requires
        has_clippy.requires(()),
        has_nextest.requires(()),
        has_audit.requires(()),
    ensures
        exists|clippy: bool, nextest: bool, audit: bool|
            {
                &&& check_views(checks@) == #[trigger] planned_checks(
                    *config,
                    clippy,
                    nextest,
                    audit,
                )
                &&& config.args.clippy || config.args.all ==> has_clippy.ensures((), clippy)
                &&& config.args.test || config.args.all ==> has_nextest.ensures((), nextest)
                &&& config.args.audit || config.args.all ==> has_audit.ensures((), audit)
            },
{
    let all = config.args.all;
    let mut checks: Vec<StatusCheck> = Vec::new();
    let ghost mut clippy = false;
    let ghost mut nextest = false;
    let ghost mut audit = false;
    if config.args.fmt || all {
        push_check(&mut checks, ToolRegistry::create_fmt_check(config));
    }
    if config.args.check || all {
        push_check(&mut checks, ToolRegistry::create_check_check(config));
    }
    if config.args.clippy || all {
        match ToolRegistry::create_clippy_check(config, has_clippy) {
            Some(check) => {
                proof {
                    clippy = true;
                }
                push_check(&mut checks, check);
            },
            None => {},
        }
    }
    if config.args.test || all {
        let check = ToolRegistry::create_test_check(config, has_nextest);
        proof {
            nextest = choose|there: bool|
                has_nextest.ensures((), there) && check@ == #[trigger] test_check(*config, there);
        }
        push_check(&mut checks, check);
    }
    if config.args.build || all {
        push_check(&mut checks, ToolRegistry::create_build_check(config));
    }
    if config.args.doc || all {
        push_check(&mut checks, ToolRegistry::create_doc_check(config));
    }
    if config.args.audit || all {
        match ToolRegistry::create_audit_check(config, has_audit) {
            Some(check) => {
                proof {
                    audit = true;
                }
                push_check(&mut checks, check);
            },
            None => {},
        }
    }
    assert(check_views(checks@) == planned_checks(*config, clippy, nextest, audit));
    checks
}

/// What is said when the linter is asked for and not installed.
pub fn clippy_missing_notice() -> (lines: Vec<String>)
    ensures
        lines.deep_view() == seq![
            "Warning: clippy is not installed. Skipping clippy check."@,
            "Install it with: rustup component add clippy"@,
        ],
{
    let mut lines: Vec<String> = Vec::new();
    push_text(&mut lines, "Warning: clippy is not installed. Skipping clippy check.");
    push_text(&mut lines, "Install it with: rustup component add clippy");
    lines
}

/// What is said when the audit is asked for and not installed.
pub fn audit_missing_notice() -> (lines: Vec<String>)
    ensures
        lines.deep_view() == seq![
            "Warning: cargo-audit is not installed. Skipping audit check."@,
            "Install it with: cargo install cargo-audit"@,
        ],
{
    let mut lines: Vec<String> = Vec::new();
    push_text(&mut lines, "Warning: cargo-audit is not installed. Skipping audit check.");
    push_text(&mut lines, "Install it with: cargo install cargo-audit");
    lines
}

} // verus!
