//! What the project's manifest can set.

use vstd::prelude::*;
use crate::text::extend_from;

verus! {

/// The part of a manifest's metadata that belongs to this tool.
#[derive(Debug)]
pub struct CargoTomlConfig {
    pub cargo_status: Option<CargoStatusConfig>,
}

/// The settings that a manifest can give.
#[derive(Debug, Clone)]
pub struct CargoStatusConfig {
    pub checks: ChecksConfig,
    pub sequential: bool,
    pub verbose: bool,
    pub verbose_tools: VerboseTools,
    pub profile: Option<String>,
    pub tool_args: ToolArgs,
}

/// The tools that run where the command line names none.
#[derive(Debug, Clone, Copy)]
pub struct ChecksConfig {
    pub fmt: bool,
    pub check: bool,
    pub clippy: bool,
    pub test: bool,
    pub build: bool,
    pub doc: bool,
    pub audit: bool,
}

/// The tools whose output is shown as it comes.
#[derive(Debug, Clone, Copy)]
pub struct VerboseTools {
    pub fmt: bool,
    pub check: bool,
    pub clippy: bool,
    pub test: bool,
    pub build: bool,
    pub doc: bool,
    pub audit: bool,
}

/// More arguments for each tool.
#[derive(Debug, Clone)]
pub struct ToolArgs {
    pub fmt: Vec<String>,
    pub check: Vec<String>,
    pub clippy: Vec<String>,
    pub test: Vec<String>,
    pub build: Vec<String>,
    pub doc: Vec<String>,
    pub audit: Vec<String>,
}

impl Default for CargoTomlConfig {
    fn default() -> (config: Self)
        ensures
            config.cargo_status is None,
    {
        CargoTomlConfig { cargo_status: None }
    }
}

impl Default for ChecksConfig {
    fn default() -> (checks: Self)
        ensures
            !checks.fmt && !checks.check && !checks.clippy && !checks.test && !checks.build
                && !checks.doc && !checks.audit,
    {
        ChecksConfig {
            fmt: false,
            check: false,
            clippy: false,
            test: false,
            build: false,
            doc: false,
            audit: false,
        }
    }
}

impl Default for VerboseTools {
    fn default() -> (tools: Self)
        ensures
            !tools.fmt && !tools.check && !tools.clippy && !tools.test && !tools.build
                && !tools.doc && !tools.audit,
    {
        VerboseTools {
            fmt: false,
            check: false,
            clippy: false,
            test: false,
            build: false,
            doc: false,
            audit: false,
        }
    }
}

impl Default for ToolArgs {
    fn default() -> (args: Self)
        ensures
            args.fmt@.len() == 0 && args.check@.len() == 0 && args.clippy@.len() == 0
                && args.test@.len() == 0 && args.build@.len() == 0 && args.doc@.len() == 0
                && args.audit@.len() == 0,
    {
        ToolArgs {
            fmt: Vec::new(),
            check: Vec::new(),
            clippy: Vec::new(),
            test: Vec::new(),
            build: Vec::new(),
            doc: Vec::new(),
            audit: Vec::new(),
        }
    }
}

impl Default for CargoStatusConfig {
    fn default() -> (config: Self)
        ensures
            !config.checks.fmt && !config.checks.check && !config.checks.clippy
                && !config.checks.test && !config.checks.build && !config.checks.doc
                && !config.checks.audit,
            !config.sequential,
            !config.verbose,
            !config.verbose_tools.fmt && !config.verbose_tools.check
                && !config.verbose_tools.clippy && !config.verbose_tools.test
                && !config.verbose_tools.build && !config.verbose_tools.doc
                && !config.verbose_tools.audit,
            config.profile is None,
            config.tool_args.fmt@.len() == 0 && config.tool_args.check@.len() == 0
                && config.tool_args.clippy@.len() == 0 && config.tool_args.test@.len() == 0
                && config.tool_args.build@.len() == 0 && config.tool_args.doc@.len() == 0
                && config.tool_args.audit@.len() == 0,
    {
        CargoStatusConfig {
            checks: ChecksConfig::default(),
            sequential: false,
            verbose: false,
            verbose_tools: VerboseTools::default(),
            profile: None,
            tool_args: ToolArgs::default(),
        }
    }
}

/// The value of a check that a manifest's `checks` table does not mention,
/// for the five tools that run unless they are switched off.
pub fn default_true() -> (r: bool)
    ensures
        r,
{
    true
}

/// The settings that count where a manifest may give them for the package
/// and for the workspace: those of the package, and those of the workspace
/// only where the package gives none.
pub fn select_config(
    package: Option<CargoStatusConfig>,
    workspace: Option<CargoStatusConfig>,
) -> (chosen: Option<CargoStatusConfig>)
    ensures
        chosen == if package is Some {
            package
        } else {
            workspace
        },
{
    match package {
        Some(config) => Some(config),
        None => workspace,
    }
}

/// The command `base_cmd` with the arguments `config_args` after its own.
pub fn build_command_with_config(base_cmd: Vec<String>, config_args: &[String]) -> (cmd: Vec<
    String,
>)
    ensures
        cmd.deep_view() == base_cmd.deep_view() + config_args.deep_view(),
{
    let mut cmd = base_cmd;
    extend_from(&mut cmd, config_args, 0);
    cmd
}

} // verus!
