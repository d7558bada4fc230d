//! Where the settings of a run come from: the command line, the project's
//! manifest, and the saved profiles.

pub mod cli;
pub mod profiles;
pub mod toml_config;

pub use cli::StatusArgs;
pub use profiles::{get_default_profile_name, list_profiles, load_profile, save_profile, Profile};
pub use toml_config::{
    build_command_with_config, default_true, select_config, CargoStatusConfig, CargoTomlConfig,
    ChecksConfig, ToolArgs, VerboseTools,
};

use vstd::prelude::*;
use crate::config::cli::{display_names, enabled_display_names, enabled_tool_names, tool_names};
use crate::config::profiles::with_profile;
use crate::error::CargoStatusError;
use crate::table::Table;
use crate::text::{chars_of, has_name};

verus! {

/// The settings of a run, from all their sources.
#[derive(Debug)]
pub struct Config {
    pub args: StatusArgs,
    pub toml_config: Option<CargoStatusConfig>,
    pub verbose_tools: Vec<String>,
}

/// `args` with what the manifest sets where the command line is silent:
/// the tools, if the command line names none and does not ask for all; the
/// run in sequence, if the command line does not ask for it; the profile's
/// name, if the command line gives none.
pub open spec fn with_toml_config(args: StatusArgs, config: CargoStatusConfig) -> StatusArgs {
    let named = if !args.any_tool() && !args.all {
        StatusArgs {
            fmt: config.checks.fmt,
            check: config.checks.check,
            clippy: config.checks.clippy,
            test: config.checks.test,
            build: config.checks.build,
            doc: config.checks.doc,
            audit: config.checks.audit,
            ..args
        }
    } else {
        args
    };
    StatusArgs {
        sequential: args.sequential || config.sequential,
        profile: if args.profile is None {
            config.profile
        } else {
            args.profile
        },
        ..named
    }
}

/// `args` with what the manifest sets where the command line is silent,
/// every tool being verbose if the manifest says so and the command line
/// does not.
pub open spec fn with_cargo_toml_config(args: StatusArgs, config: CargoStatusConfig) -> StatusArgs {
    StatusArgs {
        verbose: if args.verbose == 0 && config.verbose {
            1
        } else {
            args.verbose
        },
        ..with_toml_config(args, config)
    }
}

/// A copy of a text that may be missing.
pub fn copy_text(text: &Option<String>) -> (copy: Option<String>)
    ensures
        copy == *text,
{
    match text {
        Some(t) => Some(t.clone()),
        None => None,
    }
}

/// Puts the tools of `checks` in place of those that `args` names.
pub fn set_checks(args: &mut StatusArgs, checks: &ChecksConfig)
    ensures
        *final(args) == (StatusArgs {
            fmt: checks.fmt,
            check: checks.check,
            clippy: checks.clippy,
            test: checks.test,
            build: checks.build,
            doc: checks.doc,
            audit: checks.audit,
            ..*old(args)
        }),
{
    args.fmt = checks.fmt;
    args.check = checks.check;
    args.clippy = checks.clippy;
    args.test = checks.test;
    args.build = checks.build;
    args.doc = checks.doc;
    args.audit = checks.audit;
}

/// Puts what the manifest sets into `args` where the command line is
/// silent.
pub fn apply_toml_config(args: &mut StatusArgs, config: &CargoStatusConfig)
    ensures
        *final(args) == with_toml_config(*old(args), *config),
{
    if !args.has_tool_flags() && !args.all {
        set_checks(args, &config.checks);
    }
    let sequential = args.sequential || config.sequential;
    args.sequential = sequential;
    if args.profile.is_none() {
        args.profile = copy_text(&config.profile);
    }
}

/// Puts what the manifest sets into `args` where the command line is
/// silent, the manifest's wish for verbose output included.
pub fn apply_cargo_toml_config(args: &mut StatusArgs, config: &CargoStatusConfig)
    ensures
        *final(args) == with_cargo_toml_config(*old(args), *config),
{
    let verbose = args.verbose;
    apply_toml_config(args, config);
    if verbose == 0 && config.verbose {
        args.verbose = 1;
    }
}

/// An argument that bundles one-letter flags: it starts with one `-` and
/// not with two.
pub open spec fn is_short_flags(arg: Seq<char>) -> bool {
    arg.len() >= 1 && arg[0] == '-' && !(arg.len() >= 2 && arg[1] == '-')
}

/// The argument bundles the flag `letter` with `v`.
pub open spec fn asks_verbose(arg: Seq<char>, letter: char) -> bool {
    is_short_flags(arg) && arg.skip(1).contains('v') && arg.skip(1).contains(letter)
}

/// One of the arguments bundles the flag `letter` with `v`.
pub open spec fn any_asks_verbose(args: Seq<Seq<char>>, letter: char) -> bool {
    exists|i: int| 0 <= i < args.len() && asks_verbose(#[trigger] args[i], letter)
}

/// The tools that are verbose: those for which the manifest says so, and
/// those whose one-letter flag stands together with `v` in an argument of
/// the command line.
pub open spec fn verbose_flags(config: Option<CargoStatusConfig>, args: Seq<Seq<char>>) -> VerboseTools {
    let set = match config {
        Some(c) => c.verbose_tools,
        None => VerboseTools {
            fmt: false,
            check: false,
            clippy: false,
            test: false,
            build: false,
            doc: false,
            audit: false,
        },
    };
    VerboseTools {
        fmt: set.fmt || any_asks_verbose(args, 'f'),
        check: set.check || any_asks_verbose(args, 'c'),
        clippy: set.clippy || any_asks_verbose(args, 'l'),
        test: set.test || any_asks_verbose(args, 't'),
        build: set.build || any_asks_verbose(args, 'b'),
        doc: set.doc || any_asks_verbose(args, 'd'),
        audit: set.audit || any_asks_verbose(args, 'u'),
    }
}

/// The names of the tools that are verbose, as the command line writes
/// them.
pub open spec fn verbose_names(config: Option<CargoStatusConfig>, args: Seq<Seq<char>>) -> Seq<
    Seq<char>,
> {
    let flags = verbose_flags(config, args);
    tool_names(
        flags.fmt,
        flags.check,
        flags.clippy,
        flags.test,
        flags.build,
        flags.doc,
        flags.audit,
    )
}

/// Whether `c` stands in `s` at or after index `from`.
pub fn has_char_from(s: &[char], c: char, from: usize) -> (found: bool)
    requires
        from <= s@.len(),
    ensures
        found == s@.skip(from as int).contains(c),
{
    let mut i: usize = from;
    while i < s.len()
        invariant
            from <= i <= s.len(),
            forall|j: int| from <= j < i ==> s@[j] != c,
        decreases s.len() - i,
    {
        if s[i] == c {
            assert(s@.skip(from as int)[i - from] == c);
            return true;
        }
        i += 1;
    }
    false
}

/// The tools whose one-letter flag one of the arguments bundles with `v`.
pub fn scan_verbose_flags(cmd_args: &[String]) -> (flags: VerboseTools)
    ensures
        flags.fmt == any_asks_verbose(cmd_args.deep_view(), 'f'),
        flags.check == any_asks_verbose(cmd_args.deep_view(), 'c'),
        flags.clippy == any_asks_verbose(cmd_args.deep_view(), 'l'),
        flags.test == any_asks_verbose(cmd_args.deep_view(), 't'),
        flags.build == any_asks_verbose(cmd_args.deep_view(), 'b'),
        flags.doc == any_asks_verbose(cmd_args.deep_view(), 'd'),
        flags.audit == any_asks_verbose(cmd_args.deep_view(), 'u'),
{
    let ghost args = cmd_args.deep_view();
    let mut flags = VerboseTools {
        fmt: false,
        check: false,
        clippy: false,
        test: false,
        build: false,
        doc: false,
        audit: false,
    };
    let mut i: usize = 0;
    while i < cmd_args.len()
        invariant
            i <= cmd_args.len(),
            args == cmd_args.deep_view(),
            flags.fmt == any_asks_verbose(args.take(i as int), 'f'),
            flags.check == any_asks_verbose(args.take(i as int), 'c'),
            flags.clippy == any_asks_verbose(args.take(i as int), 'l'),
            flags.test == any_asks_verbose(args.take(i as int), 't'),
            flags.build == any_asks_verbose(args.take(i as int), 'b'),
            flags.doc == any_asks_verbose(args.take(i as int), 'd'),
            flags.audit == any_asks_verbose(args.take(i as int), 'u'),
        decreases cmd_args.len() - i,
    {
        let arg = chars_of(cmd_args[i].as_str());
        let a = arg.as_slice();
        let short = a.len() >= 1 && a[0] == '-' && !(a.len() >= 2 && a[1] == '-');
        let with_v = short && has_char_from(a, 'v', 1);
        let f = with_v && has_char_from(a, 'f', 1);
        let c = with_v && has_char_from(a, 'c', 1);
        let l = with_v && has_char_from(a, 'l', 1);
        let t = with_v && has_char_from(a, 't', 1);
        let b = with_v && has_char_from(a, 'b', 1);
        let d = with_v && has_char_from(a, 'd', 1);
        let u = with_v && has_char_from(a, 'u', 1);
        proof {
            lemma_any_asks_step(args, i as int, 'f');
            lemma_any_asks_step(args, i as int, 'c');
            lemma_any_asks_step(args, i as int, 'l');
            lemma_any_asks_step(args, i as int, 't');
            lemma_any_asks_step(args, i as int, 'b');
            lemma_any_asks_step(args, i as int, 'd');
            lemma_any_asks_step(args, i as int, 'u');
        }
        flags = VerboseTools {
            fmt: flags.fmt || f,
            check: flags.check || c,
            clippy: flags.clippy || l,
            test: flags.test || t,
            build: flags.build || b,
            doc: flags.doc || d,
            audit: flags.audit || u,
        };
        i += 1;
    }
    assert(args.take(cmd_args.len() as int) =~= args);
    flags
}

/// One more argument asks for what the arguments before it ask, and for
/// what it asks itself.
pub proof fn lemma_any_asks_step(args: Seq<Seq<char>>, i: int, letter: char)
    requires
        0 <= i < args.len(),
    ensures
        any_asks_verbose(args.take(i + 1), letter) == (any_asks_verbose(args.take(i), letter)
            || asks_verbose(args[i], letter)),
{
    if asks_verbose(args[i], letter) {
        assert(args.take(i + 1)[i] == args[i]);
    }
}

/// The names of the tools that are verbose, given the manifest's settings
/// and the arguments of the command line.
pub fn parse_verbose_tools(cargo_config: Option<&CargoStatusConfig>, cmd_args: &[String]) -> (tools:
    Vec<String>)
    ensures
        tools.deep_view() == verbose_names(
            match cargo_config {
                Some(c) => Some(*c),
                None => None,
            },
            cmd_args.deep_view(),
        ),
{
    let asked = scan_verbose_flags(cmd_args);
    let set = match cargo_config {
        Some(c) => c.verbose_tools,
        None => VerboseTools {
            fmt: false,
            check: false,
            clippy: false,
            test: false,
            build: false,
            doc: false,
            audit: false,
        },
    };
    enabled_tool_names(
        set.fmt || asked.fmt,
        set.check || asked.check,
        set.clippy || asked.clippy,
        set.test || asked.test,
        set.build || asked.build,
        set.doc || asked.doc,
        set.audit || asked.audit,
    )
}

/// The arguments after the manifest and, where a profile is to be used,
/// the profile had their say: the profile named, or the default one.
pub open spec fn settled_args(
    args: StatusArgs,
    toml_config: Option<CargoStatusConfig>,
    profiles: Map<Seq<char>, Profile>,
) -> StatusArgs {
    let applied = match toml_config {
        Some(c) => with_toml_config(args, c),
        None => args,
    };
    if applied.use_profile {
        with_profile(applied, profiles[wanted_profile(applied)])
    } else {
        applied
    }
}

/// The name of the profile that `args` means.
pub open spec fn wanted_profile(args: StatusArgs) -> Seq<char> {
    match args.profile {
        Some(name) => name@,
        None => "default"@,
    }
}

impl Config {
    /// The settings of a run: the command line, with what the manifest
    /// sets where the command line is silent, and with the flags of the
    /// saved profile where one is to be used. It is an error to ask for a
    /// profile that is not saved.
    pub fn new(
        args: StatusArgs,
        toml_config: Option<CargoStatusConfig>,
        profiles: &Table<Profile>,
        cmd_args: &[String],
    ) -> (made: Result<Config, CargoStatusError>)
        requires
            profiles.wf(),
        ensures
            ({
                let applied = match toml_config {
                    Some(c) => with_toml_config(args, c),
                    None => args,
                };
                match made {
                    Ok(config) => {
                        &&& applied.use_profile ==> profiles@.contains_key(wanted_profile(applied))
                        &&& config.args == settled_args(args, toml_config, profiles@)
                        &&& config.toml_config == toml_config
                        &&& config.verbose_tools.deep_view() == verbose_names(
                            toml_config,
                            cmd_args.deep_view(),
                        )
                    },
                    Err(CargoStatusError::Other(msg)) => applied.use_profile && profiles.spec_len()
                        == 0 && msg@
                        == "No profiles found. Save a profile first with --save-profile"@,
                    Err(CargoStatusError::ProfileNotFound { name }) => applied.use_profile
                        && profiles.spec_len() > 0 && !profiles@.contains_key(
                        wanted_profile(applied),
                    ) && name@ == wanted_profile(applied),
                    Err(_) => false,
                }
            }),
    {
        let mut args = args;
        match &toml_config {
            Some(config) => {
                apply_toml_config(&mut args, config);
            },
            None => {},
        }
        if args.use_profile {
            let loaded = match &args.profile {
                Some(name) => load_profile(profiles, name.as_str()),
                None => load_profile(profiles, get_default_profile_name()),
            };
            match loaded {
                Ok(profile) => {
                    profile.apply_to_args(&mut args);
                },
                Err(e) => {
                    return Err(e);
                },
            }
        }
        let verbose_tools = parse_verbose_tools(toml_config.as_ref(), cmd_args);
        Ok(Config { args, toml_config, verbose_tools })
    }

    /// Whether any tool is asked for.
    pub fn has_checks_enabled(&self) -> (r: bool)
        ensures
            r == (self.args.any_tool() || self.args.all),
    {
        self.args.has_tool_flags() || self.args.all
    }

    /// The tools that are asked for, as the display writes them: all of
    /// them if all are asked for, and otherwise those named.
    pub fn get_enabled_tools(&self) -> (tools: Vec<String>)
        ensures
            tools.deep_view() == if self.args.all {
                display_names(true, true, true, true, true, true, true)
            } else {
                display_names(
                    self.args.fmt,
                    self.args.check,
                    self.args.clippy,
                    self.args.test,
                    self.args.build,
                    self.args.doc,
                    self.args.audit,
                )
            },
    {
        if self.args.all {
            enabled_display_names(true, true, true, true, true, true, true)
        } else {
            self.args.get_enabled_tools_display_names()
        }
    }

    /// Whether the output of `tool` is shown as it comes: if the tool is
    /// among the verbose ones, or if every tool is verbose.
    pub fn is_tool_verbose(&self, tool: &str) -> (r: bool)
        ensures
            r == (self.verbose_tools.deep_view().contains(tool@) || self.args.verbose > 0),
    {
        has_name(self.verbose_tools.as_slice(), tool) || self.args.verbose > 0
    }
}

} // verus!
