//! What the command line asks for.

use vstd::prelude::*;
use crate::text::push_text;

verus! {

/// `name` if it is asked for, nothing if not.
pub open spec fn listed(flag: bool, name: Seq<char>) -> Seq<Seq<char>> {
    if flag {
        seq![name]
    } else {
        Seq::empty()
    }
}

/// The names of the tools that are asked for, as the command line writes
/// them, in the order in which the tools run.
pub open spec fn tool_names(
    fmt: bool,
    check: bool,
    clippy: bool,
    test: bool,
    build: bool,
    doc: bool,
    audit: bool,
) -> Seq<Seq<char>> {
    listed(fmt, "fmt"@) + listed(check, "check"@) + listed(clippy, "clippy"@) + listed(
        test,
        "test"@,
    ) + listed(build, "build"@) + listed(doc, "doc"@) + listed(audit, "audit"@)
}

/// The names of the tools that are asked for, as the display writes them,
/// in the order in which the tools run.
pub open spec fn display_names(
    fmt: bool,
    check: bool,
    clippy: bool,
    test: bool,
    build: bool,
    doc: bool,
    audit: bool,
) -> Seq<Seq<char>> {
    listed(fmt, "Format"@) + listed(check, "Check"@) + listed(clippy, "Clippy"@) + listed(
        test,
        "Test"@,
    ) + listed(build, "Build"@) + listed(doc, "Doc"@) + listed(audit, "Audit"@)
}

/// Puts `name` at the end of `names` if `flag` is set.
pub fn push_if(names: &mut Vec<String>, flag: bool, name: &str)
    ensures
        final(names).deep_view() == old(names).deep_view() + listed(flag, name@),
{
    if flag {
        push_text(names, name);
    }
}

/// The names of the tools that are asked for, as the command line writes
/// them.
pub fn enabled_tool_names(
    fmt: bool,
    check: bool,
    clippy: bool,
    test: bool,
    build: bool,
    doc: bool,
    audit: bool,
) -> (names: Vec<String>)
    ensures
        names.deep_view() == tool_names(fmt, check, clippy, test, build, doc, audit),
{
    let mut names: Vec<String> = Vec::new();
    push_if(&mut names, fmt, "fmt");
    push_if(&mut names, check, "check");
    push_if(&mut names, clippy, "clippy");
    push_if(&mut names, test, "test");
    push_if(&mut names, build, "build");
    push_if(&mut names, doc, "doc");
    push_if(&mut names, audit, "audit");
    names
}

/// The names of the tools that are asked for, as the display writes them.
pub fn enabled_display_names(
    fmt: bool,
    check: bool,
    clippy: bool,
    test: bool,
    build: bool,
    doc: bool,
    audit: bool,
) -> (names: Vec<String>)
    ensures
        names.deep_view() == display_names(fmt, check, clippy, test, build, doc, audit),
{
    let mut names: Vec<String> = Vec::new();
    push_if(&mut names, fmt, "Format");
    push_if(&mut names, check, "Check");
    push_if(&mut names, clippy, "Clippy");
    push_if(&mut names, test, "Test");
    push_if(&mut names, build, "Build");
    push_if(&mut names, doc, "Doc");
    push_if(&mut names, audit, "Audit");
    names
}

/// The arguments of the `status` subcommand.
#[derive(Debug, Clone)]
pub struct StatusArgs {
    /// Run the formatter.
    pub fmt: bool,
    /// Run the type check.
    pub check: bool,
    /// Run the linter.
    pub clippy: bool,
    /// Run the tests.
    pub test: bool,
    /// Run the build.
    pub build: bool,
    /// Build the documentation.
    pub doc: bool,
    /// Run the audit.
    pub audit: bool,
    /// Run every tool that is available.
    pub all: bool,
    /// Run the tools one after the other.
    pub sequential: bool,
    /// How often `-v` was given: above 0, every tool is verbose.
    pub verbose: u8,
    /// More arguments for the linter.
    pub clippy_args: Option<String>,
    /// More arguments for the tests.
    pub test_args: Option<String>,
    /// More arguments for the build.
    pub build_args: Option<String>,
    /// Save the flags as a profile.
    pub save_profile: bool,
    /// Take the flags from a saved profile.
    pub use_profile: bool,
    /// The profile to save or to use.
    pub profile: Option<String>,
    /// List the saved profiles.
    pub list_profiles: bool,
    /// Print without colour.
    pub no_color: bool,
}

impl Default for StatusArgs {
    fn default() -> (args: Self)
        ensures
            !args.fmt && !args.check && !args.clippy && !args.test && !args.build && !args.doc
                && !args.audit && !args.all && !args.sequential,
            args.verbose == 0,
            args.clippy_args is None && args.test_args is None && args.build_args is None,
            !args.save_profile && !args.use_profile && !args.list_profiles && !args.no_color,
            args.profile is None,
    {
        StatusArgs {
            fmt: false,
            check: false,
            clippy: false,
            test: false,
            build: false,
            doc: false,
            audit: false,
            all: false,
            sequential: false,
            verbose: 0,
            clippy_args: None,
            test_args: None,
            build_args: None,
            save_profile: false,
            use_profile: false,
            profile: None,
            list_profiles: false,
            no_color: false,
        }
    }
}

impl StatusArgs {
    /// A tool is asked for by name.
    pub open spec fn any_tool(&self) -> bool {
        self.fmt || self.check || self.clippy || self.test || self.build || self.doc || self.audit
    }

    /// Whether a tool is asked for by name.
    pub fn has_tool_flags(&self) -> (r: bool)
        ensures
            r == self.any_tool(),
    {
        self.fmt || self.check || self.clippy || self.test || self.build || self.doc || self.audit
    }

    /// Whether something is asked of the saved profiles.
    pub fn has_profile_flags(&self) -> (r: bool)
        ensures
            r == (self.save_profile || self.use_profile || self.list_profiles),
    {
        self.save_profile || self.use_profile || self.list_profiles
    }

    /// The tools that are asked for by name, as the command line writes
    /// them.
    pub fn get_enabled_tools(&self) -> (tools: Vec<String>)
        ensures
            tools.deep_view() == tool_names(
                self.fmt,
                self.check,
                self.clippy,
                self.test,
                self.build,
                self.doc,
                self.audit,
            ),
    {
        enabled_tool_names(
            self.fmt,
            self.check,
            self.clippy,
            self.test,
            self.build,
            self.doc,
            self.audit,
        )
    }

    /// The tools that are asked for by name, as the display writes them.
    pub fn get_enabled_tools_display_names(&self) -> (tools: Vec<String>)
        ensures
            tools.deep_view() == display_names(
                self.fmt,
                self.check,
                self.clippy,
                self.test,
                self.build,
                self.doc,
                self.audit,
            ),
    {
        enabled_display_names(
            self.fmt,
            self.check,
            self.clippy,
            self.test,
            self.build,
            self.doc,
            self.audit,
        )
    }
}

} // verus!
