//! Saved sets of flags, kept by name.
//!
//! The profiles are read from a file and written back by the caller; here
//! they are a table from the profile's name to its flags.

use vstd::prelude::*;
use vstd::string::StringExecFns;
use crate::config::cli::{enabled_tool_names, tool_names, StatusArgs};
use crate::error::{join3, join4, CargoStatusError};
use crate::table::Table;
use crate::text::{join_texts, joined};

verus! {

/// The flags that a profile keeps.
#[derive(Debug, Clone, Copy)]
pub struct Profile {
    pub fmt: bool,
    pub check: bool,
    pub clippy: bool,
    pub test: bool,
    pub build: bool,
    pub doc: bool,
    pub audit: bool,
    pub sequential: bool,
}

impl Default for Profile {
    fn default() -> (profile: Self)
        ensures
            !profile.fmt && !profile.check && !profile.clippy && !profile.test && !profile.build
                && !profile.doc && !profile.audit && !profile.sequential,
    {
        Profile {
            fmt: false,
            check: false,
            clippy: false,
            test: false,
            build: false,
            doc: false,
            audit: false,
            sequential: false,
        }
    }
}

/// The flags of `args` that a profile keeps.
pub open spec fn profile_of(args: StatusArgs) -> Profile {
    Profile {
        fmt: args.fmt,
        check: args.check,
        clippy: args.clippy,
        test: args.test,
        build: args.build,
        doc: args.doc,
        audit: args.audit,
        sequential: args.sequential,
    }
}

/// `args` with the flags of `profile` in place of its own.
pub open spec fn with_profile(args: StatusArgs, profile: Profile) -> StatusArgs {
    StatusArgs {
        fmt: profile.fmt,
        check: profile.check,
        clippy: profile.clippy,
        test: profile.test,
        build: profile.build,
        doc: profile.doc,
        audit: profile.audit,
        sequential: profile.sequential,
        ..args
    }
}

impl Profile {
    /// The flags of `args`, as a profile.
    pub fn from_args(args: &StatusArgs) -> (profile: Self)
        ensures
            profile == profile_of(*args),
    {
        Profile {
            fmt: args.fmt,
            check: args.check,
            clippy: args.clippy,
            test: args.test,
            build: args.build,
            doc: args.doc,
            audit: args.audit,
            sequential: args.sequential,
        }
    }

    /// Puts the profile's flags in place of those of `args`; what a profile
    /// does not keep stays.
    pub fn apply_to_args(&self, args: &mut StatusArgs)
        ensures
            *final(args) == with_profile(*old(args), *self),
    {
        args.fmt = self.fmt;
        args.check = self.check;
        args.clippy = self.clippy;
        args.test = self.test;
        args.build = self.build;
        args.doc = self.doc;
        args.audit = self.audit;
        args.sequential = self.sequential;
    }

    /// The tools that the profile asks for, as the command line writes
    /// them.
    pub fn get_enabled_tools(&self) -> (tools: Vec<String>)
        ensures
            tools.deep_view() == tool_names(
                self.fmt,
                self.check,
                self.clippy,
                self.test,
                self.build,
                self.doc,
                self.audit,
            ),
    {
        enabled_tool_names(
            self.fmt,
            self.check,
            self.clippy,
            self.test,
            self.build,
            self.doc,
            self.audit,
        )
    }
}

/// The name of the profile that is meant where none is named.
pub fn get_default_profile_name() -> (name: &'static str)
    ensures
        name@ == "default"@,
{
    "default"
}

/// What is said after a profile was saved.
pub open spec fn saved_line(name: Seq<char>) -> Seq<char> {
    "Profile '"@ + name + "' saved successfully."@
}

/// Keeps the flags of `args` under `profile_name`, in place of a profile of
/// that name, and returns what is to be said of it.
pub fn save_profile(profiles: &mut Table<Profile>, args: &StatusArgs, profile_name: &str) -> (said:
    String)
    requires
        old(profiles).wf(),
    ensures
        final(profiles).wf(),
        final(profiles)@ == old(profiles)@.insert(profile_name@, profile_of(*args)),
        said@ == saved_line(profile_name@),
{
    profiles.set(String::from_str(profile_name), Profile::from_args(args));
    join3("Profile '", profile_name, "' saved successfully.")
}

/// The profile saved under `profile_name`. It is an error to ask while no
/// profile is saved at all, and another to ask for a name that is not
/// among those saved.
pub fn load_profile(profiles: &Table<Profile>, profile_name: &str) -> (loaded: Result<
    Profile,
    CargoStatusError,
>)
    requires
        profiles.wf(),
    ensures
        match loaded {
            Ok(profile) => profiles@.contains_key(profile_name@) && profile
                == profiles@[profile_name@],
            Err(CargoStatusError::Other(msg)) => profiles.spec_len() == 0 && msg@
                == "No profiles found. Save a profile first with --save-profile"@,
            Err(CargoStatusError::ProfileNotFound { name }) => profiles.spec_len() > 0
                && !profiles@.contains_key(profile_name@) && name@ == profile_name@,
            Err(_) => false,
        },
{
    proof {
        profiles.lemma_positions();
    }
    if profiles.len() == 0 {
        return Err(
            CargoStatusError::Other(
                String::from_str("No profiles found. Save a profile first with --save-profile"),
            ),
        );
    }
    match profiles.get(profile_name) {
        Some(profile) => Ok(*profile),
        None => Err(CargoStatusError::ProfileNotFound { name: String::from_str(profile_name) }),
    }
}

/// The line that lists one profile: its name and the tools it asks for.
pub open spec fn profile_line(name: Seq<char>, profile: Profile) -> Seq<char> {
    "  "@ + name + ": "@ + joined(
        tool_names(
            profile.fmt,
            profile.check,
            profile.clippy,
            profile.test,
            profile.build,
            profile.doc,
            profile.audit,
        ),
        ", "@,
    )
}

/// The lines that list the saved profiles: a heading and one line for each
/// profile, or a single line saying that there are none.
pub fn list_profiles(profiles: &Table<Profile>) -> (lines: Vec<String>)
    requires
        profiles.wf(),
    ensures
        profiles.spec_len() == 0 ==> lines.deep_view() == seq!["No profiles found."@],
        profiles.spec_len() > 0 ==> {
            &&& lines.len() == profiles.spec_len() + 1
            &&& lines[0]@ == "Available profiles:"@
            &&& forall|i: int|
                0 <= i < profiles.spec_len() ==> (#[trigger] lines[i + 1])@ == profile_line(
                    profiles.spec_key(i),
                    profiles.spec_value(i),
                )
        },
{
    let mut lines: Vec<String> = Vec::new();
    if profiles.len() == 0 {
        lines.push(String::from_str("No profiles found."));
        return lines;
    }
    lines.push(String::from_str("Available profiles:"));
    let mut i: usize = 0;
    while i < profiles.len()
        invariant
            profiles.wf(),
            i <= profiles.spec_len(),
            lines.len() == i + 1,
            lines[0]@ == "Available profiles:"@,
            forall|j: int|
                0 <= j < i ==> (#[trigger] lines[j + 1])@ == profile_line(
                    profiles.spec_key(j),
                    profiles.spec_value(j),
                ),
        decreases profiles.spec_len() - i,
    {
        let tools = profiles.value_at(i).get_enabled_tools();
        let listed = join_texts(tools.as_slice(), ", ");
        let line = join4("  ", profiles.key_at(i).as_str(), ": ", listed.as_str());
        lines.push(line);
        i += 1;
    }
    lines
}

} // verus!
