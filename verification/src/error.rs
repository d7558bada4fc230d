//! What can go wrong, and how each failure reads.
//!
//! The failures of the outside world (a file that cannot be read, a
//! document that cannot be parsed) are held as the text they gave.

use vstd::prelude::*;
use vstd::string::StringExecFns;
use crate::text::{decimal_digits, push_decimal};

verus! {

/// A failure of the tool.
#[derive(Debug)]
pub enum CargoStatusError {
    Config(String),
    ProfileNotFound { name: String },
    ProfileLoadError { path: String, source: String },
    ProfileSaveError { path: String, source: String },
    ProfileParseError { source: String },
    CommandExecution { command: String, reason: String },
    ToolNotInstalled { tool: String, install_cmd: String },
    CargoTomlRead { source: String },
    CargoTomlParse { source: String },
    NoConfigDir,
    Io { context: String, source: String },
    WorkspaceScan(String),
    Other(String),
}

/// How a failure reads.
pub open spec fn error_text(e: CargoStatusError) -> Seq<char> {
    match e {
        CargoStatusError::Config(msg) => "Configuration error: "@ + msg@,
        CargoStatusError::ProfileNotFound { name } => "Profile '"@ + name@ + "' not found"@,
        CargoStatusError::ProfileLoadError { path, source } => "Failed to load profile from "@
            + path@ + ": "@ + source@,
        CargoStatusError::ProfileSaveError { path, source } => "Failed to save profile to "@
            + path@ + ": "@ + source@,
        CargoStatusError::ProfileParseError { source } => "Failed to parse profile JSON: "@
            + source@,
        CargoStatusError::CommandExecution { command, reason } => "Command execution failed for '"@
            + command@ + "': "@ + reason@,
        CargoStatusError::ToolNotInstalled { tool, install_cmd } => "Tool '"@ + tool@
            + "' is not installed. Install with: "@ + install_cmd@,
        CargoStatusError::CargoTomlRead { source } => "Failed to read Cargo.toml: "@ + source@,
        CargoStatusError::CargoTomlParse { source } => "Failed to parse Cargo.toml: "@ + source@,
        CargoStatusError::NoConfigDir => "No configuration directory found"@,
        CargoStatusError::Io { context, source } => "IO error: "@ + context@,
        CargoStatusError::WorkspaceScan(msg) => "Multiple workspace scanning error: "@ + msg@,
        CargoStatusError::Other(msg) => msg@,
    }
}

/// The texts one after the other.
pub fn join2(a: &str, b: &str) -> (s: String)
    ensures
        s@ == a@ + b@,
{
    let mut s = String::from_str(a);
    s.append(b);
    s
}

/// The texts one after the other.
pub fn join3(a: &str, b: &str, c: &str) -> (s: String)
    ensures
        s@ == a@ + b@ + c@,
{
    let mut s = String::from_str(a);
    s.append(b);
    s.append(c);
    s
}

/// The texts one after the other.
pub fn join4(a: &str, b: &str, c: &str, d: &str) -> (s: String)
    ensures
        s@ == a@ + b@ + c@ + d@,
{
    let mut s = String::from_str(a);
    s.append(b);
    s.append(c);
    s.append(d);
    s
}

impl CargoStatusError {
    /// A failure of the configuration.
    pub fn config(msg: &str) -> (e: Self)
        ensures
            e matches CargoStatusError::Config(m) && m@ == msg@,
    {
        CargoStatusError::Config(String::from_str(msg))
    }

    /// A command that could not be carried out.
    pub fn command_execution(command: &str, reason: &str) -> (e: Self)
        ensures
            e matches CargoStatusError::CommandExecution { command: c, reason: r } && c@
                == command@ && r@ == reason@,
    {
        CargoStatusError::CommandExecution {
            command: String::from_str(command),
            reason: String::from_str(reason),
        }
    }

    /// A tool that is not installed, with the command that installs it.
    pub fn tool_not_installed(tool: &str, install_cmd: &str) -> (e: Self)
        ensures
            e matches CargoStatusError::ToolNotInstalled { tool: t, install_cmd: i } && t@
                == tool@ && i@ == install_cmd@,
    {
        CargoStatusError::ToolNotInstalled {
            tool: String::from_str(tool),
            install_cmd: String::from_str(install_cmd),
        }
    }

    /// A failure that is only a message.
    pub fn other(msg: &str) -> (e: Self)
        ensures
            e matches CargoStatusError::Other(m) && m@ == msg@,
    {
        CargoStatusError::Other(String::from_str(msg))
    }

    /// How the failure reads.
    pub fn message(&self) -> (text: String)
        ensures
            text@ == error_text(*self),
    {
        match self {
            CargoStatusError::Config(msg) => join2("Configuration error: ", msg.as_str()),
            CargoStatusError::ProfileNotFound { name } => join3(
                "Profile '",
                name.as_str(),
                "' not found",
            ),
            CargoStatusError::ProfileLoadError { path, source } => join4(
                "Failed to load profile from ",
                path.as_str(),
                ": ",
                source.as_str(),
            ),
            CargoStatusError::ProfileSaveError { path, source } => join4(
                "Failed to save profile to ",
                path.as_str(),
                ": ",
                source.as_str(),
            ),
            CargoStatusError::ProfileParseError { source } => join2(
                "Failed to parse profile JSON: ",
                source.as_str(),
            ),
            CargoStatusError::CommandExecution { command, reason } => join4(
                "Command execution failed for '",
                command.as_str(),
                "': ",
                reason.as_str(),
            ),
            CargoStatusError::ToolNotInstalled { tool, install_cmd } => join4(
                "Tool '",
                tool.as_str(),
                "' is not installed. Install with: ",
                install_cmd.as_str(),
            ),
            CargoStatusError::CargoTomlRead { source } => join2(
                "Failed to read Cargo.toml: ",
                source.as_str(),
            ),
            CargoStatusError::CargoTomlParse { source } => join2(
                "Failed to parse Cargo.toml: ",
                source.as_str(),
            ),
            CargoStatusError::NoConfigDir => String::from_str("No configuration directory found"),
            CargoStatusError::Io { context, source } => join2("IO error: ", context.as_str()),
            CargoStatusError::WorkspaceScan(msg) => join2(
                "Multiple workspace scanning error: ",
                msg.as_str(),
            ),
            CargoStatusError::Other(msg) => msg.clone(),
        }
    }
}

/// A command that ended in failure.
#[derive(Debug)]
pub struct CommandError {
    pub command: String,
    pub exit_code: Option<i32>,
    pub stderr: String,
}

/// How an exit code reads: `None`, or `Some(..)` round the number.
pub open spec fn exit_code_text(code: Option<i32>) -> Seq<char> {
    match code {
        None => "None"@,
        Some(n) => if n < 0 {
            "Some(-"@ + decimal_digits((-n) as nat) + ")"@
        } else {
            "Some("@ + decimal_digits(n as nat) + ")"@
        },
    }
}

impl CommandError {
    /// How the failure reads.
    pub open spec fn text(&self) -> Seq<char> {
        "Command '"@ + self.command@ + "' failed with exit code "@ + exit_code_text(
            self.exit_code,
        )
    }

    /// How the failure reads.
    pub fn message(&self) -> (text: String)
        ensures
            text@ == self.text(),
    {
        let mut out = join3("Command '", self.command.as_str(), "' failed with exit code ");
        match self.exit_code {
            None => {
                out.append("None");
            },
            Some(n) => {
                if n < 0 {
                    out.append("Some(-");
                    let magnitude: i64 = -(n as i64);
                    push_decimal(&mut out, magnitude as usize);
                } else {
                    out.append("Some(");
                    push_decimal(&mut out, n as usize);
                }
                out.append(")");
            },
        }
        out
    }
}

} // verus!
