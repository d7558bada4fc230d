//! What a project's manifest says of the project: its name, and whether it
//! is a workspace and of how many members.
//!
//! The manifest is parsed by the `toml` crate. A parsed document is carried
//! as it is and modelled by what it holds; what is read out of it is read
//! through the calls below, and each of those is taken on trust.

use vstd::prelude::*;
use vstd::string::StringExecFns;
use crate::error::CargoStatusError;

verus! {

/// `toml::Value`: a parsed TOML value, with nothing of its contents
/// visible.
#[verifier::external_type_specification]
#[verifier::external_body]
pub struct ExTomlValue(toml::Value);

/// `toml::de::Error`: why a text is not a TOML document.
#[verifier::external_type_specification]
#[verifier::external_body]
pub struct ExTomlError(toml::de::Error);

/// What a TOML value holds, as far as this crate reads it: a string, an
/// array, a table, or something else.
pub enum TomlModel {
    Text(Seq<char>),
    Array(Seq<TomlModel>),
    Table(Map<Seq<char>, TomlModel>),
    Other,
}

/// What a `toml::Value` holds.
pub uninterp spec fn contents(value: toml::Value) -> TomlModel;

/// What the document holds that `toml::from_str` reads out of a text, if
/// the text is a TOML document.
pub uninterp spec fn parsed_toml(text: Seq<char>) -> Option<TomlModel>;

/// How a parse error reads.
pub uninterp spec fn parse_error_text(error: toml::de::Error) -> Seq<char>;

/// `toml::from_str`, read as a `toml::Value`: a text that is a TOML
/// document gives the value that holds the document, any other text an
/// error; the same text gives the same every time.
#[verifier::external_body]
pub(crate) fn parse_document(text: &str) -> (parsed: Result<toml::Value, toml::de::Error>)
    ensures
        match parsed {
            Ok(doc) => parsed_toml(text@) == Some(contents(doc)),
            Err(_) => parsed_toml(text@) is None,
        },
{
    toml::from_str::<toml::Value>(text)
}

/// `toml::Value::get` with a string key: the entry under that key if the
/// value is a table that has one, nothing otherwise.
#[verifier::external_body]
pub(crate) fn value_entry<'a>(value: &'a toml::Value, key: &str) -> (entry: Option<
    &'a toml::Value,
>)
    ensures
        match entry {
            Some(e) => entry_of(contents(*value), key@) == Some(contents(*e)),
            None => entry_of(contents(*value), key@) is None,
        },
{
    value.get(key)
}

/// `toml::Value::as_str`, copied into a `String`: the text of a value that
/// is a string, nothing for any other value.
#[verifier::external_body]
pub(crate) fn value_text(value: &toml::Value) -> (text: Option<String>)
    ensures
        match text {
            Some(t) => text_of(contents(*value)) == Some(t@),
            None => text_of(contents(*value)) is None,
        },
{
    value.as_str().map(|s| s.to_string())
}

/// `toml::Value::as_array`, of which only the length is taken: the number
/// of elements of a value that is an array, nothing for any other value.
#[verifier::external_body]
pub(crate) fn value_array_len(value: &toml::Value) -> (len: Option<usize>)
    ensures
        match len {
            Some(n) => array_len_of(contents(*value)) == Some(n as nat),
            None => array_len_of(contents(*value)) is None,
        },
{
    value.as_array().map(|a| a.len())
}

/// The `Display` text of a `toml::de::Error`.
#[verifier::external_body]
pub(crate) fn error_text(error: &toml::de::Error) -> (text: String)
    ensures
        text@ == parse_error_text(*error),
{
    error.to_string()
}

/// The entry under `key` of a value that is a table and has one.
pub open spec fn entry_of(value: TomlModel, key: Seq<char>) -> Option<TomlModel> {
    match value {
        TomlModel::Table(entries) => if entries.contains_key(key) {
            Some(entries[key])
        } else {
            None
        },
        _ => None,
    }
}

/// The text of a value that is a string.
pub open spec fn text_of(value: TomlModel) -> Option<Seq<char>> {
    match value {
        TomlModel::Text(text) => Some(text),
        _ => None,
    }
}

/// The number of elements of a value that is an array.
pub open spec fn array_len_of(value: TomlModel) -> Option<nat> {
    match value {
        TomlModel::Array(elements) => Some(elements.len()),
        _ => None,
    }
}

/// What is known of one project.
#[derive(Debug, Clone)]
pub struct WorkspaceInfo {
    pub path: String,
    pub name: String,
    pub is_workspace: bool,
    pub member_count: usize,
}

/// The entry `second` of the entry `first` of a document.
pub open spec fn nested_entry(doc: TomlModel, first: Seq<char>, second: Seq<char>) -> Option<
    TomlModel,
> {
    match entry_of(doc, first) {
        Some(table) => entry_of(table, second),
        None => None,
    }
}

/// The name of the package that a manifest describes: the string under
/// `package.name`, or `unknown` if there is none.
pub open spec fn package_name(doc: TomlModel) -> Seq<char> {
    match nested_entry(doc, "package"@, "name"@) {
        Some(name) => match text_of(name) {
            Some(text) => text,
            None => "unknown"@,
        },
        None => "unknown"@,
    }
}

/// The manifest describes a workspace: it has an entry `workspace`.
pub open spec fn describes_workspace(doc: TomlModel) -> bool {
    entry_of(doc, "workspace"@) is Some
}

/// The number of members that a manifest lists: the length of the array
/// under `workspace.members`, or 0 if there is none.
pub open spec fn listed_members(doc: TomlModel) -> nat {
    match nested_entry(doc, "workspace"@, "members"@) {
        Some(members) => match array_len_of(members) {
            Some(n) => n,
            None => 0,
        },
        None => 0,
    }
}

/// The table of this tool's settings in a document, under the package if
/// `section` is `package` and under the workspace if it is `workspace`:
/// the entry `cargo-status` of the entry `metadata` of that section.
pub open spec fn settings_table(doc: TomlModel, section: Seq<char>) -> Option<TomlModel> {
    match nested_entry(doc, section, "metadata"@) {
        Some(metadata) => entry_of(metadata, "cargo-status"@),
        None => None,
    }
}

/// What the parsed manifest `doc` of the project at `path` says of the
/// project.
pub fn describe_manifest(path: &str, doc: &toml::Value) -> (info: WorkspaceInfo)
    ensures
        info.path@ == path@,
        info.name@ == package_name(contents(*doc)),
        info.is_workspace == describes_workspace(contents(*doc)),
        info.member_count == listed_members(contents(*doc)),
{
    let package = value_entry(doc, "package");
    let named: Option<String> = match package {
        Some(p) => match value_entry(p, "name") {
            Some(n) => value_text(n),
            None => None,
        },
        None => None,
    };
    let name = match named {
        Some(text) => text,
        None => String::from_str("unknown"),
    };
    let workspace = value_entry(doc, "workspace");
    let member_count: usize = match workspace {
        Some(w) => match value_entry(w, "members") {
            Some(m) => match value_array_len(m) {
                Some(n) => n,
                None => 0,
            },
            None => 0,
        },
        None => 0,
    };
    WorkspaceInfo {
        path: String::from_str(path),
        name,
        is_workspace: workspace.is_some(),
        member_count,
    }
}

/// What the manifest with the text `manifest` says of the project at
/// `path`. It is an error if the text is not a TOML document.
pub fn analyze_workspace(path: &str, manifest: &str) -> (analyzed: Result<
    WorkspaceInfo,
    CargoStatusError,
>)
    ensures
        match parsed_toml(manifest@) {
            Some(doc) => analyzed matches Ok(info) && info.path@ == path@ && info.name@
                == package_name(doc) && info.is_workspace == describes_workspace(doc)
                && info.member_count == listed_members(doc),
            None => analyzed matches Err(CargoStatusError::CargoTomlParse { .. }),
        },
{
    match parse_document(manifest) {
        Ok(doc) => Ok(describe_manifest(path, &doc)),
        Err(e) => Err(CargoStatusError::CargoTomlParse { source: error_text(&e) }),
    }
}

/// The table of this tool's settings in the section `section` of a parsed
/// manifest, if there is one.
pub fn find_settings<'a>(doc: &'a toml::Value, section: &str) -> (table: Option<&'a toml::Value>)
    ensures
        match table {
            Some(t) => settings_table(contents(*doc), section@) == Some(contents(*t)),
            None => settings_table(contents(*doc), section@) is None,
        },
{
    match value_entry(doc, section) {
        Some(s) => match value_entry(s, "metadata") {
            Some(m) => value_entry(m, "cargo-status"),
            None => None,
        },
        None => None,
    }
}

} // verus!
