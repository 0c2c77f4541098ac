//! The configuration: a TOML document assigns one shell command to each of
//! the profiles `run`, `test` and, optionally, `doctest`.

use vstd::prelude::*;

use crate::RunnerError;
use crate::mode::Mode;

verus! {

/// One named shell command.
#[derive(Debug)]
pub struct Profile {
    pub command: String,
}

/// The profile set: `run` and `test` are required, `doctest` is optional and
/// falls back to `test` when absent.
#[derive(Debug)]
pub struct Config {
    pub run: Profile,
    pub test: Profile,
    pub doctest: Option<Profile>,
}

/// Whether `doc` is a valid TOML document.
pub uninterp spec fn toml_doc_valid(doc: Seq<char>) -> bool;

/// For a valid TOML document `doc`, the state of key `key` under the
/// top-level entry `table`: `Some(Some(s))` when the string `s` sits there,
/// `Some(None)` when the entry is present but no string sits at `key` under
/// it, `None` when `doc` has no entry `table` at all.
pub uninterp spec fn toml_string_entry(doc: Seq<char>, table: Seq<char>, key: Seq<char>) -> Option<
    Option<Seq<char>>,
>;

/// What a TOML lookup found.
enum TomlEntry {
    /// The document is not valid TOML.
    InvalidDocument,
    /// The document has no such top-level entry.
    MissingTable,
    /// The entry is present, but no string sits at the key under it.
    NotAString,
    /// The string value at the key of the table.
    Present(String),
}

/// Relies on toml::from_str, toml::Value::get and toml::Value::as_str: parses
/// `doc` as TOML and hands out the state of `[table] key`, telling an invalid
/// document, an absent table, a table without a string at the key, and a
/// string value apart.
#[verifier::external_body]
fn toml_lookup(doc: &str, table: &str, key: &str) -> (r: TomlEntry)
    ensures
        (match r {
            TomlEntry::InvalidDocument => !toml_doc_valid(doc@),
            TomlEntry::MissingTable => toml_doc_valid(doc@) && toml_string_entry(
                doc@,
                table@,
                key@,
            ) is None,
            TomlEntry::NotAString => toml_doc_valid(doc@) && (toml_string_entry(
                doc@,
                table@,
                key@,
            ) matches Some(None)),
            TomlEntry::Present(s) => toml_doc_valid(doc@) && toml_string_entry(doc@, table@, key@)
                == Some(Some(s@)),
        }),
{
    let root: toml::Value = match toml::from_str(doc) {
        Ok(v) => v,
        Err(_) => return TomlEntry::InvalidDocument,
    };
    let t = match root.get(table) {
        Some(t) => t,
        None => return TomlEntry::MissingTable,
    };
    match t.get(key).and_then(|v| v.as_str()) {
        Some(s) => TomlEntry::Present(s.to_owned()),
        None => TomlEntry::NotAString,
    }
}

/// The run command `doc` configures, when a string sits at `run.command`.
pub open spec fn run_command_of(doc: Seq<char>) -> Option<Seq<char>> {
    match toml_string_entry(doc, "run"@, "command"@) {
        Some(Some(s)) => Some(s),
        _ => None,
    }
}

/// The test command `doc` configures, when a string sits at `test.command`.
pub open spec fn test_command_of(doc: Seq<char>) -> Option<Seq<char>> {
    match toml_string_entry(doc, "test"@, "command"@) {
        Some(Some(s)) => Some(s),
        _ => None,
    }
}

/// The doctest command `doc` configures, when a string sits at
/// `doctest.command`.
pub open spec fn doctest_command_of(doc: Seq<char>) -> Option<Seq<char>> {
    match toml_string_entry(doc, "doctest"@, "command"@) {
        Some(Some(s)) => Some(s),
        _ => None,
    }
}

/// A doctest entry stands in `doc`, but no string sits at `doctest.command`.
pub open spec fn doctest_malformed(doc: Seq<char>) -> bool {
    toml_string_entry(doc, "doctest"@, "command"@) matches Some(None)
}

/// Parses the configuration document. Succeeds exactly when `doc` is valid
/// TOML, string values sit at `run.command` and `test.command`, and a
/// doctest entry, where there is one, holds a string command too.
pub fn parse_config(doc: &str) -> (r: Result<Config, RunnerError>)
    ensures
        (match r {
            Ok(c) => {
                &&& toml_doc_valid(doc@)
                &&& run_command_of(doc@) == Some(c.run.command@)
                &&& test_command_of(doc@) == Some(c.test.command@)
                &&& !doctest_malformed(doc@)
                &&& (match c.doctest {
                    Some(p) => doctest_command_of(doc@) == Some(p.command@),
                    None => doctest_command_of(doc@) is None,
                })
            },
            Err(e) => {
                &&& !(toml_doc_valid(doc@) && run_command_of(doc@) is Some && test_command_of(
                    doc@,
                ) is Some && !doctest_malformed(doc@))
                &&& (e == RunnerError::InvalidConfig <==> !toml_doc_valid(doc@))
                &&& (e == RunnerError::MissingRunCommand <==> (toml_doc_valid(doc@)
                    && run_command_of(doc@) is None))
                &&& (e == RunnerError::MissingTestCommand <==> (toml_doc_valid(doc@)
                    && run_command_of(doc@) is Some && test_command_of(doc@) is None))
                &&& (e == RunnerError::MalformedDoctestProfile <==> (toml_doc_valid(doc@)
                    && run_command_of(doc@) is Some && test_command_of(doc@) is Some
                    && doctest_malformed(doc@)))
            },
        }),
{
    let run = match toml_lookup(doc, "run", "command") {
        TomlEntry::InvalidDocument => {
            return Err(RunnerError::InvalidConfig);
        },
        TomlEntry::MissingTable => {
            return Err(RunnerError::MissingRunCommand);
        },
        TomlEntry::NotAString => {
            return Err(RunnerError::MissingRunCommand);
        },
        TomlEntry::Present(cmd) => Profile { command: cmd },
    };
    let test = match toml_lookup(doc, "test", "command") {
        TomlEntry::InvalidDocument => {
            return Err(RunnerError::InvalidConfig);
        },
        TomlEntry::MissingTable => {
            return Err(RunnerError::MissingTestCommand);
        },
        TomlEntry::NotAString => {
            return Err(RunnerError::MissingTestCommand);
        },
        TomlEntry::Present(cmd) => Profile { command: cmd },
    };
    let doctest = match toml_lookup(doc, "doctest", "command") {
        TomlEntry::InvalidDocument => {
            return Err(RunnerError::InvalidConfig);
        },
        TomlEntry::MissingTable => None,
        TomlEntry::NotAString => {
            return Err(RunnerError::MalformedDoctestProfile);
        },
        TomlEntry::Present(cmd) => Some(Profile { command: cmd }),
    };
    Ok(Config { run, test, doctest })
}

/// The command that the profile set `c` assigns to mode `m`: doctest falls
/// back to test when the doctest profile is absent.
pub open spec fn selected_command(c: Config, m: Mode) -> Seq<char> {
    match m {
        Mode::Run => c.run.command@,
        Mode::Test => c.test.command@,
        Mode::Doctest => match c.doctest {
            Some(p) => p.command@,
            None => c.test.command@,
        },
    }
}

impl Config {
    /// Selects the profile for mode `m`, doctest falling back to test.
    pub fn select(&self, m: Mode) -> (p: &Profile)
        ensures
            p.command@ == selected_command(*self, m),
    {
        match m {
            Mode::Run => &self.run,
            Mode::Test => &self.test,
            Mode::Doctest => match &self.doctest {
                Some(p) => p,
                None => &self.test,
            },
        }
    }
}

} // verus!
