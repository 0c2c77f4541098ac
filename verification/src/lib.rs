//! A small command dispatcher for a build/test toolchain: a configuration
//! document assigns a shell command to each of three profiles (`run`, `test`,
//! `doctest`), the first invocation argument's path classifies the invocation,
//! and the matching command is selected with every argument forwarded
//! verbatim, to be run in a located workspace root directory.

use vstd::prelude::*;

pub mod config;
pub mod mode;
pub mod plan;
pub mod workspace;

verus! {

/// Why planning an invocation failed.
#[derive(Clone, Copy, Debug, PartialEq, Eq, Structural)]
pub enum RunnerError {
    /// The configuration document is not valid TOML.
    InvalidConfig,
    /// No string sits at `run.command` in the configuration.
    MissingRunCommand,
    /// No string sits at `test.command` in the configuration.
    MissingTestCommand,
    /// A doctest table is in the configuration, but no string sits at
    /// `doctest.command`.
    MalformedDoctestProfile,
    /// No argument names the target artifact.
    NoTargetArgument,
}

impl RunnerError {
    /// A short description of the failure, for error reports.
    pub fn describe(&self) -> (m: &'static str)
        ensures
            (match *self {
                RunnerError::InvalidConfig => m@ == "the advrunner config is not valid TOML"@,
                RunnerError::MissingRunCommand => m@
                    == "no run.command string in the advrunner config"@,
                RunnerError::MissingTestCommand => m@
                    == "no test.command string in the advrunner config"@,
                RunnerError::MalformedDoctestProfile => m@
                    == "the advrunner config has a doctest table without a command string"@,
                RunnerError::NoTargetArgument => m@ == "no file passed as an argument"@,
            }),
    {
        match *self {
            RunnerError::InvalidConfig => "the advrunner config is not valid TOML",
            RunnerError::MissingRunCommand => "no run.command string in the advrunner config",
            RunnerError::MissingTestCommand => "no test.command string in the advrunner config",
            RunnerError::MalformedDoctestProfile => "the advrunner config has a doctest table without a command string",
            RunnerError::NoTargetArgument => "no file passed as an argument",
        }
    }
}

} // verus!
