//! The whole dispatch as one step from plain values: parse the configuration,
//! classify the first argument, select the profile, and hand back everything
//! the executor needs.

use vstd::prelude::*;
use vstd::string::StringExecFns;

use crate::RunnerError;
use crate::config::{
    doctest_command_of, doctest_malformed, parse_config, run_command_of, test_command_of,
    toml_doc_valid,
};
use crate::mode::{Mode, detect_mode, has_segment, has_segment_with_prefix, mode_of_path};

verus! {

/// Everything the executor needs: the program to run, its arguments,
/// forwarded verbatim, and the directory to run it in.
#[derive(Debug)]
pub struct Invocation {
    pub program: String,
    pub args: Vec<String>,
    pub dir: String,
}

/// The command that the configuration document `doc` assigns to mode `m`:
/// doctest falls back to test when `doc` configures no doctest command.
pub open spec fn command_for(doc: Seq<char>, m: Mode) -> Option<Seq<char>> {
    match m {
        Mode::Run => run_command_of(doc),
        Mode::Test => test_command_of(doc),
        Mode::Doctest => if doctest_command_of(doc) is Some {
            doctest_command_of(doc)
        } else {
            test_command_of(doc)
        },
    }
}

/// Plans the dispatch: parses `config_doc`, classifies the first entry of
/// `args`, and selects that mode's command, to run in `root` with every
/// argument forwarded verbatim.
pub fn plan(config_doc: &str, root: &str, args: Vec<String>) -> (r: Result<Invocation, RunnerError>)
    ensures
        (match r {
            Ok(inv) => {
                &&& args@.len() > 0
                &&& toml_doc_valid(config_doc@)
                &&& run_command_of(config_doc@) is Some
                &&& test_command_of(config_doc@) is Some
                &&& !doctest_malformed(config_doc@)
                &&& Some(inv.program@) == command_for(config_doc@, mode_of_path(args@[0]@))
                &&& inv.args@ == args@
                &&& inv.dir@ == root@
            },
            Err(e) => {
                &&& (e == RunnerError::InvalidConfig <==> !toml_doc_valid(config_doc@))
                &&& (e == RunnerError::MissingRunCommand <==> (toml_doc_valid(config_doc@)
                    && run_command_of(config_doc@) is None))
                &&& (e == RunnerError::MissingTestCommand <==> (toml_doc_valid(config_doc@)
                    && run_command_of(config_doc@) is Some && test_command_of(
                    config_doc@,
                ) is None))
                &&& (e == RunnerError::MalformedDoctestProfile <==> (toml_doc_valid(config_doc@)
                    && run_command_of(config_doc@) is Some && test_command_of(config_doc@) is Some
                    && doctest_malformed(config_doc@)))
                &&& (e == RunnerError::NoTargetArgument <==> (toml_doc_valid(config_doc@)
                    && run_command_of(config_doc@) is Some && test_command_of(config_doc@) is Some
                    && !doctest_malformed(config_doc@) && args@.len() == 0))
            },
        }),
{
    let config = match parse_config(config_doc) {
        Ok(c) => c,
        Err(e) => {
            return Err(e);
        },
    };
    let mode = match detect_mode(&args) {
        Ok(m) => m,
        Err(e) => {
            return Err(e);
        },
    };
    let profile = config.select(mode);
    let program = profile.command.clone();
    let dir = String::from_str(root);
    Ok(Invocation { program, args, dir })
}

/// A target path with a `deps` segment is classified as a test, and the test
/// command is selected.
pub proof fn lemma_deps_selects_test(doc: Seq<char>, path: Seq<char>)
    requires
        has_segment(path, "deps"@),
    ensures
        mode_of_path(path) == Mode::Test,
        command_for(doc, mode_of_path(path)) == test_command_of(doc),
{
}

/// A target path with a segment starting `rustdoctest`, and no `deps`
/// segment, is classified as a doctest; the doctest command is selected, and
/// the test command when the configuration holds none.
pub proof fn lemma_rustdoctest_selects_doctest(doc: Seq<char>, path: Seq<char>)
    requires
        !has_segment(path, "deps"@),
        has_segment_with_prefix(path, "rustdoctest"@),
    ensures
        mode_of_path(path) == Mode::Doctest,
        doctest_command_of(doc) is Some ==> command_for(doc, mode_of_path(path))
            == doctest_command_of(doc),
        doctest_command_of(doc) is None ==> command_for(doc, mode_of_path(path))
            == test_command_of(doc),
{
}

/// A target path with neither a `deps` segment nor a `rustdoctest`-prefixed
/// segment is classified as a plain run, and the run command is selected.
pub proof fn lemma_other_selects_run(doc: Seq<char>, path: Seq<char>)
    requires
        !has_segment(path, "deps"@),
        !has_segment_with_prefix(path, "rustdoctest"@),
    ensures
        mode_of_path(path) == Mode::Run,
        command_for(doc, mode_of_path(path)) == run_command_of(doc),
{
}

} // verus!
