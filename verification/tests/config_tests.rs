use advrunner::RunnerError;
use advrunner::config::parse_config;
use advrunner::mode::Mode;

#[test]
fn full_config_parses() {
    let doc = "[run]\ncommand = \"r\"\n[test]\ncommand = \"t\"\n[doctest]\ncommand = \"d\"\n";
    let c = parse_config(doc).unwrap();
    assert_eq!(c.run.command, "r");
    assert_eq!(c.test.command, "t");
    assert_eq!(c.doctest.unwrap().command, "d");
}

#[test]
fn doctest_is_optional() {
    let doc = "[run]\ncommand = \"r\"\n[test]\ncommand = \"t\"\n";
    let c = parse_config(doc).unwrap();
    assert!(c.doctest.is_none());
}

#[test]
fn missing_run_command_is_an_error() {
    let doc = "[test]\ncommand = \"t\"\n";
    let e = parse_config(doc).unwrap_err();
    assert_eq!(e, RunnerError::MissingRunCommand);
    assert!(!e.describe().is_empty());
}

#[test]
fn missing_test_command_is_an_error() {
    let doc = "[run]\ncommand = \"r\"\n";
    let e = parse_config(doc).unwrap_err();
    assert_eq!(e, RunnerError::MissingTestCommand);
    assert!(!e.describe().is_empty());
}

#[test]
fn malformed_document_is_an_error_not_a_panic() {
    let e = parse_config("this is [not] = = valid toml").unwrap_err();
    assert_eq!(e, RunnerError::InvalidConfig);
    assert!(!e.describe().is_empty());
}

#[test]
fn an_empty_document_misses_the_run_command() {
    assert_eq!(parse_config("").unwrap_err(), RunnerError::MissingRunCommand);
}

#[test]
fn a_doctest_table_without_a_command_is_an_error() {
    let doc = "[run]\ncommand = \"r\"\n[test]\ncommand = \"t\"\n[doctest]\n";
    assert_eq!(
        parse_config(doc).unwrap_err(),
        RunnerError::MalformedDoctestProfile
    );
    let doc2 = "[run]\ncommand = \"r\"\n[test]\ncommand = \"t\"\n[doctest]\ncommand = 5\n";
    assert_eq!(
        parse_config(doc2).unwrap_err(),
        RunnerError::MalformedDoctestProfile
    );
}

#[test]
fn run_command_must_be_a_string() {
    let doc = "[run]\ncommand = 7\n[test]\ncommand = \"t\"\n";
    assert_eq!(parse_config(doc).unwrap_err(), RunnerError::MissingRunCommand);
}

#[test]
fn selection_follows_the_mode() {
    let doc = "[run]\ncommand = \"r\"\n[test]\ncommand = \"t\"\n[doctest]\ncommand = \"d\"\n";
    let c = parse_config(doc).unwrap();
    assert_eq!(c.select(Mode::Run).command, "r");
    assert_eq!(c.select(Mode::Test).command, "t");
    assert_eq!(c.select(Mode::Doctest).command, "d");
    let no_doctest = parse_config("[run]\ncommand = \"r\"\n[test]\ncommand = \"t\"\n").unwrap();
    assert_eq!(no_doctest.select(Mode::Doctest).command, "t");
}

#[test]
fn dotted_key_form_parses_too() {
    let doc = "run.command = \"r\"\ntest.command = \"t\"\n";
    let c = parse_config(doc).unwrap();
    assert_eq!(c.run.command, "r");
    assert_eq!(c.test.command, "t");
}
