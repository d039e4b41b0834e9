//! Whole invocations the way callers combine them: running commands for
//! their effect in a working directory, observing failures as values,
//! and checking files with further invocations instead of direct I/O.

use cradle::{run_result, CurrentDir, Error, Split, Status, StdoutTrimmed};

fn in_temp_dir() -> (tempfile::TempDir, String) {
    let directory = tempfile::TempDir::new().unwrap();
    let path = directory.path().to_str().unwrap().to_string();
    (directory, path)
}

fn file_exists(directory: &str, name: &str) -> bool {
    run_result(("test", "-e", name, CurrentDir(directory.to_string()))).unwrap()
}

#[test]
fn allows_to_execute_a_command() {
    let (_directory, path) = in_temp_dir();
    let result: Result<(), Error> = run_result((Split("touch foo"), CurrentDir(path.clone())));
    result.unwrap();
    assert!(file_exists(&path, "foo"));
}

#[test]
fn runs_child_processes() {
    let (_directory, path) = in_temp_dir();
    let result: Result<(), Error> = run_result((Split("touch foo"), CurrentDir(path.clone())));
    result.unwrap();
    assert!(file_exists(&path, "foo"));
}

#[test]
fn run() {
    let (_directory, path) = in_temp_dir();
    let result: Result<(), Error> = run_result((("touch", "foo"), CurrentDir(path.clone())));
    result.unwrap();
    assert!(file_exists(&path, "foo"));
}

#[test]
fn run_result_reports_errors_as_values() {
    let ok: Result<StdoutTrimmed, Error> = run_result(("echo", "foo"));
    assert_eq!(ok.unwrap().0, "foo");
    let missing: Result<(), Error> = run_result("does-not-exist");
    match missing {
        Err(Error::FileNotFound { executable, .. }) => assert_eq!(executable, "does-not-exist"),
        _ => panic!("should match Error::FileNotFound"),
    }
}

#[test]
fn does_not_split_strings_in_vectors() {
    let (_directory, path) = in_temp_dir();
    let argument: Vec<String> = vec!["filename with spaces".to_string()];
    let result: Result<(), Error> = run_result(("touch", argument, CurrentDir(path.clone())));
    result.unwrap();
    assert!(file_exists(&path, "filename with spaces"));
}

#[test]
fn trimmed_stdout() {
    let StdoutTrimmed(which_output) = run_result(Split("which ls")).unwrap();
    assert!(
        run_result::<_, bool>(("test", "-e", which_output.clone())).unwrap(),
        "{:?} does not exist",
        which_output
    );
}

#[test]
fn trimmed_stdout_and_results() {
    let result: Result<StdoutTrimmed, Error> = run_result(Split("which ls"));
    let StdoutTrimmed(which_output) = result.unwrap();
    assert!(
        run_result::<_, bool>(("test", "-e", which_output.clone())).unwrap(),
        "{:?} does not exist",
        which_output
    );
}

#[test]
fn capturing_stdout() {
    let StdoutTrimmed(stdout) = run_result(Split("echo foo")).unwrap();
    assert_eq!(stdout, "foo");
}

#[test]
fn no_errors() {
    let result: Result<(), Error> = run_result("true");
    result.unwrap();
}

#[test]
fn works_for_different_output_types() {
    let Status(status) = run_result("false").unwrap();
    assert!(!status.success());
}

#[test]
fn result_succeeding() {
    let result: Result<(), Error> = run_result((Split("which"), "echo"));
    result.unwrap();
}

#[test]
fn result_failing() {
    let result: Result<(), Error> = run_result(Split("which does-not-exist"));
    assert_eq!(
        result.unwrap_err().message(),
        "which does-not-exist:\n  exited with exit code: 1"
    );
}

#[test]
fn includes_full_command_on_io_errors() {
    let (_directory, path) = in_temp_dir();
    let touched: Result<(), Error> =
        run_result((("touch", "without-executable-bit"), CurrentDir(path.clone())));
    touched.unwrap();
    let result: Result<(), Error> = run_result((
        Split("./without-executable-bit foo bar"),
        CurrentDir(path),
    ));
    assert_eq!(
        result.unwrap_err().message(),
        "./without-executable-bit foo bar:\n  Permission denied (os error 13)"
    );
}
