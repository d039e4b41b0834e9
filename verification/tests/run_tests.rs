//! End-to-end invocations of real system executables: argument
//! handling, capture, stdin feeding, environment additions, exit-code
//! policy, and the error taxonomy.

use cradle::{
    run_result, CurrentDir, Env, Error, Split, Status, Stderr, Stdin, StdoutTrimmed,
    StdoutUntrimmed,
};

#[test]
fn works_for_string() {
    let command: String = "true".to_string();
    let result: Result<(), Error> = run_result(command);
    result.unwrap();
}

#[test]
fn in_run() {
    let result: Result<(), Error> = run_result(Split("echo foo"));
    result.unwrap();
}

#[test]
fn in_run_result() {
    let StdoutTrimmed(_) = run_result(Split("echo foo")).unwrap();
}

#[test]
fn success_exit_status_is_true() {
    let success: bool = run_result("true").unwrap();
    assert!(success);
}

#[test]
fn failure_exit_status_is_false() {
    let success: bool = run_result("false").unwrap();
    assert!(!success);
}

#[test]
fn invalid_utf8_to_stdout_is_allowed_when_not_captured() {
    let result: Result<(), Error> = run_result(("printf", "\\377"));
    result.unwrap();
}

#[test]
fn does_allow_invalid_utf_8_to_stderr_when_not_captured() {
    let result: Result<(), Error> = run_result(("bash", "-c", "printf '\\377' >&2"));
    result.unwrap();
}

#[test]
fn invalid_utf8_stdout() {
    let result: Result<StdoutUntrimmed, Error> = run_result(("printf", "\\377"));
    let error = result.unwrap_err();
    assert!(matches!(error, Error::InvalidUtf8ToStdout { .. }));
    assert_eq!(
        error.message(),
        "printf \\377:\n  invalid utf-8 written to stdout"
    );
}

#[test]
fn assumes_stderr_is_utf_8() {
    let result: Result<Stderr, Error> = run_result(("bash", "-c", "printf '\\377' >&2"));
    let error = result.unwrap_err();
    assert!(matches!(error, Error::InvalidUtf8ToStderr { .. }));
    assert!(error
        .message()
        .ends_with(":\n  invalid utf-8 written to stderr"));
}

#[test]
fn allows_to_retrieve_stdout() {
    let StdoutTrimmed(stdout) = run_result(Split("echo foo")).unwrap();
    assert_eq!(stdout, "foo");
}

#[test]
fn command_and_argument_as_separate_ref_str() {
    let StdoutTrimmed(stdout) = run_result(("echo", "foo")).unwrap();
    assert_eq!(stdout, "foo");
}

#[test]
fn multiple_arguments_as_ref_str() {
    let StdoutTrimmed(stdout) = run_result(("echo", "foo", "bar")).unwrap();
    assert_eq!(stdout, "foo bar");
}

#[test]
fn multiple_strings() {
    let command: String = "echo".to_string();
    let argument: String = "foo".to_string();
    let StdoutTrimmed(stdout) = run_result((command, argument)).unwrap();
    assert_eq!(stdout, "foo");
}

#[test]
fn mix_ref_str_and_string() {
    let argument: String = "foo".to_string();
    let StdoutTrimmed(stdout) = run_result(("echo", argument)).unwrap();
    assert_eq!(stdout, "foo");
}

#[test]
fn allows_to_pass_in_arguments_as_a_vec_of_ref_str() {
    let args: Vec<&str> = vec!["echo", "foo"];
    let StdoutTrimmed(stdout) = run_result(args).unwrap();
    assert_eq!(stdout, "foo");
}

#[test]
fn vector_of_vectors() {
    let StdoutTrimmed(stdout) = run_result(vec![vec!["echo"], vec!["foo", "bar"]]).unwrap();
    assert_eq!(stdout, "foo bar");
}

#[test]
fn two_tuple() {
    let StdoutTrimmed(stdout) = run_result(("echo", "foo")).unwrap();
    assert_eq!(stdout, "foo");
}

#[test]
fn three_tuples() {
    let StdoutTrimmed(stdout) = run_result(("echo", "foo", "bar")).unwrap();
    assert_eq!(stdout, "foo bar");
}

#[test]
fn nested_tuples() {
    let StdoutTrimmed(stdout) = run_result(("echo", ("foo", "bar"))).unwrap();
    assert_eq!(stdout, "foo bar");
}

#[test]
fn unit_input() {
    let StdoutTrimmed(stdout) = run_result(("echo", ())).unwrap();
    assert_eq!(stdout, "");
}

#[test]
fn non_zero_exit_codes() {
    let result: Result<(), Error> = run_result("false");
    assert_eq!(
        result.unwrap_err().message(),
        "false:\n  exited with exit code: 1"
    );
}

#[test]
fn combine_ok_with_other_outputs() {
    let StdoutTrimmed(stdout) = run_result(Split("echo foo")).unwrap();
    assert_eq!(stdout, "foo".to_string());
}

#[test]
fn combine_err_with_other_outputs() {
    let result: Result<StdoutTrimmed, Error> = run_result("false");
    assert_eq!(
        result.unwrap_err().message(),
        "false:\n  exited with exit code: 1"
    );
}

#[test]
fn includes_full_command_on_non_zero_exit_codes() {
    let result: Result<(), Error> = run_result(Split("false foo bar"));
    assert_eq!(
        result.unwrap_err().message(),
        "false foo bar:\n  exited with exit code: 1"
    );
}

#[test]
fn other_exit_codes() {
    let result: Result<(), Error> = run_result(("bash", "-c", "exit 42"));
    assert!(result
        .unwrap_err()
        .message()
        .contains("exited with exit code: 42"));
}

#[test]
fn forty_two() {
    let Status(status) = run_result(("bash", "-c", "exit 42")).unwrap();
    assert!(!status.success());
    assert_eq!(status.code(), Some(42));
}

#[test]
fn missing_executable_file_error_message() {
    let result: Result<(), Error> = run_result("does-not-exist");
    assert_eq!(
        result.unwrap_err().message(),
        "File not found error when executing 'does-not-exist'"
    );
}

#[test]
fn missing_executable_file_error_can_be_matched_against() {
    let result: Result<(), Error> = run_result("does-not-exist");
    match result {
        Err(Error::FileNotFound { executable, .. }) => {
            assert_eq!(executable, "does-not-exist");
        }
        _ => panic!("should match Error::FileNotFound"),
    }
}

#[test]
fn missing_executable_file_error_can_be_caused_by_relative_paths() {
    let result: Result<(), Error> = run_result("./does-not-exist");
    match result {
        Err(Error::FileNotFound { executable, .. }) => {
            assert_eq!(executable, "./does-not-exist");
        }
        _ => panic!("should match Error::FileNotFound"),
    }
}

#[test]
fn missing_executable_file_with_whitespace_includes_note() {
    let result: Result<(), Error> = run_result("does not exist");
    let expected = "File not found error when executing 'does not exist'\n\
                    note: Given executable name 'does not exist' contains whitespace.\n  \
                    Did you mean to run 'does', with 'not' and 'exist' as arguments?\n  \
                    Consider using Split: https://docs.rs/cradle/latest/cradle/input/struct.Split.html";
    assert_eq!(result.unwrap_err().message(), expected);
}

#[test]
fn single_argument() {
    let result: Result<(), Error> = run_result("foo bar");
    let expected = "File not found error when executing 'foo bar'\n\
                    note: Given executable name 'foo bar' contains whitespace.\n  \
                    Did you mean to run 'foo', with 'bar' as the argument?\n  \
                    Consider using Split: https://docs.rs/cradle/latest/cradle/input/struct.Split.html";
    assert_eq!(result.unwrap_err().message(), expected);
}

#[test]
fn no_executable() {
    let arguments: Vec<String> = Vec::new();
    let result: Result<(), Error> = run_result(arguments);
    let error = result.unwrap_err();
    assert!(matches!(error, Error::NoExecutableGiven));
    assert_eq!(error.message(), "no arguments given");
}

#[test]
fn capture_stderr() {
    let Stderr(stderr) = run_result(("bash", "-c", "echo foo >&2")).unwrap();
    assert_eq!(stderr, "foo\n");
}

#[test]
fn capturing_stdout_on_errors() {
    let (Status(status), StdoutTrimmed(stdout)) =
        run_result(("bash", "-c", "echo foo; exit 42")).unwrap();
    assert!(!status.success());
    assert_eq!(stdout, "foo");
}

#[test]
fn capturing_stderr_on_errors() {
    let (Stderr(stderr), Status(status)) = run_result(("bash", "-c", "echo foo >&2; exit 42"))
        .unwrap();
    assert_eq!(stderr, "foo\n");
    assert_eq!(status.code(), Some(42));
}

#[test]
fn two_tuple_1() {
    let (StdoutTrimmed(stdout), Status(status)) =
        run_result(("bash", "-c", "echo foo; exit 42")).unwrap();
    assert_eq!(stdout, "foo");
    assert_eq!(status.code(), Some(42));
}

#[test]
fn two_tuple_2() {
    let (Status(status), StdoutTrimmed(stdout)) =
        run_result(("bash", "-c", "echo foo; exit 42")).unwrap();
    assert_eq!(stdout, "foo");
    assert_eq!(status.code(), Some(42));
}

#[test]
fn result_of_tuple() {
    let (StdoutTrimmed(stdout), Status(status)) = run_result(Split("echo foo")).unwrap();
    assert_eq!(stdout, "foo");
    assert!(status.success());
}

#[test]
fn result_of_tuple_when_erroring() {
    let result: Result<(StdoutTrimmed, Status), Error> = run_result("false");
    let (StdoutTrimmed(stdout), Status(status)) = result.unwrap();
    assert_eq!(stdout, "");
    assert_eq!(status.code(), Some(1));
}

#[test]
fn failing_commands_return_oks_when_exit_status_is_captured() {
    let Status(status) = run_result("false").unwrap();
    assert!(!status.success());
}

#[test]
fn allows_to_pass_in_strings_as_stdin() {
    let StdoutTrimmed(output) = run_result(("rev", Stdin(b"foo".to_vec()))).unwrap();
    assert_eq!(output, "oof");
}

#[test]
fn allows_passing_in_u8_slices_as_stdin() {
    let StdoutUntrimmed(output) = run_result(("cat", Stdin(vec![0x66, 0x6f, 0x6f]))).unwrap();
    assert_eq!(output, "foo");
}

#[test]
fn multiple_stdin_arguments_are_all_passed_into_the_child_process() {
    let StdoutUntrimmed(output) = run_result((
        "cat",
        Stdin(b"foo".to_vec()),
        Stdin(b"bar".to_vec()),
    ))
    .unwrap();
    assert_eq!(output, "foobar");
}

#[test]
fn works_for_owned_strings() {
    let command: String = "rev".to_string();
    let StdoutTrimmed(output) = run_result((command, Stdin(b"foo".to_vec()))).unwrap();
    assert_eq!(output, "oof");
}

#[test]
fn stdin_is_closed_by_default() {
    let StdoutTrimmed(output) = run_result((
        "bash",
        "-c",
        "cat > /dev/null; echo stdin is closed",
    ))
    .unwrap();
    assert_eq!(output, "stdin is closed");
}

#[test]
fn sorts_stdin_lines() {
    let StdoutUntrimmed(output) =
        run_result(("sort", Stdin(b"foo\nbar\n".to_vec()))).unwrap();
    assert_eq!(output, "bar\nfoo\n");
}

#[test]
fn allows_to_add_variables() {
    let StdoutTrimmed(output) = run_result((
        ("bash", "-c", "echo $FOO"),
        Env("FOO".to_string(), "bar".to_string()),
    ))
    .unwrap();
    assert_eq!(output, "bar");
}

#[test]
fn works_for_multiple_variables() {
    let StdoutUntrimmed(output) = run_result((
        ("bash", "-c", "echo $FOO; echo $BAR"),
        Env("FOO".to_string(), "a".to_string()),
        Env("BAR".to_string(), "b".to_string()),
    ))
    .unwrap();
    assert_eq!(output, "a\nb\n");
}

#[test]
fn variables_are_overwritten_by_subsequent_variables_with_the_same_name() {
    let StdoutTrimmed(output) = run_result((
        ("bash", "-c", "echo $FOO"),
        Env("FOO".to_string(), "a".to_string()),
        Env("FOO".to_string(), "b".to_string()),
    ))
    .unwrap();
    assert_eq!(output, "b");
}

#[test]
fn variables_can_be_set_to_the_empty_string() {
    let StdoutTrimmed(output) = run_result((
        ("bash", "-c", "if [ -z \"${FOO+missing}\" ]; then echo unset; else echo \"set to: $FOO\"; fi"),
        Env("FOO".to_string(), "".to_string()),
    ))
    .unwrap();
    assert_eq!(output, "set to: ");
}

#[test]
fn sets_the_working_directory() {
    let StdoutTrimmed(output) = run_result((
        ("bash", "-c", "pwd"),
        CurrentDir("/usr/bin".to_string()),
    ))
    .unwrap();
    assert_eq!(output, "/usr/bin");
}

#[test]
fn splits_words_by_whitespace() {
    let StdoutTrimmed(output) = run_result(Split("echo foo")).unwrap();
    assert_eq!(output, "foo");
}

#[test]
fn skips_multiple_whitespace_characters() {
    let StdoutUntrimmed(output) = run_result(("echo", Split("foo  bar"))).unwrap();
    assert_eq!(output, "foo bar\n");
}

#[test]
fn trims_leading_whitespace() {
    let StdoutTrimmed(output) = run_result(Split(" echo foo")).unwrap();
    assert_eq!(output, "foo");
}

#[test]
fn trims_trailing_whitespace() {
    let StdoutUntrimmed(output) = run_result(("echo", Split("foo "))).unwrap();
    assert_eq!(output, "foo\n");
}

#[test]
fn splits_words() {
    let StdoutUntrimmed(output) = run_result(Split("echo foo")).unwrap();
    assert_eq!(output, "foo\n");
}

#[test]
fn works_for_later_arguments() {
    let StdoutUntrimmed(output) = run_result(("echo", Split("foo\tbar"))).unwrap();
    assert_eq!(output, "foo bar\n");
}

#[test]
fn for_first_of_multiple_arguments() {
    let StdoutUntrimmed(output) = run_result((Split("echo foo"), "bar")).unwrap();
    assert_eq!(output, "foo bar\n");
}

#[test]
fn non_literals() {
    let command = "echo foo";
    let StdoutUntrimmed(output) = run_result(Split(command)).unwrap();
    assert_eq!(output, "foo\n");
}

#[test]
fn allow_to_use_split() {
    let StdoutTrimmed(output) = run_result(Split("echo foo")).unwrap();
    assert_eq!(output, "foo");
}

#[test]
fn does_not_trim_trailing_newline() {
    let StdoutUntrimmed(output) = run_result(Split("echo foo")).unwrap();
    assert_eq!(output, "foo\n");
}

#[test]
fn does_not_trim_leading_whitespace() {
    let StdoutUntrimmed(output) = run_result(("echo", "-n", " foo")).unwrap();
    assert_eq!(output, " foo");
}

#[test]
fn does_not_remove_whitespace_within_output() {
    let StdoutTrimmed(output) = run_result(("echo", "-n", "foo bar")).unwrap();
    assert_eq!(output, "foo bar");
}

#[test]
fn does_not_modify_output_without_whitespace() {
    let StdoutTrimmed(output) = run_result(("echo", "-n", "foo")).unwrap();
    assert_eq!(output, "foo");
}

#[test]
fn elements_in_vectors_are_not_split_by_whitespace() {
    let StdoutUntrimmed(output) = run_result((
        "echo",
        "-n",
        vec!["foo bar"],
    ))
    .unwrap();
    assert_eq!(output, "foo bar");
}
