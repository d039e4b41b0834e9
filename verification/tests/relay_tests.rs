//! The relay engine observed from outside: what reaches the parent's
//! own stdout and stderr, that capturing suppresses relaying, that
//! large payloads cannot deadlock the invocation, and that chunks are
//! relayed as they arrive rather than batched until the child exits.

use cradle::{
    from_mib, run_result, CurrentDir, Error, LogCommand, Split, Status, Stderr, Stdin,
    StdoutTrimmed, StdoutUntrimmed,
};
use std::io::Read;

fn read_all(buffer: &mut gag::BufferRedirect) -> String {
    let mut collected = String::new();
    buffer.read_to_string(&mut collected).unwrap();
    collected
}

#[test]
fn relays_stdout_by_default() {
    let mut buffer = gag::BufferRedirect::stdout().unwrap();
    let result: Result<(), Error> = run_result(Split("echo foo"));
    result.unwrap();
    assert_eq!(read_all(&mut buffer), "foo\n");
}

#[test]
fn relays_stdout_for_non_zero_exit_codes() {
    let mut buffer = gag::BufferRedirect::stdout().unwrap();
    let Status(status) = run_result(("bash", "-c", "echo foo; exit 42")).unwrap();
    assert_eq!(status.code(), Some(42));
    assert_eq!(read_all(&mut buffer), "foo\n");
}

#[test]
fn does_not_relay_stdout_when_collecting_into_string() {
    let mut buffer = gag::BufferRedirect::stdout().unwrap();
    let StdoutTrimmed(_) = run_result(Split("echo foo")).unwrap();
    assert_eq!(read_all(&mut buffer), "");
}

#[test]
fn does_not_relay_stdout_when_collecting_into_result_of_string() {
    let mut buffer = gag::BufferRedirect::stdout().unwrap();
    let _: Result<StdoutTrimmed, Error> = run_result(Split("echo foo"));
    assert_eq!(read_all(&mut buffer), "");
}

#[test]
fn does_not_relay_stdout() {
    let mut buffer = gag::BufferRedirect::stdout().unwrap();
    let StdoutUntrimmed(output) = run_result(Split("echo foo")).unwrap();
    assert_eq!(output, "foo\n");
    assert_eq!(read_all(&mut buffer), "");
}

#[test]
fn relays_stderr_by_default() {
    let mut buffer = gag::BufferRedirect::stderr().unwrap();
    let result: Result<(), Error> = run_result(("bash", "-c", "echo foo >&2"));
    result.unwrap();
    assert_eq!(read_all(&mut buffer), "foo\n");
}

#[test]
fn relays_stderr_for_non_zero_exit_codes() {
    let mut buffer = gag::BufferRedirect::stderr().unwrap();
    let Status(status) = run_result(("bash", "-c", "echo foo >&2; exit 42")).unwrap();
    assert_eq!(status.code(), Some(42));
    assert_eq!(read_all(&mut buffer), "foo\n");
}

#[test]
fn does_not_relay_stderr_when_catpuring() {
    let mut buffer = gag::BufferRedirect::stderr().unwrap();
    let Stderr(captured) = run_result(("bash", "-c", "echo foo >&2")).unwrap();
    assert_eq!(captured, "foo\n");
    assert_eq!(read_all(&mut buffer), "");
}

#[test]
fn logs_simple_commands() {
    let mut buffer = gag::BufferRedirect::stderr().unwrap();
    let result: Result<(), Error> = run_result((LogCommand, "true"));
    result.unwrap();
    assert_eq!(read_all(&mut buffer), "+ true\n");
}

#[test]
fn logs_commands_with_arguments() {
    let mut buffer = gag::BufferRedirect::stderr().unwrap();
    let StdoutTrimmed(_) = run_result((LogCommand, Split("echo foo"))).unwrap();
    assert_eq!(read_all(&mut buffer), "+ echo foo\n");
}

#[test]
fn quotes_arguments_with_spaces() {
    let mut buffer = gag::BufferRedirect::stderr().unwrap();
    let StdoutTrimmed(_) = run_result((LogCommand, "echo", "foo bar")).unwrap();
    assert_eq!(read_all(&mut buffer), "+ echo 'foo bar'\n");
}

#[test]
fn quotes_empty_arguments() {
    let mut buffer = gag::BufferRedirect::stderr().unwrap();
    let StdoutTrimmed(_) = run_result((LogCommand, "echo", "")).unwrap();
    assert_eq!(read_all(&mut buffer), "+ echo ''\n");
}

#[test]
fn large_stdin_payloads_do_not_deadlock() {
    let payload = vec![b'x'; from_mib(1)];
    let StdoutUntrimmed(output) = run_result(("cat", Stdin(payload.clone()))).unwrap();
    assert_eq!(output.len(), payload.len());
    assert!(output.bytes().all(|byte| byte == b'x'));
}

#[test]
fn back_pressure_on_both_streams_does_not_deadlock() {
    // The child fills its stdout and stderr pipes far beyond the
    // kernel's buffer before it reads any of its stdin; only the
    // concurrent feeder and drainers let this finish.
    let payload = vec![b'y'; from_mib(1)];
    let script = "head -c 200000 /dev/zero | tr '\\0' 'a'; \
                  head -c 200000 /dev/zero | tr '\\0' 'b' >&2; \
                  cat > /dev/null";
    let (StdoutUntrimmed(stdout), Stderr(stderr)) =
        run_result((("bash", "-c", script), Stdin(payload))).unwrap();
    assert_eq!(stdout.len(), 200000);
    assert_eq!(stderr.len(), 200000);
}

#[test]
fn writing_too_many_bytes_into_a_non_reading_child_may_error() {
    let payload = vec![b'x'; from_mib(16)];
    let result: Result<(), Error> = run_result(("true", Stdin(payload)));
    let error = result.unwrap_err();
    assert!(matches!(error, Error::CommandIoError { .. }));
    assert_eq!(error.message(), "true:\n  Broken pipe (os error 32)");
}

#[test]
fn streams_stdout() {
    let directory = tempfile::TempDir::new().unwrap();
    let directory_path = directory.path().to_str().unwrap().to_string();
    let watcher_directory = directory_path.clone();
    let mut buffer = gag::BufferRedirect::stdout().unwrap();
    let runtime = tokio::runtime::Runtime::new().unwrap();
    let watcher = runtime.spawn_blocking(move || {
        let deadline = std::time::Instant::now() + std::time::Duration::from_secs(15);
        let mut seen = String::new();
        while !seen.contains("foo") {
            if std::time::Instant::now() > deadline {
                return false;
            }
            let mut chunk = String::new();
            buffer.read_to_string(&mut chunk).unwrap();
            seen.push_str(&chunk);
        }
        tempfile::Builder::new()
            .prefix("go")
            .suffix("")
            .rand_bytes(0)
            .disable_cleanup(true)
            .tempfile_in(&watcher_directory)
            .unwrap();
        true
    });
    let result: Result<(), Error> = run_result((
        ("bash", "-c", "echo foo; until [ -e go ]; do sleep 0.05; done"),
        CurrentDir(directory_path),
    ));
    result.unwrap();
    assert!(runtime.block_on(watcher).unwrap());
}

#[test]
fn streams_stderr() {
    let directory = tempfile::TempDir::new().unwrap();
    let directory_path = directory.path().to_str().unwrap().to_string();
    let watcher_directory = directory_path.clone();
    let mut buffer = gag::BufferRedirect::stderr().unwrap();
    let runtime = tokio::runtime::Runtime::new().unwrap();
    let watcher = runtime.spawn_blocking(move || {
        let deadline = std::time::Instant::now() + std::time::Duration::from_secs(15);
        let mut seen = String::new();
        while !seen.contains("foo") {
            if std::time::Instant::now() > deadline {
                return false;
            }
            let mut chunk = String::new();
            buffer.read_to_string(&mut chunk).unwrap();
            seen.push_str(&chunk);
        }
        tempfile::Builder::new()
            .prefix("go")
            .suffix("")
            .rand_bytes(0)
            .disable_cleanup(true)
            .tempfile_in(&watcher_directory)
            .unwrap();
        true
    });
    let result: Result<(), Error> = run_result((
        ("bash", "-c", "echo foo >&2; until [ -e go ]; do sleep 0.05; done"),
        CurrentDir(directory_path),
    ));
    result.unwrap();
    assert!(runtime.block_on(watcher).unwrap());
}
