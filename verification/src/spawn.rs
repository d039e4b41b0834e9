//! The operating-system plumbing of one invocation, taken on trust: the
//! tokio runtime that carries the concurrent relay tasks, the child
//! process itself, and the anonymous pipes wired to its standard streams.
//!
//! Everything here is a thin declaration or wrapper around `tokio` and
//! `std::io`; the relay logic that runs over these wrappers is verified
//! in [`crate::relay`].

use vstd::prelude::*;

use crate::exit_status::ExitStatus;

verus! {

#[verifier::external_type_specification]
#[verifier::external_body]
pub struct ExRuntime(tokio::runtime::Runtime);

#[verifier::external_type_specification]
#[verifier::external_body]
pub struct ExCommand(tokio::process::Command);

#[verifier::external_type_specification]
#[verifier::external_body]
pub struct ExChild(tokio::process::Child);

#[verifier::external_type_specification]
#[verifier::external_body]
#[verifier::reject_recursive_types(T)]
pub struct ExJoinHandle<T>(tokio::task::JoinHandle<T>);

#[verifier::external_type_specification]
#[verifier::external_body]
pub struct ExJoinError(tokio::task::JoinError);

#[verifier::external_type_specification]
#[verifier::external_body]
pub struct ExPipeReader(std::io::PipeReader);

#[verifier::external_type_specification]
#[verifier::external_body]
pub struct ExPipeWriter(std::io::PipeWriter);

/// Why spawning the child process failed: whether the operating system
/// reported that the executable could not be found, and its description
/// of the failure.
pub struct SpawnError {
    pub not_found: bool,
    pub message: String,
}

/// Relies on `tokio::runtime::Runtime::new`: builds a multi-threaded
/// runtime whose blocking threads carry the relay tasks.
#[verifier::external_body]
pub(crate) fn new_runtime() -> (result: Result<tokio::runtime::Runtime, String>) {
    match tokio::runtime::Runtime::new() {
        Ok(runtime) => Ok(runtime),
        Err(error) => Err(error.to_string()),
    }
}

/// Relies on `std::io::pipe`: returns the two ends of a fresh anonymous
/// pipe; bytes written to the writer come out of the reader in order, and
/// dropping the last writer gives the reader end-of-file.
#[verifier::external_body]
pub(crate) fn new_pipe() -> (result: Result<(std::io::PipeReader, std::io::PipeWriter), String>) {
    match std::io::pipe() {
        Ok((reader, writer)) => Ok((reader, writer)),
        Err(error) => Err(error.to_string()),
    }
}

/// Relies on `tokio::process::Command::new`: a command that will run the
/// given program, so far without arguments.
#[verifier::external_body]
pub(crate) fn command_new(program: &String) -> (result: tokio::process::Command) {
    tokio::process::Command::new(program)
}

/// Relies on `tokio::process::Command::arg`: appends one argument.
#[verifier::external_body]
pub(crate) fn command_arg(command: &mut tokio::process::Command, argument: &String) {
    command.arg(argument);
}

/// Relies on `tokio::process::Command::env`: sets one environment
/// variable for the child, over the inherited environment; a later call
/// with the same key overwrites an earlier one.
#[verifier::external_body]
pub(crate) fn command_env(command: &mut tokio::process::Command, key: &String, value: &String) {
    command.env(key, value);
}

/// Relies on `tokio::process::Command::current_dir`: sets the child's
/// working directory.
#[verifier::external_body]
pub(crate) fn command_current_dir(command: &mut tokio::process::Command, directory: &String) {
    command.current_dir(directory);
}

/// Relies on `tokio::process::Command::stdin`: the child will read its
/// standard input from the given pipe end.
#[verifier::external_body]
pub(crate) fn command_stdin(command: &mut tokio::process::Command, reader: std::io::PipeReader) {
    command.stdin(reader);
}

/// Relies on `tokio::process::Command::stdout`: the child will write its
/// standard output to the given pipe end.
#[verifier::external_body]
pub(crate) fn command_stdout(command: &mut tokio::process::Command, writer: std::io::PipeWriter) {
    command.stdout(writer);
}

/// Relies on `tokio::process::Command::stderr`: the child will write its
/// standard error to the given pipe end.
#[verifier::external_body]
pub(crate) fn command_stderr(command: &mut tokio::process::Command, writer: std::io::PipeWriter) {
    command.stderr(writer);
}

/// Relies on `tokio::process::Command::spawn` and `Runtime::enter`:
/// starts the child process. Consumes the command, so that the parent's
/// copies of the pipe ends handed to the child are closed here; the
/// drainers would otherwise never see end-of-file. A `NotFound` error
/// kind is reported as such, anything else only by its description.
#[verifier::external_body]
pub(crate) fn spawn_command(
    runtime: &tokio::runtime::Runtime,
    command: tokio::process::Command,
) -> (result: Result<tokio::process::Child, SpawnError>) {
    let mut command = command;
    let guard = runtime.enter();
    let spawned = command.spawn();
    drop(guard);
    match spawned {
        Ok(child) => Ok(child),
        Err(error) => Err(SpawnError {
            not_found: error.kind() == std::io::ErrorKind::NotFound,
            message: error.to_string(),
        }),
    }
}

/// Relies on `tokio::process::Child::wait` and `Runtime::block_on`:
/// blocks until the child exits and reduces its `ExitStatus` to plain
/// values (`success`, `code`, and its display for messages). Like every
/// use of `block_on`, this must run outside any async execution
/// context: tokio panics when `block_on` is called from within one.
#[verifier::external_body]
pub(crate) fn child_wait(
    runtime: &tokio::runtime::Runtime,
    child: &mut tokio::process::Child,
) -> (result: Result<ExitStatus, String>) {
    match runtime.block_on(child.wait()) {
        Ok(status) => Ok(ExitStatus {
            success: status.success(),
            code: status.code(),
            description: status.to_string(),
        }),
        Err(error) => Err(error.to_string()),
    }
}

/// Relies on `std::io::Read::read` on a pipe reader: returns the next
/// chunk of at most 256 bytes, empty exactly at end-of-file.
#[verifier::external_body]
pub(crate) fn read_chunk(reader: &mut std::io::PipeReader) -> (result: Result<Vec<u8>, String>)
    ensures
        result matches Ok(chunk) ==> chunk@.len() <= 256,
{
    let mut buffer = [0u8; 256];
    match std::io::Read::read(reader, &mut buffer) {
        Ok(length) => {
            let mut chunk = buffer.to_vec();
            chunk.truncate(length);
            Ok(chunk)
        },
        Err(error) => Err(error.to_string()),
    }
}

/// Relies on `std::io::Write::write_all` on a pipe writer: writes the
/// whole buffer to the child's standard input, blocking while the pipe
/// is full.
#[verifier::external_body]
pub(crate) fn write_pipe_all(writer: &mut std::io::PipeWriter, bytes: &Vec<u8>) -> (result: Option<
    String,
>) {
    match std::io::Write::write_all(writer, bytes.as_slice()) {
        Ok(()) => None,
        Err(error) => Some(error.to_string()),
    }
}

/// Relies on `std::io::Write::write_all` and `flush` on the parent's
/// standard output: relays one chunk and pushes it out at once.
#[verifier::external_body]
pub(crate) fn write_parent_stdout(bytes: &Vec<u8>) -> (result: Option<String>) {
    let mut sink = std::io::stdout();
    match std::io::Write::write_all(&mut sink, bytes.as_slice()) {
        Ok(()) => match std::io::Write::flush(&mut sink) {
            Ok(()) => None,
            Err(error) => Some(error.to_string()),
        },
        Err(error) => Some(error.to_string()),
    }
}

/// Relies on `std::io::Write::write_all` and `flush` on the parent's
/// standard error: relays one chunk and pushes it out at once.
#[verifier::external_body]
pub(crate) fn write_parent_stderr(bytes: &Vec<u8>) -> (result: Option<String>) {
    let mut sink = std::io::stderr();
    match std::io::Write::write_all(&mut sink, bytes.as_slice()) {
        Ok(()) => match std::io::Write::flush(&mut sink) {
            Ok(()) => None,
            Err(error) => Some(error.to_string()),
        },
        Err(error) => Some(error.to_string()),
    }
}

/// Relies on `tokio::runtime::Runtime::spawn_blocking`: starts
/// [`crate::relay::feed_stdin`] on a blocking thread of the runtime, so
/// that feeding the child's standard input runs concurrently with the
/// two drainers and with waiting for the exit.
#[verifier::external_body]
pub(crate) fn spawn_feeder(
    runtime: &tokio::runtime::Runtime,
    writer: std::io::PipeWriter,
    payload: Vec<u8>,
) -> (result: tokio::task::JoinHandle<Option<String>>) {
    runtime.spawn_blocking(move || crate::relay::feed_stdin(writer, payload))
}

/// A running drainer task: the join handle, paired with the capture
/// flag its closure was started with. The fields are private to this
/// module and only [`spawn_drainer`] builds a value, so the flag always
/// matches the task behind the handle; [`join_drainer`]'s contract
/// rests on that pairing.
pub(crate) struct DrainTask {
    handle: tokio::task::JoinHandle<Result<Option<Vec<u8>>, String>>,
    capture: bool,
}

impl DrainTask {
    /// Whether the drainer behind the handle was started capturing.
    pub(crate) closed spec fn captures(&self) -> bool {
        self.capture
    }
}

/// Relies on `tokio::runtime::Runtime::spawn_blocking`: starts
/// [`crate::relay::drain_stream`] on a blocking thread of the runtime,
/// and records beside the handle the capture flag the closure received.
#[verifier::external_body]
pub(crate) fn spawn_drainer(
    runtime: &tokio::runtime::Runtime,
    reader: std::io::PipeReader,
    capture: bool,
    to_parent_stderr: bool,
) -> (result: DrainTask)
    ensures
        result.captures() == capture,
{
    DrainTask {
        handle: runtime.spawn_blocking(move || crate::relay::drain_stream(
            reader,
            capture,
            to_parent_stderr,
        )),
        capture,
    }
}

/// Relies on `Runtime::block_on` on a `JoinHandle`, which yields the
/// value the task returned, here that of [`crate::relay::drain_stream`]
/// started with the task's recorded capture flag: by that function's
/// contract, a buffer is returned exactly when the task was capturing.
/// A task that panicked is reported as the outer error. Must run
/// outside any async execution context: `block_on` panics within one.
#[verifier::external_body]
pub(crate) fn join_drainer(
    runtime: &tokio::runtime::Runtime,
    task: DrainTask,
) -> (result: Result<Result<Option<Vec<u8>>, String>, String>)
    ensures
        result matches Ok(Ok(captured)) ==> (captured is Some <==> task.captures()),
{
    match runtime.block_on(task.handle) {
        Ok(outcome) => Ok(outcome),
        Err(error) => Err(error.to_string()),
    }
}

/// Relies on `Runtime::block_on` on a `JoinHandle`, which yields the
/// value the task returned, here that of [`crate::relay::feed_stdin`].
/// A task that panicked is reported as the outer error. Must run
/// outside any async execution context: `block_on` panics within one.
#[verifier::external_body]
pub(crate) fn join_feeder(
    runtime: &tokio::runtime::Runtime,
    handle: tokio::task::JoinHandle<Option<String>>,
) -> (result: Result<Option<String>, String>) {
    match runtime.block_on(handle) {
        Ok(outcome) => Ok(outcome),
        Err(error) => Err(error.to_string()),
    }
}

} // verus!
