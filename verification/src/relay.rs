//! The concurrent stream engine: one task feeds the child's standard
//! input, and one drainer per output stream reads the child until
//! end-of-file, either buffering what it reads (capture) or passing each
//! chunk on to the parent's own stream at once (relay). The three tasks
//! run concurrently, so a child that fills one pipe while the parent is
//! busy with another cannot deadlock the invocation.

use vstd::prelude::*;

use crate::config::Config;
use crate::spawn::{
    join_drainer, join_feeder, read_chunk, spawn_drainer, spawn_feeder, write_parent_stderr,
    write_parent_stdout, DrainTask,
};

verus! {

/// Writes the whole payload to the child's standard input, then closes
/// it by dropping the pipe end, which signals end-of-file to the child.
/// Returns the description of the first write error, if any; a child
/// that stops reading early gives a broken pipe here, which the caller
/// reports without disturbing the two drainers.
pub(crate) fn feed_stdin(writer: std::io::PipeWriter, payload: Vec<u8>) -> (result: Option<String>) {
    let mut writer = writer;
    crate::spawn::write_pipe_all(&mut writer, &payload)
}

/// The error reported if a drainer ever ran out of loop rounds.
fn too_long_message() -> String {
    String::from_str("child process stream outlived the relay loop bound")
}

/// Handles one chunk that a drainer read: appended whole to the buffer
/// when the stream is captured (so the buffer holds the stream's bytes
/// in order), written at once to the parent's corresponding stream when
/// it is not. Capturing a stream suppresses relaying it: exactly one of
/// the two happens.
fn handle_chunk(
    collected: &mut Option<Vec<u8>>,
    chunk: Vec<u8>,
    to_parent_stderr: bool,
) -> (result: Option<String>)
    ensures
        *old(collected) matches Some(buffer) ==> {
            &&& *final(collected) matches Some(extended) && extended@ == buffer@ + chunk@
            &&& result is None
        },
        *old(collected) is None ==> *final(collected) is None,
{
    let mut chunk = chunk;
    match collected {
        Some(buffer) => {
            buffer.append(&mut chunk);
            None
        },
        None => {
            if to_parent_stderr {
                write_parent_stderr(&chunk)
            } else {
                write_parent_stdout(&chunk)
            }
        },
    }
}

/// Reads one stream of the child until end-of-file, chunk by chunk.
/// When capturing, every chunk is appended to an in-memory buffer; when
/// not, every chunk is written to the parent's corresponding stream as
/// soon as it arrives, so output streams rather than batches. A buffer
/// is returned exactly when `capture` was set, even when it is empty.
pub(crate) fn drain_stream(
    reader: std::io::PipeReader,
    capture: bool,
    to_parent_stderr: bool,
) -> (result: Result<Option<Vec<u8>>, String>)
    ensures
        result matches Ok(captured) ==> (captured is Some <==> capture),
{
    let mut reader = reader;
    let mut collected: Option<Vec<u8>> = if capture {
        Some(Vec::new())
    } else {
        None
    };
    // Each pass reads at most 256 bytes, so no stream a machine can
    // produce reaches this bound; it exists because the loop needs a
    // termination measure.
    let mut rounds_left: u64 = u64::MAX;
    loop
        invariant
            collected is Some <==> capture,
        decreases rounds_left,
    {
        if rounds_left == 0 {
            return Err(too_long_message());
        }
        rounds_left = rounds_left - 1;
        let chunk = match read_chunk(&mut reader) {
            Ok(chunk) => chunk,
            Err(error) => {
                return Err(error);
            },
        };
        if chunk.len() == 0 {
            break;
        }
        if let Some(error) = handle_chunk(&mut collected, chunk, to_parent_stderr) {
            return Err(error);
        }
    }
    Ok(collected)
}

/// The three concurrent tasks of one invocation, started and not yet
/// joined: the stdin feeder and the two drainers.
pub(crate) struct Waiter {
    pub(crate) stdin: tokio::task::JoinHandle<Option<String>>,
    pub(crate) stdout: DrainTask,
    pub(crate) stderr: DrainTask,
}

/// What the two drainers collected once they have been joined: one
/// buffer per captured stream.
pub(crate) struct CollectedOutput {
    pub(crate) stdout: Option<Vec<u8>>,
    pub(crate) stderr: Option<Vec<u8>>,
}

impl Waiter {
    /// Starts the three relay tasks. The caller must do this before it
    /// blocks on the child's exit: the tasks drain and feed the pipes
    /// while the child runs, which is what keeps a payload larger than
    /// the operating system's pipe buffer from deadlocking both sides.
    pub(crate) fn spawn_standard_stream_relaying(
        runtime: &tokio::runtime::Runtime,
        config: &Config,
        child_stdin: std::io::PipeWriter,
        child_stdout: std::io::PipeReader,
        child_stderr: std::io::PipeReader,
    ) -> (result: Waiter)
        ensures
            result.stdout.captures() == config@.capture_stdout,
            result.stderr.captures() == config@.capture_stderr,
    {
        let payload = config.stdin.clone();
        let stdin = spawn_feeder(runtime, child_stdin, payload);
        let stdout = spawn_drainer(runtime, child_stdout, config.capture_stdout, false);
        let stderr = spawn_drainer(runtime, child_stderr, config.capture_stderr, true);
        Waiter { stdin, stdout, stderr }
    }

    /// Joins the three tasks, feeder first, then the stdout and stderr
    /// drainers; the first failure wins. Called only after the child has
    /// exited, when the drainers are guaranteed to reach end-of-file.
    pub(crate) fn join(self, runtime: &tokio::runtime::Runtime) -> (result: Result<
        CollectedOutput,
        String,
    >)
        ensures
            result matches Ok(collected) ==> {
                &&& collected.stdout is Some <==> self.stdout.captures()
                &&& collected.stderr is Some <==> self.stderr.captures()
            },
    {
        match join_feeder(runtime, self.stdin) {
            Ok(None) => {},
            Ok(Some(error)) => {
                return Err(error);
            },
            Err(error) => {
                return Err(error);
            },
        }
        let stdout = match join_drainer(runtime, self.stdout) {
            Ok(Ok(captured)) => captured,
            Ok(Err(error)) => {
                return Err(error);
            },
            Err(error) => {
                return Err(error);
            },
        };
        let stderr = match join_drainer(runtime, self.stderr) {
            Ok(Ok(captured)) => captured,
            Ok(Err(error)) => {
                return Err(error);
            },
            Err(error) => {
                return Err(error);
            },
        };
        Ok(CollectedOutput { stdout, stderr })
    }
}

} // verus!
