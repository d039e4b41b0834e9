//! Launching the child and assembling what it produced: the captured
//! buffers and the exit status, with the non-zero-exit policy applied.

use vstd::prelude::*;
use vstd::string::{StrSliceExecFns, StringExecFns};

use crate::config::{full_command_spec, Config, ConfigView};
use crate::error::{command_io_message, Error, ErrorView};
use crate::exit_status::{ExitStatus, ExitStatusView};
use crate::output::Output;
use crate::relay::Waiter;
use crate::spawn::{
    child_wait, command_arg, command_current_dir, command_env, command_new, command_stderr,
    command_stdin, command_stdout, new_pipe, new_runtime, spawn_command, write_parent_stderr,
};

verus! {

/// The ghost-level image of a [`ChildOutput`].
pub ghost struct ChildOutputView {
    pub stdout: Option<Seq<u8>>,
    pub stderr: Option<Seq<u8>>,
    pub exit_status: ExitStatusView,
}

/// Everything one finished invocation produced: the stdout and stderr
/// buffers for the streams that were captured (an empty captured stream
/// is an empty buffer, not an absent one), and the exit status.
#[derive(Debug)]
pub struct ChildOutput {
    pub stdout: Option<Vec<u8>>,
    pub stderr: Option<Vec<u8>>,
    pub exit_status: ExitStatus,
}

impl View for ChildOutput {
    type V = ChildOutputView;

    open spec fn view(&self) -> ChildOutputView {
        ChildOutputView {
            stdout: match self.stdout {
                Some(bytes) => Some(bytes@),
                None => None,
            },
            stderr: match self.stderr {
                Some(bytes) => Some(bytes@),
                None => None,
            },
            exit_status: self.exit_status@,
        }
    }
}

/// What is known of every successful run, whatever the child did: a
/// buffer is present exactly for the captured streams, and under the
/// non-zero-exit policy the exit status reports success.
pub open spec fn run_outcome_consistent(config: ConfigView, output: ChildOutputView) -> bool {
    &&& output.stdout is Some <==> config.capture_stdout
    &&& output.stderr is Some <==> config.capture_stderr
    &&& config.error_on_non_zero_exit_code ==> output.exit_status.success
}

/// What is known of every error the launch-and-relay step can report.
/// The conditions that depend only on the configuration are exact; the
/// ones that depend on the operating system carry its description.
pub open spec fn launch_error(config: ConfigView, error: ErrorView) -> bool {
    match error {
        ErrorView::NoExecutableGiven => config.arguments.len() == 0,
        ErrorView::FileNotFound { executable, cause } => config.arguments.len() > 0 && executable
            == config.arguments[0],
        ErrorView::CommandIoError { message, cause } => message == command_io_message(
            full_command_spec(config.arguments),
            cause,
        ),
        ErrorView::NonZeroExitCode { full_command, exit_status } => {
            &&& config.error_on_non_zero_exit_code
            &&& !exit_status.success
            &&& full_command == full_command_spec(config.arguments)
        },
        ErrorView::InvalidUtf8ToStdout { full_command, cause } => false,
        ErrorView::InvalidUtf8ToStderr { full_command, cause } => false,
        ErrorView::Internal { message, full_command } => false,
    }
}

impl ChildOutput {
    /// Applies the non-zero-exit policy: an unsuccessful exit is an
    /// error exactly when the policy is enabled.
    pub fn check_exit_status(config: &Config, exit_status: &ExitStatus) -> (result: Result<
        (),
        Error,
    >)
        ensures
            result is Ok <==> (!config@.error_on_non_zero_exit_code || exit_status@.success),
            result matches Err(error) ==> error@ == (ErrorView::NonZeroExitCode {
                full_command: full_command_spec(config@.arguments),
                exit_status: exit_status@,
            }),
    {
        if config.error_on_non_zero_exit_code && !exit_status.success() {
            Err(
                Error::NonZeroExitCode {
                    full_command: config.full_command(),
                    exit_status: exit_status.duplicate(),
                },
            )
        } else {
            Ok(())
        }
    }

    /// Launches the configured child process, runs the three relay
    /// tasks concurrently with it, waits for its exit, joins the tasks,
    /// and applies the non-zero-exit policy. What the child writes and
    /// how it exits are the operating system's to decide; everything
    /// decidable from the configuration alone is pinned down below.
    pub fn run_child_process(config: &Config) -> (result: Result<ChildOutput, Error>)
        ensures
            result matches Ok(output) ==> run_outcome_consistent(config@, output@),
            result matches Err(error) ==> launch_error(config@, error@),
            config@.arguments.len() == 0 <==> (result matches Err(error) && error@
                is NoExecutableGiven),
    {
        if config.arguments.len() == 0 {
            return Err(Error::NoExecutableGiven);
        }
        if config.log_command {
            let mut line = String::from_str("+ ");
            line.append(config.full_command().as_str());
            line.append("\n");
            let bytes = line.as_str().as_bytes_vec();
            if let Some(cause) = write_parent_stderr(&bytes) {
                return Err(Error::command_io_error(config, cause));
            }
        }
        let runtime = match new_runtime() {
            Ok(runtime) => runtime,
            Err(cause) => {
                return Err(Error::command_io_error(config, cause));
            },
        };
        let (stdin_read, stdin_write) = match new_pipe() {
            Ok(ends) => ends,
            Err(cause) => {
                return Err(Error::command_io_error(config, cause));
            },
        };
        let (stdout_read, stdout_write) = match new_pipe() {
            Ok(ends) => ends,
            Err(cause) => {
                return Err(Error::command_io_error(config, cause));
            },
        };
        let (stderr_read, stderr_write) = match new_pipe() {
            Ok(ends) => ends,
            Err(cause) => {
                return Err(Error::command_io_error(config, cause));
            },
        };
        let mut command = command_new(&config.arguments[0]);
        let mut i: usize = 1;
        while i < config.arguments.len()
            decreases config.arguments.len() - i,
        {
            command_arg(&mut command, &config.arguments[i]);
            i = i + 1;
        }
        let mut j: usize = 0;
        while j < config.added_environment_variables.len()
            decreases config.added_environment_variables.len() - j,
        {
            let pair = &config.added_environment_variables[j];
            command_env(&mut command, &pair.0, &pair.1);
            j = j + 1;
        }
        if let Some(directory) = &config.working_directory {
            command_current_dir(&mut command, directory);
        }
        command_stdin(&mut command, stdin_read);
        command_stdout(&mut command, stdout_write);
        command_stderr(&mut command, stderr_write);
        let mut child = match spawn_command(&runtime, command) {
            Ok(child) => child,
            Err(failure) => {
                if failure.not_found {
                    return Err(
                        Error::FileNotFound {
                            executable: config.arguments[0].clone(),
                            cause: failure.message,
                        },
                    );
                } else {
                    return Err(Error::command_io_error(config, failure.message));
                }
            },
        };
        let waiter = Waiter::spawn_standard_stream_relaying(
            &runtime,
            config,
            stdin_write,
            stdout_read,
            stderr_read,
        );
        let exit_status = match child_wait(&runtime, &mut child) {
            Ok(exit_status) => exit_status,
            Err(cause) => {
                return Err(Error::command_io_error(config, cause));
            },
        };
        let collected = match waiter.join(&runtime) {
            Ok(collected) => collected,
            Err(cause) => {
                return Err(Error::command_io_error(config, cause));
            },
        };
        match Self::check_exit_status(config, &exit_status) {
            Ok(()) => {},
            Err(error) => {
                return Err(error);
            },
        }
        Ok(
            ChildOutput {
                stdout: collected.stdout,
                stderr: collected.stderr,
                exit_status,
            },
        )
    }

    /// Lets the output type request its captures and disable the
    /// non-zero-exit policy, runs the child, and converts the outcome.
    pub fn run_child_process_output<T: Output>(config: Config) -> (result: Result<T, Error>)
        ensures
            ({
                let requested = T::configure_spec(config@);
                &&& requested.arguments.len() == 0 ==> (result matches Err(error) && error@
                    is NoExecutableGiven)
                &&& result matches Ok(value) ==> exists|output: ChildOutputView|
                    {
                        &&& run_outcome_consistent(requested, output)
                        &&& #[trigger] T::extraction(requested, output) matches Ok(extracted)
                            && extracted == value@
                    }
                &&& result matches Err(error) ==> launch_error(requested, error@) || exists|
                    output: ChildOutputView,
                |
                    {
                        &&& run_outcome_consistent(requested, output)
                        &&& #[trigger] T::extraction(requested, output) matches Err(extracted)
                            && extracted == error@
                    }
            }),
    {
        let mut config = config;
        T::configure(&mut config);
        let output = match Self::run_child_process(&config) {
            Ok(output) => output,
            Err(error) => {
                return Err(error);
            },
        };
        T::from_child_output(&config, &output)
    }
}

} // verus!
