//! The accumulated, pre-launch description of one process invocation.

use vstd::prelude::*;
use vstd::string::StringExecFns;

verus! {

/// The ghost-level image of a [`Config`]: what one invocation will run,
/// with every piece of text abstracted to its character sequence.
pub ghost struct ConfigView {
    pub arguments: Seq<Seq<char>>,
    pub log_command: bool,
    pub working_directory: Option<Seq<char>>,
    pub added_environment_variables: Seq<(Seq<char>, Seq<char>)>,
    pub stdin: Seq<u8>,
    pub capture_stdout: bool,
    pub capture_stderr: bool,
    pub error_on_non_zero_exit_code: bool,
}

/// Configures how to run a child process: the argument list (the first
/// entry is the executable), whether to log the rendered command line,
/// an optional working directory, environment additions layered over the
/// inherited environment, the bytes to feed to the child's stdin, which
/// output streams to capture, and whether a non-zero exit code is an error.
pub struct Config {
    pub arguments: Vec<String>,
    pub log_command: bool,
    pub working_directory: Option<String>,
    pub added_environment_variables: Vec<(String, String)>,
    pub stdin: Vec<u8>,
    pub capture_stdout: bool,
    pub capture_stderr: bool,
    pub error_on_non_zero_exit_code: bool,
}

impl View for Config {
    type V = ConfigView;

    open spec fn view(&self) -> ConfigView {
        ConfigView {
            arguments: self.arguments.deep_view(),
            log_command: self.log_command,
            working_directory: match self.working_directory {
                Some(d) => Some(d@),
                None => None,
            },
            added_environment_variables: self.added_environment_variables.deep_view(),
            stdin: self.stdin@,
            capture_stdout: self.capture_stdout,
            capture_stderr: self.capture_stderr,
            error_on_non_zero_exit_code: self.error_on_non_zero_exit_code,
        }
    }
}

/// An argument as the logged command line shows it: wrapped in single
/// quotes when it is empty or contains a space, verbatim otherwise.
pub open spec fn quote_argument(argument: Seq<char>) -> Seq<char> {
    if argument.len() == 0 || argument.contains(' ') {
        "'"@ + argument + "'"@
    } else {
        argument
    }
}

/// The first `count` arguments rendered as one command line, joined by
/// single spaces.
pub open spec fn full_command_upto(arguments: Seq<Seq<char>>, count: int) -> Seq<char>
    decreases count,
{
    if count <= 0 {
        Seq::empty()
    } else if count == 1 {
        quote_argument(arguments[0])
    } else {
        full_command_upto(arguments, count - 1) + " "@ + quote_argument(arguments[count - 1])
    }
}

/// The whole argument list rendered as one command line: arguments
/// joined by single spaces, each quoted when empty or containing a
/// space.
pub open spec fn full_command_spec(arguments: Seq<Seq<char>>) -> Seq<char> {
    full_command_upto(arguments, arguments.len() as int)
}

impl Config {
    /// Renders the full command line, for logging and error messages.
    pub fn full_command(&self) -> (result: String)
        ensures
            result@ == full_command_spec(self@.arguments),
    {
        let total = self.arguments.len();
        let mut result = String::new();
        let mut i: usize = 0;
        while i < total
            invariant
                i <= total,
                total == self.arguments@.len(),
                result@ == full_command_upto(self.arguments.deep_view(), i as int),
            decreases total - i,
        {
            if i > 0 {
                result.append(" ");
            }
            let argument = &self.arguments[i];
            let needs_quotes = argument.as_str().is_empty() || crate::text::contains_char(
                argument.as_str(),
                ' ',
            );
            proof {
                assert(self.arguments.deep_view()[i as int] == self.arguments@[i as int]@);
            }
            if needs_quotes {
                result.append("'");
                result.append(argument.as_str());
                result.append("'");
            } else {
                result.append(argument.as_str());
            }
            i = i + 1;
        }
        result
    }
}

/// The configuration a fresh invocation starts from: no arguments, no
/// logging, inherited working directory and environment, empty stdin,
/// nothing captured, and a non-zero exit code treated as an error.
pub open spec fn default_config() -> ConfigView {
    ConfigView {
        arguments: Seq::empty(),
        log_command: false,
        working_directory: None,
        added_environment_variables: Seq::empty(),
        stdin: Seq::empty(),
        capture_stdout: false,
        capture_stderr: false,
        error_on_non_zero_exit_code: true,
    }
}

impl Default for Config {
    fn default() -> (result: Config)
        ensures
            result@ == default_config(),
    {
        let config = Config {
            arguments: Vec::new(),
            log_command: false,
            working_directory: None,
            added_environment_variables: Vec::new(),
            stdin: Vec::new(),
            capture_stdout: false,
            capture_stderr: false,
            error_on_non_zero_exit_code: true,
        };
        proof {
            assert(config@.arguments =~= default_config().arguments);
            assert(config@.added_environment_variables =~= default_config().added_environment_variables);
            assert(config@.stdin =~= default_config().stdin);
        }
        config
    }
}

} // verus!
