//! The output side of an invocation: each type that can be asked for
//! as a result knows which streams it needs captured, whether it keeps
//! the non-zero-exit policy, and how the internal result converts into
//! a value of it.

use vstd::prelude::*;
use vstd::utf8::{decode_utf8, valid_utf8};

use crate::child_output::{ChildOutput, ChildOutputView};
use crate::config::{full_command_spec, Config, ConfigView};
use crate::error::{Error, ErrorView};
use crate::exit_status::{ExitStatus, ExitStatusView};
use crate::text::{trim_end_newline, trim_newline};

verus! {

/// A type an invocation can produce. `configure` requests captures and
/// policy changes before the launch; `from_child_output` converts the
/// internal result afterwards, exactly as the `extraction` spec says.
pub trait Output: View + Sized {
    /// How this output type amends the configuration before launch.
    spec fn configure_spec(config: ConfigView) -> ConfigView;

    /// The value or error this output type extracts from a finished
    /// invocation.
    spec fn extraction(config: ConfigView, output: ChildOutputView) -> Result<Self::V, ErrorView>;

    /// Requests captures, or disables the non-zero-exit policy, on the
    /// configuration.
    fn configure(config: &mut Config)
        ensures
            final(config)@ == Self::configure_spec(old(config)@),
    ;

    /// Converts the internal result into this output type.
    fn from_child_output(config: &Config, output: &ChildOutput) -> (result: Result<Self, Error>)
        ensures
            match result {
                Ok(value) => Self::extraction(config@, output@) matches Ok(extracted) && extracted
                    == value@,
                Err(error) => Self::extraction(config@, output@) matches Err(extracted)
                    && extracted == error@,
            },
    ;
}

/// What `String::from_utf8` says of a byte sequence it rejects: the
/// description of the first invalid sequence, a function of the bytes
/// alone.
pub uninterp spec fn utf8_rejection(bytes: Seq<u8>) -> Seq<char>;

/// Relies on `String::from_utf8`: succeeds exactly on valid UTF-8 and
/// then returns the string those bytes encode; otherwise reports the
/// error's description, named `utf8_rejection`.
#[verifier::external_body]
fn utf8_string(bytes: Vec<u8>) -> (result: Result<String, String>)
    ensures
        result is Ok <==> valid_utf8(bytes@),
        result matches Ok(text) ==> text@ == decode_utf8(bytes@),
        result matches Err(cause) ==> cause@ == utf8_rejection(bytes@),
{
    match String::from_utf8(bytes) {
        Ok(text) => Ok(text),
        Err(error) => Err(error.utf8_error().to_string()),
    }
}

/// An equal copy of a byte buffer.
fn clone_bytes(bytes: &Vec<u8>) -> (result: Vec<u8>)
    ensures
        result@ == bytes@,
{
    let mut result: Vec<u8> = Vec::new();
    let mut i: usize = 0;
    while i < bytes.len()
        invariant
            i <= bytes@.len(),
            result@ == bytes@.take(i as int),
        decreases bytes@.len() - i,
    {
        result.push(bytes[i]);
        proof {
            assert(result@ =~= bytes@.take(i + 1));
        }
        i = i + 1;
    }
    proof {
        assert(bytes@.take(bytes@.len() as int) =~= bytes@);
    }
    result
}

/// Captures nothing and yields nothing; the invocation is run only for
/// its effect and its exit status check.
impl Output for () {
    open spec fn configure_spec(config: ConfigView) -> ConfigView {
        config
    }

    open spec fn extraction(config: ConfigView, output: ChildOutputView) -> Result<
        Self::V,
        ErrorView,
    > {
        Ok(())
    }

    fn configure(config: &mut Config) {
    }

    fn from_child_output(config: &Config, output: &ChildOutput) -> (result: Result<Self, Error>) {
        Ok(())
    }
}

/// What the child wrote to stdout, captured, decoded as UTF-8, with
/// exactly one trailing newline removed.
#[derive(Debug)]
pub struct StdoutTrimmed(pub String);

impl View for StdoutTrimmed {
    type V = Seq<char>;

    open spec fn view(&self) -> Seq<char> {
        self.0@
    }
}

/// What the child wrote to stdout, captured and decoded as UTF-8,
/// untouched.
#[derive(Debug)]
pub struct StdoutUntrimmed(pub String);

impl View for StdoutUntrimmed {
    type V = Seq<char>;

    open spec fn view(&self) -> Seq<char> {
        self.0@
    }
}

/// What the child wrote to stderr, captured and decoded as UTF-8.
#[derive(Debug)]
pub struct Stderr(pub String);

impl View for Stderr {
    type V = Seq<char>;

    open spec fn view(&self) -> Seq<char> {
        self.0@
    }
}

/// The child's exit status, with the non-zero-exit policy disabled, so
/// that a failing child is observed instead of reported as an error.
#[derive(Debug)]
pub struct Status(pub ExitStatus);

impl View for Status {
    type V = ExitStatusView;

    open spec fn view(&self) -> ExitStatusView {
        self.0@
    }
}

impl Output for StdoutUntrimmed {
    open spec fn configure_spec(config: ConfigView) -> ConfigView {
        ConfigView { capture_stdout: true, ..config }
    }

    open spec fn extraction(config: ConfigView, output: ChildOutputView) -> Result<
        Self::V,
        ErrorView,
    > {
        match output.stdout {
            None => Err(
                ErrorView::Internal {
                    message: "stdout not captured"@,
                    full_command: full_command_spec(config.arguments),
                },
            ),
            Some(bytes) => if valid_utf8(bytes) {
                Ok(decode_utf8(bytes))
            } else {
                Err(
                    ErrorView::InvalidUtf8ToStdout {
                        full_command: full_command_spec(config.arguments),
                        cause: utf8_rejection(bytes),
                    },
                )
            },
        }
    }

    fn configure(config: &mut Config) {
        config.capture_stdout = true;
    }

    fn from_child_output(config: &Config, output: &ChildOutput) -> (result: Result<Self, Error>) {
        match &output.stdout {
            None => Err(Error::internal("stdout not captured", config)),
            Some(bytes) => match utf8_string(clone_bytes(bytes)) {
                Ok(text) => Ok(StdoutUntrimmed(text)),
                Err(cause) => Err(
                    Error::InvalidUtf8ToStdout { full_command: config.full_command(), cause },
                ),
            },
        }
    }
}

impl Output for StdoutTrimmed {
    open spec fn configure_spec(config: ConfigView) -> ConfigView {
        StdoutUntrimmed::configure_spec(config)
    }

    open spec fn extraction(config: ConfigView, output: ChildOutputView) -> Result<
        Self::V,
        ErrorView,
    > {
        match StdoutUntrimmed::extraction(config, output) {
            Ok(text) => Ok(trim_end_newline(text)),
            Err(error) => Err(error),
        }
    }

    fn configure(config: &mut Config) {
        StdoutUntrimmed::configure(config);
    }

    fn from_child_output(config: &Config, output: &ChildOutput) -> (result: Result<Self, Error>) {
        match StdoutUntrimmed::from_child_output(config, output) {
            Ok(untrimmed) => Ok(StdoutTrimmed(trim_newline(untrimmed.0.as_str()))),
            Err(error) => Err(error),
        }
    }
}

impl Output for Stderr {
    open spec fn configure_spec(config: ConfigView) -> ConfigView {
        ConfigView { capture_stderr: true, ..config }
    }

    open spec fn extraction(config: ConfigView, output: ChildOutputView) -> Result<
        Self::V,
        ErrorView,
    > {
        match output.stderr {
            None => Err(
                ErrorView::Internal {
                    message: "stderr not captured"@,
                    full_command: full_command_spec(config.arguments),
                },
            ),
            Some(bytes) => if valid_utf8(bytes) {
                Ok(decode_utf8(bytes))
            } else {
                Err(
                    ErrorView::InvalidUtf8ToStderr {
                        full_command: full_command_spec(config.arguments),
                        cause: utf8_rejection(bytes),
                    },
                )
            },
        }
    }

    fn configure(config: &mut Config) {
        config.capture_stderr = true;
    }

    fn from_child_output(config: &Config, output: &ChildOutput) -> (result: Result<Self, Error>) {
        match &output.stderr {
            None => Err(Error::internal("stderr not captured", config)),
            Some(bytes) => match utf8_string(clone_bytes(bytes)) {
                Ok(text) => Ok(Stderr(text)),
                Err(cause) => Err(
                    Error::InvalidUtf8ToStderr { full_command: config.full_command(), cause },
                ),
            },
        }
    }
}

impl Output for Status {
    open spec fn configure_spec(config: ConfigView) -> ConfigView {
        ConfigView { error_on_non_zero_exit_code: false, ..config }
    }

    open spec fn extraction(config: ConfigView, output: ChildOutputView) -> Result<
        Self::V,
        ErrorView,
    > {
        Ok(output.exit_status)
    }

    fn configure(config: &mut Config) {
        config.error_on_non_zero_exit_code = false;
    }

    fn from_child_output(config: &Config, output: &ChildOutput) -> (result: Result<Self, Error>) {
        Ok(Status(output.exit_status.duplicate()))
    }
}

/// `true` exactly when the child exited successfully; disables the
/// non-zero-exit policy, so a failing child yields `false` instead of
/// an error.
impl Output for bool {
    open spec fn configure_spec(config: ConfigView) -> ConfigView {
        ConfigView { error_on_non_zero_exit_code: false, ..config }
    }

    open spec fn extraction(config: ConfigView, output: ChildOutputView) -> Result<
        Self::V,
        ErrorView,
    > {
        Ok(output.exit_status.success)
    }

    fn configure(config: &mut Config) {
        config.error_on_non_zero_exit_code = false;
    }

    fn from_child_output(config: &Config, output: &ChildOutput) -> (result: Result<Self, Error>) {
        Ok(output.exit_status.success())
    }
}

impl<A: Output, B: Output, C: Output, D: Output> Output for (A, B, C, D) {
    open spec fn configure_spec(config: ConfigView) -> ConfigView {
        D::configure_spec(C::configure_spec(B::configure_spec(A::configure_spec(config))))
    }

    open spec fn extraction(config: ConfigView, output: ChildOutputView) -> Result<
        Self::V,
        ErrorView,
    > {
        match A::extraction(config, output) {
                    Ok(a) => match B::extraction(config, output) {
                    Ok(b) => match C::extraction(config, output) {
                    Ok(c) => match D::extraction(config, output) {
                    Ok(d) => Ok((a, b, c, d)),
                    Err(error) => Err(error),
                },
                    Err(error) => Err(error),
                },
                    Err(error) => Err(error),
                },
                    Err(error) => Err(error),
                }
    }

    fn configure(config: &mut Config) {
        A::configure(config);
        B::configure(config);
        C::configure(config);
        D::configure(config);
    }

    fn from_child_output(config: &Config, output: &ChildOutput) -> (result: Result<Self, Error>) {
        match A::from_child_output(config, output) {
                    Ok(a) => match B::from_child_output(config, output) {
                    Ok(b) => match C::from_child_output(config, output) {
                    Ok(c) => match D::from_child_output(config, output) {
                    Ok(d) => Ok((a, b, c, d)),
                    Err(error) => Err(error),
                },
                    Err(error) => Err(error),
                },
                    Err(error) => Err(error),
                },
                    Err(error) => Err(error),
                }
    }
}

impl<A: Output, B: Output, C: Output, D: Output, E: Output> Output for (A, B, C, D, E) {
    open spec fn configure_spec(config: ConfigView) -> ConfigView {
        E::configure_spec(D::configure_spec(C::configure_spec(B::configure_spec(A::configure_spec(config)))))
    }

    open spec fn extraction(config: ConfigView, output: ChildOutputView) -> Result<
        Self::V,
        ErrorView,
    > {
        match A::extraction(config, output) {
                    Ok(a) => match B::extraction(config, output) {
                    Ok(b) => match C::extraction(config, output) {
                    Ok(c) => match D::extraction(config, output) {
                    Ok(d) => match E::extraction(config, output) {
                    Ok(e) => Ok((a, b, c, d, e)),
                    Err(error) => Err(error),
                },
                    Err(error) => Err(error),
                },
                    Err(error) => Err(error),
                },
                    Err(error) => Err(error),
                },
                    Err(error) => Err(error),
                }
    }

    fn configure(config: &mut Config) {
        A::configure(config);
        B::configure(config);
        C::configure(config);
        D::configure(config);
        E::configure(config);
    }

    fn from_child_output(config: &Config, output: &ChildOutput) -> (result: Result<Self, Error>) {
        match A::from_child_output(config, output) {
                    Ok(a) => match B::from_child_output(config, output) {
                    Ok(b) => match C::from_child_output(config, output) {
                    Ok(c) => match D::from_child_output(config, output) {
                    Ok(d) => match E::from_child_output(config, output) {
                    Ok(e) => Ok((a, b, c, d, e)),
                    Err(error) => Err(error),
                },
                    Err(error) => Err(error),
                },
                    Err(error) => Err(error),
                },
                    Err(error) => Err(error),
                },
                    Err(error) => Err(error),
                }
    }
}

impl<A: Output, B: Output, C: Output, D: Output, E: Output, F: Output> Output for (A, B, C, D, E, F) {
    open spec fn configure_spec(config: ConfigView) -> ConfigView {
        F::configure_spec(E::configure_spec(D::configure_spec(C::configure_spec(B::configure_spec(A::configure_spec(config))))))
    }

    open spec fn extraction(config: ConfigView, output: ChildOutputView) -> Result<
        Self::V,
        ErrorView,
    > {
        match A::extraction(config, output) {
                    Ok(a) => match B::extraction(config, output) {
                    Ok(b) => match C::extraction(config, output) {
                    Ok(c) => match D::extraction(config, output) {
                    Ok(d) => match E::extraction(config, output) {
                    Ok(e) => match F::extraction(config, output) {
                    Ok(f) => Ok((a, b, c, d, e, f)),
                    Err(error) => Err(error),
                },
                    Err(error) => Err(error),
                },
                    Err(error) => Err(error),
                },
                    Err(error) => Err(error),
                },
                    Err(error) => Err(error),
                },
                    Err(error) => Err(error),
                }
    }

    fn configure(config: &mut Config) {
        A::configure(config);
        B::configure(config);
        C::configure(config);
        D::configure(config);
        E::configure(config);
        F::configure(config);
    }

    fn from_child_output(config: &Config, output: &ChildOutput) -> (result: Result<Self, Error>) {
        match A::from_child_output(config, output) {
                    Ok(a) => match B::from_child_output(config, output) {
                    Ok(b) => match C::from_child_output(config, output) {
                    Ok(c) => match D::from_child_output(config, output) {
                    Ok(d) => match E::from_child_output(config, output) {
                    Ok(e) => match F::from_child_output(config, output) {
                    Ok(f) => Ok((a, b, c, d, e, f)),
                    Err(error) => Err(error),
                },
                    Err(error) => Err(error),
                },
                    Err(error) => Err(error),
                },
                    Err(error) => Err(error),
                },
                    Err(error) => Err(error),
                },
                    Err(error) => Err(error),
                }
    }
}

/// The trim law: on the same finished invocation, trimmed stdout
/// extraction yields exactly what untrimmed extraction yields with one
/// trailing `"\n"` or `"\r\n"` removed and nothing else, and fails
/// exactly when untrimmed extraction fails, with the same error.
pub proof fn lemma_trimmed_is_untrimmed_minus_one_newline(
    config: ConfigView,
    output: ChildOutputView,
)
    ensures
        match (StdoutTrimmed::extraction(config, output), StdoutUntrimmed::extraction(
            config,
            output,
        )) {
            (Ok(trimmed), Ok(untrimmed)) => trimmed == trim_end_newline(untrimmed),
            (Err(trimmed_error), Err(untrimmed_error)) => trimmed_error == untrimmed_error,
            _ => false,
        },
{
}

/// The trim rule touches nothing but the trailing newline: the result
/// is always an unchanged prefix of the input, two characters shorter
/// when the input ends in `"\r\n"`, one shorter when it ends in `"\n"`
/// alone, and the whole input otherwise.
pub proof fn lemma_trim_end_newline_exact(s: Seq<char>)
    ensures
        trim_end_newline(s) == s.take(trim_end_newline(s).len() as int),
        s.len() >= 2 && s[s.len() - 2] == '\r' && s[s.len() - 1] == '\n'
            ==> trim_end_newline(s).len() == s.len() - 2,
        s.len() >= 1 && s[s.len() - 1] == '\n' && !(s.len() >= 2 && s[s.len() - 2] == '\r')
            ==> trim_end_newline(s).len() == s.len() - 1,
        !(s.len() >= 1 && s[s.len() - 1] == '\n') ==> trim_end_newline(s) == s,
{
    assert(trim_end_newline(s) =~= s.take(trim_end_newline(s).len() as int));
}

/// The exit-code policy: the status and boolean extractors disable the
/// non-zero-exit policy and then always succeed, reporting the observed
/// exit status; nothing else about the configuration changes.
pub proof fn lemma_exit_status_observers_disable_policy(
    config: ConfigView,
    output: ChildOutputView,
)
    ensures
        !Status::configure_spec(config).error_on_non_zero_exit_code,
        !<bool as Output>::configure_spec(config).error_on_non_zero_exit_code,
        Status::configure_spec(config) == (ConfigView {
            error_on_non_zero_exit_code: false,
            ..config
        }),
        Status::extraction(config, output) == Ok::<ExitStatusView, ErrorView>(output.exit_status),
        <bool as Output>::extraction(config, output) == Ok::<bool, ErrorView>(
            output.exit_status.success,
        ),
{
}

impl<A: Output> Output for (A,) {
    open spec fn configure_spec(config: ConfigView) -> ConfigView {
        A::configure_spec(config)
    }

    open spec fn extraction(config: ConfigView, output: ChildOutputView) -> Result<
        Self::V,
        ErrorView,
    > {
        match A::extraction(config, output) {
            Ok(a) => Ok((a,)),
            Err(error) => Err(error),
        }
    }

    fn configure(config: &mut Config) {
        A::configure(config);
    }

    fn from_child_output(config: &Config, output: &ChildOutput) -> (result: Result<Self, Error>) {
        match A::from_child_output(config, output) {
            Ok(a) => Ok((a,)),
            Err(error) => Err(error),
        }
    }
}

impl<A: Output, B: Output> Output for (A, B) {
    open spec fn configure_spec(config: ConfigView) -> ConfigView {
        B::configure_spec(A::configure_spec(config))
    }

    open spec fn extraction(config: ConfigView, output: ChildOutputView) -> Result<
        Self::V,
        ErrorView,
    > {
        match (A::extraction(config, output), B::extraction(config, output)) {
            (Ok(a), Ok(b)) => Ok((a, b)),
            (Err(error), _) => Err(error),
            (_, Err(error)) => Err(error),
        }
    }

    fn configure(config: &mut Config) {
        A::configure(config);
        B::configure(config);
    }

    fn from_child_output(config: &Config, output: &ChildOutput) -> (result: Result<Self, Error>) {
        match A::from_child_output(config, output) {
            Ok(a) => match B::from_child_output(config, output) {
                Ok(b) => Ok((a, b)),
                Err(error) => Err(error),
            },
            Err(error) => Err(error),
        }
    }
}

impl<A: Output, B: Output, C: Output> Output for (A, B, C) {
    open spec fn configure_spec(config: ConfigView) -> ConfigView {
        C::configure_spec(B::configure_spec(A::configure_spec(config)))
    }

    open spec fn extraction(config: ConfigView, output: ChildOutputView) -> Result<
        Self::V,
        ErrorView,
    > {
        match (A::extraction(config, output), B::extraction(config, output), C::extraction(
            config,
            output,
        )) {
            (Ok(a), Ok(b), Ok(c)) => Ok((a, b, c)),
            (Err(error), _, _) => Err(error),
            (_, Err(error), _) => Err(error),
            (_, _, Err(error)) => Err(error),
        }
    }

    fn configure(config: &mut Config) {
        A::configure(config);
        B::configure(config);
        C::configure(config);
    }

    fn from_child_output(config: &Config, output: &ChildOutput) -> (result: Result<Self, Error>) {
        match A::from_child_output(config, output) {
            Ok(a) => match B::from_child_output(config, output) {
                Ok(b) => match C::from_child_output(config, output) {
                    Ok(c) => Ok((a, b, c)),
                    Err(error) => Err(error),
                },
                Err(error) => Err(error),
            },
            Err(error) => Err(error),
        }
    }
}

} // verus!
