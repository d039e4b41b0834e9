//! The error taxonomy: every way an invocation can fail, with the exact
//! text of each human-readable message.

use vstd::prelude::*;
use vstd::string::StringExecFns;

use crate::config::full_command_spec;
use crate::exit_status::{ExitStatus, ExitStatusView};
use crate::text::{split_whitespace, split_words};

verus! {

/// The ghost-level image of an [`Error`].
pub ghost enum ErrorView {
    NoExecutableGiven,
    FileNotFound { executable: Seq<char>, cause: Seq<char> },
    CommandIoError { message: Seq<char>, cause: Seq<char> },
    NonZeroExitCode { full_command: Seq<char>, exit_status: ExitStatusView },
    InvalidUtf8ToStdout { full_command: Seq<char>, cause: Seq<char> },
    InvalidUtf8ToStderr { full_command: Seq<char>, cause: Seq<char> },
    Internal { message: Seq<char>, full_command: Seq<char> },
}

/// Everything that can go wrong while running a child process. Each
/// failure is terminal for its invocation; nothing is retried.
#[derive(Debug)]
pub enum Error {
    /// The configuration produced no arguments at all, so there is no
    /// executable to run.
    NoExecutableGiven,
    /// Spawning failed because the executable could not be located, or
    /// a dynamic library or shebang interpreter it needs could not be.
    FileNotFound { executable: String, cause: String },
    /// Any other I/O failure while logging, spawning, piping to or from
    /// the child, or joining the relay tasks. `message` already carries
    /// the rendered command line and the cause.
    CommandIoError { message: String, cause: String },
    /// The child exited unsuccessfully while the non-zero-exit policy
    /// was enabled.
    NonZeroExitCode { full_command: String, exit_status: ExitStatus },
    /// Stdout was captured for a text-typed result, but the child wrote
    /// bytes that are not valid UTF-8; `cause` describes the rejected
    /// sequence.
    InvalidUtf8ToStdout { full_command: String, cause: String },
    /// Stderr was captured for a text-typed result, but the child wrote
    /// bytes that are not valid UTF-8; `cause` describes the rejected
    /// sequence.
    InvalidUtf8ToStderr { full_command: String, cause: String },
    /// An internal invariant of this engine was broken; this indicates
    /// a bug in the engine, not in the caller's input.
    Internal { message: String, full_command: String },
}

impl View for Error {
    type V = ErrorView;

    open spec fn view(&self) -> ErrorView {
        match self {
            Error::NoExecutableGiven => ErrorView::NoExecutableGiven,
            Error::FileNotFound { executable, cause } => ErrorView::FileNotFound {
                executable: executable@,
                cause: cause@,
            },
            Error::CommandIoError { message, cause } => ErrorView::CommandIoError {
                message: message@,
                cause: cause@,
            },
            Error::NonZeroExitCode { full_command, exit_status } => ErrorView::NonZeroExitCode {
                full_command: full_command@,
                exit_status: exit_status@,
            },
            Error::InvalidUtf8ToStdout { full_command, cause } => ErrorView::InvalidUtf8ToStdout {
                full_command: full_command@,
                cause: cause@,
            },
            Error::InvalidUtf8ToStderr { full_command, cause } => ErrorView::InvalidUtf8ToStderr {
                full_command: full_command@,
                cause: cause@,
            },
            Error::Internal { message, full_command } => ErrorView::Internal {
                message: message@,
                full_command: full_command@,
            },
        }
    }
}

/// A word wrapped in single quotes.
pub open spec fn quoted_word(word: Seq<char>) -> Seq<char> {
    "'"@ + word + "'"@
}

/// The separator written before the word at `index` of `total` words:
/// nothing before the first, `" and "` before the last, `", "` between.
pub open spec fn list_separator(total: int, index: int) -> Seq<char> {
    if index == 0 {
        Seq::empty()
    } else if index == total - 1 {
        " and "@
    } else {
        ", "@
    }
}

/// The first `count` words of `words`, quoted and joined as an English
/// enumeration.
pub open spec fn english_list_upto(words: Seq<Seq<char>>, count: int) -> Seq<char>
    decreases count,
{
    if count <= 0 {
        Seq::empty()
    } else {
        english_list_upto(words, count - 1) + list_separator(words.len() as int, count - 1)
            + quoted_word(words[count - 1])
    }
}

/// All of `words`, quoted and joined as an English enumeration:
/// `'a'`, `'a' and 'b'`, `'a', 'b' and 'c'`, and so on.
pub open spec fn english_list_spec(words: Seq<Seq<char>>) -> Seq<char> {
    english_list_upto(words, words.len() as int)
}

/// Quotes every word and joins them as an English enumeration.
pub fn english_list(words: &Vec<String>) -> (result: String)
    ensures
        result@ == english_list_spec(words.deep_view()),
{
    let total = words.len();
    let mut result = String::new();
    let mut i: usize = 0;
    while i < total
        invariant
            i <= total,
            total == words@.len(),
            result@ == english_list_upto(words.deep_view(), i as int),
        decreases total - i,
    {
        if i > 0 {
            if i == total - 1 {
                result.append(" and ");
            } else {
                result.append(", ");
            }
        }
        result.append("'");
        result.append(words[i].as_str());
        result.append("'");
        proof {
            assert(words.deep_view()[i as int] == words@[i as int]@);
        }
        i = i + 1;
    }
    result
}

/// The remediation note shown when an executable name holds whitespace:
/// the caller most likely meant the first word as the executable and
/// the rest as its arguments.
pub open spec fn whitespace_note_spec(executable: Seq<char>) -> Seq<char> {
    let words = split_whitespace(executable);
    "note: Given executable name '"@ + executable + "' contains whitespace.\n"@
        + "  Did you mean to run '"@ + words[0] + "', with "@ + english_list_spec(
        words.drop_first(),
    ) + " as "@ + (if words.len() == 2 {
        "the argument"@
    } else {
        "arguments"@
    }) + "?\n  Consider using Split: https://docs.rs/cradle/latest/cradle/input/struct.Split.html"@
}

/// When the executable name splits into two or more words, returns the
/// note suggesting to split it; otherwise nothing.
pub fn executable_with_whitespace_note(executable: &str) -> (result: Option<String>)
    ensures
        result is Some <==> split_whitespace(executable@).len() >= 2,
        result matches Some(note) ==> note@ == whitespace_note_spec(executable@),
{
    let words = split_words(executable);
    if words.len() >= 2 {
        let mut rest: Vec<String> = Vec::new();
        let mut i: usize = 1;
        while i < words.len()
            invariant
                1 <= i <= words@.len(),
                rest.deep_view() == words.deep_view().subrange(1, i as int),
            decreases words@.len() - i,
        {
            let ghost rest_before = rest.deep_view();
            rest.push(words[i].clone());
            proof {
                assert(words.deep_view()[i as int] == words@[i as int]@);
                assert(rest.deep_view() =~= rest_before.push(words.deep_view()[i as int]));
                assert(rest.deep_view() =~= words.deep_view().subrange(1, i + 1));
            }
            i = i + 1;
        }
        proof {
            assert(rest.deep_view() =~= words.deep_view().drop_first());
        }
        let mut note = String::from_str("note: Given executable name '");
        note.append(executable);
        note.append("' contains whitespace.\n");
        note.append("  Did you mean to run '");
        note.append(words[0].as_str());
        note.append("', with ");
        note.append(english_list(&rest).as_str());
        note.append(" as ");
        if words.len() == 2 {
            note.append("the argument");
        } else {
            note.append("arguments");
        }
        note.append(
            "?\n  Consider using Split: https://docs.rs/cradle/latest/cradle/input/struct.Split.html",
        );
        proof {
            assert(words.deep_view()[0] == words@[0]@);
        }
        Some(note)
    } else {
        None
    }
}

/// One decimal digit as a character.
pub open spec fn decimal_digit(d: int) -> char {
    if d == 0 {
        '0'
    } else if d == 1 {
        '1'
    } else if d == 2 {
        '2'
    } else if d == 3 {
        '3'
    } else if d == 4 {
        '4'
    } else if d == 5 {
        '5'
    } else if d == 6 {
        '6'
    } else if d == 7 {
        '7'
    } else if d == 8 {
        '8'
    } else {
        '9'
    }
}

/// The decimal digits of a non-negative number, most significant first.
pub open spec fn decimal_digits(n: int) -> Seq<char>
    decreases n,
{
    if n < 10 {
        seq![decimal_digit(n)]
    } else {
        decimal_digits(n / 10).push(decimal_digit(n % 10))
    }
}

/// The decimal rendering of an integer, with a leading `-` when it is
/// negative.
pub open spec fn decimal_str(n: int) -> Seq<char> {
    if n < 0 {
        "-"@ + decimal_digits(-n)
    } else {
        decimal_digits(n)
    }
}

/// The text of one decimal digit.
fn digit_str(digit: u64) -> (result: &'static str)
    requires
        digit < 10,
    ensures
        result@ == seq![decimal_digit(digit as int)],
{
    let result = if digit == 0 {
        "0"
    } else if digit == 1 {
        "1"
    } else if digit == 2 {
        "2"
    } else if digit == 3 {
        "3"
    } else if digit == 4 {
        "4"
    } else if digit == 5 {
        "5"
    } else if digit == 6 {
        "6"
    } else if digit == 7 {
        "7"
    } else if digit == 8 {
        "8"
    } else {
        "9"
    };
    proof {
        reveal_strlit("0");
        reveal_strlit("1");
        reveal_strlit("2");
        reveal_strlit("3");
        reveal_strlit("4");
        reveal_strlit("5");
        reveal_strlit("6");
        reveal_strlit("7");
        reveal_strlit("8");
        reveal_strlit("9");
        assert(result@ =~= seq![decimal_digit(digit as int)]);
    }
    result
}

/// The decimal digits of a non-negative value, most significant first.
fn decimal_text(value: u64) -> (result: String)
    ensures
        result@ == decimal_digits(value as int),
    decreases value,
{
    if value < 10 {
        digit_str(value).to_owned()
    } else {
        let mut result = decimal_text(value / 10);
        result.append(digit_str(value % 10));
        proof {
            assert(decimal_digits((value / 10) as int) + seq![decimal_digit((value % 10) as int)]
                =~= decimal_digits((value / 10) as int).push(decimal_digit((value % 10) as int)));
        }
        result
    }
}

/// The decimal rendering of an exit code: the digits of its magnitude,
/// preceded by `-` when it is negative.
fn render_i32(value: i32) -> (result: String)
    ensures
        result@ == decimal_str(value as int),
{
    if value < 0 {
        let magnitude = (-(value as i64)) as u64;
        let mut result = String::from_str("-");
        result.append(decimal_text(magnitude).as_str());
        result
    } else {
        decimal_text(value as u64)
    }
}

/// The message of a [`Error::CommandIoError`]: the rendered command
/// line, then the cause on an indented line of its own.
pub open spec fn command_io_message(full_command: Seq<char>, cause: Seq<char>) -> Seq<char> {
    full_command + ":\n  "@ + cause
}

/// The human-readable message of each error.
pub open spec fn message_spec(error: ErrorView) -> Seq<char> {
    match error {
        ErrorView::NoExecutableGiven => "no arguments given"@,
        ErrorView::FileNotFound { executable, cause } => "File not found error when executing '"@
            + executable + "'"@ + if split_whitespace(executable).len() >= 2 {
            "\n"@ + whitespace_note_spec(executable)
        } else {
            Seq::empty()
        },
        ErrorView::CommandIoError { message, cause } => message,
        ErrorView::NonZeroExitCode { full_command, exit_status } => full_command + ":\n  "@
            + match exit_status.code {
            Some(code) => "exited with exit code: "@ + decimal_str(code as int),
            None => "exited with "@ + exit_status.description,
        },
        ErrorView::InvalidUtf8ToStdout { full_command, cause } => full_command
            + ":\n  invalid utf-8 written to stdout"@,
        ErrorView::InvalidUtf8ToStderr { full_command, cause } => full_command
            + ":\n  invalid utf-8 written to stderr"@,
        ErrorView::Internal { message, full_command } => "internal error: "@ + message
            + "\n  full command: "@ + full_command,
    }
}

impl Error {
    /// Wraps an I/O failure, rendering the command line into the
    /// message.
    pub fn command_io_error(config: &crate::config::Config, cause: String) -> (result: Error)
        ensures
            result@ == (ErrorView::CommandIoError {
                message: command_io_message(full_command_spec(config@.arguments), cause@),
                cause: cause@,
            }),
    {
        let mut message = config.full_command();
        message.append(":\n  ");
        message.append(cause.as_str());
        Error::CommandIoError { message, cause }
    }

    /// Reports a broken internal invariant of the engine itself.
    pub fn internal(message: &str, config: &crate::config::Config) -> (result: Error)
        ensures
            result@ == (ErrorView::Internal {
                message: message@,
                full_command: full_command_spec(config@.arguments),
            }),
    {
        Error::Internal { message: message.to_owned(), full_command: config.full_command() }
    }

    /// The human-readable message of this error, exactly as
    /// [`message_spec`] states it.
    pub fn message(&self) -> (result: String)
        ensures
            result@ == message_spec(self@),
    {
        match self {
            Error::NoExecutableGiven => String::from_str("no arguments given"),
            Error::FileNotFound { executable, .. } => {
                let mut text = String::from_str("File not found error when executing '");
                text.append(executable.as_str());
                text.append("'");
                match executable_with_whitespace_note(executable.as_str()) {
                    Some(note) => {
                        text.append("\n");
                        text.append(note.as_str());
                    },
                    None => {},
                }
                text
            },
            Error::CommandIoError { message, .. } => message.clone(),
            Error::NonZeroExitCode { full_command, exit_status } => {
                let mut text = full_command.clone();
                text.append(":\n  ");
                match exit_status.code {
                    Some(code) => {
                        text.append("exited with exit code: ");
                        text.append(render_i32(code).as_str());
                    },
                    None => {
                        text.append("exited with ");
                        text.append(exit_status.description.as_str());
                    },
                }
                text
            },
            Error::InvalidUtf8ToStdout { full_command, .. } => {
                let mut text = full_command.clone();
                text.append(":\n  invalid utf-8 written to stdout");
                text
            },
            Error::InvalidUtf8ToStderr { full_command, .. } => {
                let mut text = full_command.clone();
                text.append(":\n  invalid utf-8 written to stderr");
                text
            },
            Error::Internal { message, full_command } => {
                let mut text = String::from_str("internal error: ");
                text.append(message.as_str());
                text.append("\n  full command: ");
                text.append(full_command.as_str());
                text
            },
        }
    }
}

} // verus!
