//! The input side of an invocation: each type that can be passed to
//! [`run_result`] knows how it amends the configuration — an argument
//! word, a working-directory override, an environment addition, stdin
//! bytes, or the logging flag. This phase is pure accumulation and
//! cannot fail.

use vstd::prelude::*;
use vstd::string::StringExecFns;

use crate::child_output::ChildOutput;
use crate::config::{default_config, Config, ConfigView};
use crate::error::Error;
use crate::output::Output;
use crate::text::split_whitespace;

verus! {

/// A value that knows how to amend the configuration of an invocation.
/// `configure` performs exactly the amendment that the `effect` spec
/// describes.
pub trait Input: Sized {
    /// How this input amends the configuration.
    spec fn effect(self, config: ConfigView) -> ConfigView;

    /// Applies this input to the configuration.
    fn configure(self, config: &mut Config)
        ensures
            final(config)@ == self.effect(old(config)@),
    ;
}

/// A `&str` becomes one argument, verbatim: embedded whitespace is kept,
/// and the first argument of an invocation names the executable.
impl Input for &str {
    open spec fn effect(self, config: ConfigView) -> ConfigView {
        ConfigView { arguments: config.arguments.push(self@), ..config }
    }

    fn configure(self, config: &mut Config) {
        let ghost arguments_before = config.arguments.deep_view();
        config.arguments.push(self.to_owned());
        proof {
            assert(config.arguments.deep_view() =~= arguments_before.push(self@));
        }
    }
}

/// A `String` becomes one argument, verbatim, like a `&str`.
impl Input for String {
    open spec fn effect(self, config: ConfigView) -> ConfigView {
        ConfigView { arguments: config.arguments.push(self@), ..config }
    }

    fn configure(self, config: &mut Config) {
        let ghost arguments_before = config.arguments.deep_view();
        let ghost view = self@;
        config.arguments.push(self);
        proof {
            assert(config.arguments.deep_view() =~= arguments_before.push(view));
        }
    }
}

/// Splits the contained string on whitespace and passes every word as
/// one argument; the opt-in form for callers who write a whole command
/// line as one literal.
pub struct Split(pub &'static str);

impl Input for Split {
    open spec fn effect(self, config: ConfigView) -> ConfigView {
        ConfigView { arguments: config.arguments + split_whitespace(self.0@), ..config }
    }

    fn configure(self, config: &mut Config) {
        let ghost arguments_before = config.arguments.deep_view();
        let mut words = crate::text::split_words(self.0);
        let ghost words_view = words.deep_view();
        config.arguments.append(&mut words);
        proof {
            assert(config.arguments.deep_view() =~= arguments_before + words_view);
        }
    }
}

/// Enables logging: the rendered command line is written to the
/// parent's stderr before the child is spawned. Once set it cannot be
/// unset.
pub struct LogCommand;

impl Input for LogCommand {
    open spec fn effect(self, config: ConfigView) -> ConfigView {
        ConfigView { log_command: true, ..config }
    }

    fn configure(self, config: &mut Config) {
        config.log_command = true;
    }
}

/// Overrides the child's working directory; when given several times,
/// the last one wins.
pub struct CurrentDir(pub String);

impl Input for CurrentDir {
    open spec fn effect(self, config: ConfigView) -> ConfigView {
        ConfigView { working_directory: Some(self.0@), ..config }
    }

    fn configure(self, config: &mut Config) {
        config.working_directory = Some(self.0);
    }
}

/// Appends bytes to the payload written to the child's standard input;
/// several `Stdin` values concatenate in call order.
pub struct Stdin(pub Vec<u8>);

impl Input for Stdin {
    open spec fn effect(self, config: ConfigView) -> ConfigView {
        ConfigView { stdin: config.stdin + self.0@, ..config }
    }

    fn configure(self, config: &mut Config) {
        let mut payload = self.0;
        config.stdin.append(&mut payload);
    }
}

/// Adds one environment variable on top of the child's inherited
/// environment; a later addition with the same key wins at launch.
pub struct Env(pub String, pub String);

impl Input for Env {
    open spec fn effect(self, config: ConfigView) -> ConfigView {
        ConfigView {
            added_environment_variables: config.added_environment_variables.push(
                (self.0@, self.1@),
            ),
            ..config
        }
    }

    fn configure(self, config: &mut Config) {
        let ghost additions_before = config.added_environment_variables.deep_view();
        let ghost key = self.0@;
        let ghost value = self.1@;
        config.added_environment_variables.push((self.0, self.1));
        proof {
            assert(config.added_environment_variables.deep_view() =~= additions_before.push(
                (key, value),
            ));
        }
    }
}

/// The empty input: changes nothing.
impl Input for () {
    open spec fn effect(self, config: ConfigView) -> ConfigView {
        config
    }

    fn configure(self, config: &mut Config) {
    }
}

impl<A: Input> Input for (A,) {
    open spec fn effect(self, config: ConfigView) -> ConfigView {
        self.0.effect(config)
    }

    fn configure(self, config: &mut Config) {
        let (a,) = self;
        a.configure(config);
    }
}

/// Inputs bundled in a tuple apply left to right.
impl<A: Input, B: Input> Input for (A, B) {
    open spec fn effect(self, config: ConfigView) -> ConfigView {
        self.1.effect(self.0.effect(config))
    }

    fn configure(self, config: &mut Config) {
        let (a, b) = self;
        a.configure(config);
        b.configure(config);
    }
}

impl<A: Input, B: Input, C: Input> Input for (A, B, C) {
    open spec fn effect(self, config: ConfigView) -> ConfigView {
        self.2.effect(self.1.effect(self.0.effect(config)))
    }

    fn configure(self, config: &mut Config) {
        let (a, b, c) = self;
        a.configure(config);
        b.configure(config);
        c.configure(config);
    }
}

impl<A: Input, B: Input, C: Input, D: Input> Input for (A, B, C, D) {
    open spec fn effect(self, config: ConfigView) -> ConfigView {
        self.3.effect(self.2.effect(self.1.effect(self.0.effect(config))))
    }

    fn configure(self, config: &mut Config) {
        let (a, b, c, d) = self;
        a.configure(config);
        b.configure(config);
        c.configure(config);
        d.configure(config);
    }
}

impl<A: Input, B: Input, C: Input, D: Input, E: Input> Input for (A, B, C, D, E) {
    open spec fn effect(self, config: ConfigView) -> ConfigView {
        self.4.effect(self.3.effect(self.2.effect(self.1.effect(self.0.effect(config)))))
    }

    fn configure(self, config: &mut Config) {
        let (a, b, c, d, e) = self;
        a.configure(config);
        b.configure(config);
        c.configure(config);
        d.configure(config);
        e.configure(config);
    }
}

impl<A: Input, B: Input, C: Input, D: Input, E: Input, F: Input> Input for (A, B, C, D, E, F) {
    open spec fn effect(self, config: ConfigView) -> ConfigView {
        self.5.effect(self.4.effect(self.3.effect(self.2.effect(self.1.effect(self.0.effect(config))))))
    }

    fn configure(self, config: &mut Config) {
        let (a, b, c, d, e, f) = self;
        a.configure(config);
        b.configure(config);
        c.configure(config);
        d.configure(config);
        e.configure(config);
        f.configure(config);
    }
}

impl<A: Input, B: Input, C: Input, D: Input, E: Input, F: Input, G: Input> Input for (A, B, C, D, E, F, G) {
    open spec fn effect(self, config: ConfigView) -> ConfigView {
        self.6.effect(self.5.effect(self.4.effect(self.3.effect(self.2.effect(self.1.effect(self.0.effect(config)))))))
    }

    fn configure(self, config: &mut Config) {
        let (a, b, c, d, e, f, g) = self;
        a.configure(config);
        b.configure(config);
        c.configure(config);
        d.configure(config);
        e.configure(config);
        f.configure(config);
        g.configure(config);
    }
}

impl<A: Input, B: Input, C: Input, D: Input, E: Input, F: Input, G: Input, H: Input> Input for (A, B, C, D, E, F, G, H) {
    open spec fn effect(self, config: ConfigView) -> ConfigView {
        self.7.effect(self.6.effect(self.5.effect(self.4.effect(self.3.effect(self.2.effect(self.1.effect(self.0.effect(config))))))))
    }

    fn configure(self, config: &mut Config) {
        let (a, b, c, d, e, f, g, h) = self;
        a.configure(config);
        b.configure(config);
        c.configure(config);
        d.configure(config);
        e.configure(config);
        f.configure(config);
        g.configure(config);
        h.configure(config);
    }
}

/// The combined effect of a sequence of inputs, applied left to right.
pub open spec fn inputs_effect<T: Input>(items: Seq<T>, config: ConfigView) -> ConfigView
    decreases items.len(),
{
    if items.len() == 0 {
        config
    } else {
        inputs_effect(items.drop_first(), items[0].effect(config))
    }
}

/// Every element of a vector is applied in order; elements are never
/// whitespace-split, whatever they are.
impl<T: Input> Input for Vec<T> {
    open spec fn effect(self, config: ConfigView) -> ConfigView {
        inputs_effect(self@, config)
    }

    fn configure(self, config: &mut Config) {
        let mut items = self;
        let ghost goal = inputs_effect(items@, config@);
        while items.len() > 0
            invariant
                inputs_effect(items@, config@) == goal,
            decreases items@.len(),
        {
            let ghost items_before = items@;
            let item = items.remove(0);
            proof {
                assert(items@ =~= items_before.drop_first());
            }
            item.configure(config);
        }
    }
}

/// Builds the configuration from `input`, lets `O` request its
/// captures, runs the child process, and converts the outcome. This is
/// the fallible entry point of the whole engine: every failure comes
/// back as an [`Error`] value. It blocks until the child has exited
/// and must be called from outside any async execution context: the
/// engine waits with `block_on`, which panics when called from within
/// one.
pub fn run_result<I: Input, O: Output>(input: I) -> (result: Result<O, Error>)
    ensures
        ({
            let requested = O::configure_spec(input.effect(default_config()));
            &&& requested.arguments.len() == 0 ==> (result matches Err(error) && error@
                is NoExecutableGiven)
            &&& result matches Ok(value) ==> exists|output: crate::child_output::ChildOutputView|
                {
                    &&& crate::child_output::run_outcome_consistent(requested, output)
                    &&& #[trigger] O::extraction(requested, output) matches Ok(extracted)
                        && extracted == value@
                }
            &&& result matches Err(error) ==> crate::child_output::launch_error(requested, error@)
                || exists|output: crate::child_output::ChildOutputView|
                {
                    &&& crate::child_output::run_outcome_consistent(requested, output)
                    &&& #[trigger] O::extraction(requested, output) matches Err(extracted)
                        && extracted == error@
                }
        }),
{
    let mut config = Config::default();
    input.configure(&mut config);
    ChildOutput::run_child_process_output::<O>(config)
}

} // verus!
