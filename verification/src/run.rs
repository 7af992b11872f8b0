//! Building the command line of an external program, and turning what the finished process
//! left behind into a typed outcome.

use vstd::prelude::*;
use vstd::string::*;
use crate::app::Context;
use crate::error::{texts, text_result_view, unit_result_view, Error, ErrorView};
use crate::text::{decode_lossy, utf8_lossy};

verus! {

/// What a [`Run`] holds, as mathematical values.
pub struct RunView {
    /// The name of the program to launch.
    pub program: Seq<char>,
    /// The arguments it is given, in order.
    pub arguments: Seq<Seq<char>>,
}

/// The command line of an external program: its name and its arguments in order.
pub struct Run {
    program: String,
    arguments: Vec<String>,
}

impl View for Run {
    type V = RunView;

    closed spec fn view(&self) -> RunView {
        RunView { program: self.program@, arguments: texts(self.arguments@) }
    }
}

/// How a process ended: with an exit code, or without one where a signal ended it.
#[derive(Clone, Copy, Debug, PartialEq, Eq, Structural)]
pub struct ExitStatus {
    /// The exit code, where the process gave one.
    pub code: Option<i32>,
}

impl ExitStatus {
    /// Whether the process ended with exit code zero.
    pub open spec fn succeeded(self) -> bool {
        self.code == Some(0i32)
    }

    /// The exit code, or `fallback` where the process gave none.
    pub open spec fn code_or_spec(self, fallback: i32) -> i32 {
        match self.code {
            Some(code) => code,
            None => fallback,
        }
    }

    /// Whether the process ended with exit code zero.
    pub fn success(&self) -> (yes: bool)
        ensures
            yes == self.succeeded(),
    {
        match self.code {
            Some(code) => code == 0,
            None => false,
        }
    }

    /// The exit code, or `fallback` where the process gave none.
    pub fn code_or(&self, fallback: i32) -> (code: i32)
        ensures
            code == self.code_or_spec(fallback),
    {
        match self.code {
            Some(code) => code,
            None => fallback,
        }
    }
}

/// What a finished process left behind when its output was captured.
#[derive(Debug)]
pub struct ProcessOutput {
    /// How the process ended.
    pub status: ExitStatus,
    /// The bytes it wrote to standard output.
    pub stdout: Vec<u8>,
    /// The bytes it wrote to standard error.
    pub stderr: Vec<u8>,
}

/// The failure that stands for an I/O error with the given text: code 1, the text as message.
pub open spec fn io_failure(text: Seq<char>) -> ErrorView {
    ErrorView { code: 1, message: Some(text), context: Seq::empty() }
}

/// The outcome of a finished process with the given status, whose standard output and
/// standard error read `stdout` and `stderr`.
pub open spec fn settled(status: ExitStatus, stdout: Seq<char>, stderr: Seq<char>) -> Result<
    Seq<char>,
    ErrorView,
> {
    if status.succeeded() {
        Ok(stdout)
    } else {
        Err(
            ErrorView {
                code: status.code_or_spec(1) as int,
                message: Some(stderr),
                context: Seq::empty(),
            },
        )
    }
}

/// The outcome of a captured run: `spawned` holds the status and the two decoded streams, or
/// the text of the I/O error that kept the process from running.
pub open spec fn captured_outcome(
    spawned: Result<(ExitStatus, Seq<char>, Seq<char>), Seq<char>>,
) -> Result<Seq<char>, ErrorView> {
    match spawned {
        Ok((status, stdout, stderr)) => settled(status, stdout, stderr),
        Err(text) => Err(io_failure(text)),
    }
}

/// The outcome of a relayed run, from what waiting for the process gave and how the relays of
/// standard error and standard output ended.
pub open spec fn relayed_outcome(
    waited: Result<ExitStatus, Seq<char>>,
    stderr_relay: Result<(), ErrorView>,
    stdout_relay: Result<(), ErrorView>,
) -> Result<(), ErrorView> {
    if let Err(error) = stderr_relay {
        Err(error)
    } else if let Err(error) = stdout_relay {
        Err(error)
    } else {
        match waited {
            Err(text) => Err(io_failure(text)),
            Ok(status) => if status.succeeded() {
                Ok(())
            } else {
                Err(
                    ErrorView {
                        code: status.code_or_spec(1) as int,
                        message: None,
                        context: Seq::empty(),
                    },
                )
            },
        }
    }
}

/// A relayed run succeeds exactly where both relays ended normally, the process could be
/// waited for, and it ended with status zero.
pub proof fn relayed_run_succeeds_iff_exit_zero(
    waited: Result<ExitStatus, Seq<char>>,
    stderr_relay: Result<(), ErrorView>,
    stdout_relay: Result<(), ErrorView>,
)
    ensures
        relayed_outcome(waited, stderr_relay, stdout_relay) is Ok <==> stderr_relay is Ok
            && stdout_relay is Ok && waited == Ok::<ExitStatus, Seq<char>>(
            ExitStatus { code: Some(0i32) },
        ),
{
}

/// The outcome of a finished process from its status and its two streams as text: the
/// standard output where the status is zero, else a failure with the exit code (1 where
/// there is none) and the standard error as its message.
pub fn settle(status: ExitStatus, stdout: String, stderr: String) -> (outcome: Result<
    String,
    Error,
>)
    ensures
        text_result_view(outcome) == settled(status, stdout@, stderr@),
{
    if status.success() {
        Ok(stdout)
    } else {
        Err(Error::new(status.code_or(1)).with_message(stderr))
    }
}

impl RunView {
    /// This command line with one more argument at its end.
    pub open spec fn arg(self, value: Seq<char>) -> RunView {
        RunView { arguments: self.arguments.push(value), ..self }
    }

    /// This command line after one call of `arg` for each of `values`, in their order.
    pub open spec fn args(self, values: Seq<Seq<char>>) -> RunView
        decreases values.len(),
    {
        if values.len() == 0 {
            self
        } else {
            self.args(values.drop_last()).arg(values.last())
        }
    }

    /// This command line with the global options of the AWS CLI added.
    pub open spec fn with_aws_options(
        self,
        profile: Option<Seq<char>>,
        region: Option<Seq<char>>,
    ) -> RunView {
        RunView { arguments: self.arguments + aws_options(profile, region), ..self }
    }
}

/// Arguments stay in the order of the calls that added them: after any series of calls of
/// `arg`, the command line holds what it held before, followed by the values of the calls,
/// first call first, and the program is unchanged.
pub proof fn arguments_keep_call_order(run: RunView, values: Seq<Seq<char>>)
    ensures
        run.args(values).arguments == run.arguments + values,
        run.args(values).program == run.program,
    decreases values.len(),
{
    if values.len() == 0 {
        assert(run.arguments + values =~= run.arguments);
    } else {
        arguments_keep_call_order(run, values.drop_last());
        assert((run.arguments + values.drop_last()).push(values.last()) =~= run.arguments
            + values);
    }
}

/// With a profile and a region, the global options stand as `--profile`, the profile,
/// `--region`, the region, behind every argument added before them and ahead of every
/// argument added after them. With neither, nothing is added.
pub proof fn global_options_stand_between(
    run: RunView,
    profile: Seq<char>,
    region: Seq<char>,
    later: Seq<Seq<char>>,
)
    ensures
        run.with_aws_options(Some(profile), Some(region)).args(later).arguments
            == run.arguments + seq!["--profile"@, profile, "--region"@, region] + later,
        run.with_aws_options(None, None).args(later).arguments == run.arguments + later,
        run.with_aws_options(None, None) == run,
{
    arguments_keep_call_order(run.with_aws_options(Some(profile), Some(region)), later);
    arguments_keep_call_order(run.with_aws_options(None, None), later);
    assert(aws_options(Some(profile), Some(region)) =~= seq![
        "--profile"@,
        profile,
        "--region"@,
        region,
    ]);
    assert(run.arguments + aws_options(None, None) =~= run.arguments);
}

/// The arguments that carry the global options: `--profile` with its value, then `--region`
/// with its value, each pair only where the option was given.
pub open spec fn aws_options(
    profile: Option<Seq<char>>,
    region: Option<Seq<char>>,
) -> Seq<Seq<char>> {
    let first = match profile {
        Some(value) => seq!["--profile"@, value],
        None => Seq::empty(),
    };
    let second = match region {
        Some(value) => seq!["--region"@, value],
        None => Seq::empty(),
    };
    first + second
}

impl Run {
    /// Starts the command line of the program `name`, with no arguments yet.
    pub fn new(name: &str) -> (run: Run)
        ensures
            run@ == (RunView { program: name@, arguments: Seq::empty() }),
    {
        let run = Run { program: name.to_owned(), arguments: Vec::new() };
        assert(texts(run.arguments@) =~= Seq::empty());
        run
    }

    /// Appends one argument after those already there.
    pub fn arg(&mut self, arg: &str) -> (run: &mut Run)
        ensures
            run@ == old(self)@.arg(arg@),
            *final(self) == *final(run),
    {
        self.arguments.push(arg.to_owned());
        assert(texts(self.arguments@) =~= texts(old(self).arguments@).push(arg@));
        self
    }

    /// Adds the global options of the AWS CLI that the user gave: `--profile` and its value,
    /// then `--region` and its value. An option that was not given adds nothing.
    pub fn with_aws_options<C: Context>(&mut self, context: &C) -> (run: &mut Run)
        ensures
            run@ == old(self)@.with_aws_options(context.chosen_profile(), context.chosen_region()),
            *final(self) == *final(run),
    {
        if let Some(profile) = context.profile() {
            self.arg("--profile").arg(profile);
        }
        if let Some(region) = context.region() {
            self.arg("--region").arg(region);
        }
        assert(self@.arguments =~= old(self)@.arguments + aws_options(
            context.chosen_profile(),
            context.chosen_region(),
        ));
        self
    }

    /// The outcome of a run whose output was captured. `spawned` is what launching the
    /// process and waiting for it gave: what the process left behind, or the text of the
    /// I/O error that kept it from running.
    ///
    /// A process that ended with status zero gives its standard output, decoded as UTF-8
    /// with replacement characters. Any other gives a failure with its exit code (1 where
    /// it has none) and its decoded standard error as the message. An I/O error gives a
    /// failure with code 1 and the error's text.
    pub fn output(&self, spawned: Result<ProcessOutput, String>) -> (outcome: Result<String, Error>)
        ensures
            text_result_view(outcome) == captured_outcome(
                match spawned {
                    Ok(output) => Ok(
                        (output.status, utf8_lossy(output.stdout@), utf8_lossy(output.stderr@)),
                    ),
                    Err(text) => Err(text@),
                },
            ),
    {
        match spawned {
            Ok(output) => {
                let stdout = decode_lossy(output.stdout.as_slice());
                let stderr = decode_lossy(output.stderr.as_slice());
                settle(output.status, stdout, stderr)
            },
            Err(text) => Err(Error::new(1).with_message(text)),
        }
    }

    /// The outcome of a run whose output was relayed while it ran. `stderr_relay` and
    /// `stdout_relay` are how the two relays ended, `waited` is what waiting for the process
    /// gave: its exit status, or the text of the I/O error that kept it from running.
    ///
    /// A relay that failed decides the outcome, the one of standard error before the one of
    /// standard output. Otherwise an I/O error gives a failure with code 1 and the error's
    /// text, and an exit status other than zero a failure with that code (1 where there is
    /// none) and no message. Only a process that ended with status zero is a success.
    pub fn pass_through(
        &self,
        waited: Result<ExitStatus, String>,
        stderr_relay: Result<(), Error>,
        stdout_relay: Result<(), Error>,
    ) -> (outcome: Result<(), Error>)
        ensures
            unit_result_view(outcome) == relayed_outcome(
                match waited {
                    Ok(status) => Ok(status),
                    Err(text) => Err(text@),
                },
                unit_result_view(stderr_relay),
                unit_result_view(stdout_relay),
            ),
    {
        if let Err(error) = stderr_relay {
            return Err(error);
        }
        if let Err(error) = stdout_relay {
            return Err(error);
        }
        match waited {
            Err(text) => Err(Error::new(1).with_message(text)),
            Ok(status) => {
                if status.success() {
                    Ok(())
                } else {
                    Err(Error::new(status.code_or(1)))
                }
            },
        }
    }

    /// The name of the program.
    pub fn program(&self) -> (name: &str)
        ensures
            name@ == self@.program,
    {
        self.program.as_str()
    }

    /// The arguments added so far, in the order in which they were added.
    pub fn get_args(&self) -> (arguments: &Vec<String>)
        ensures
            texts(arguments@) == self@.arguments,
    {
        &self.arguments
    }
}

} // verus!
