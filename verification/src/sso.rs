//! Logging into an AWS account through SSO.
//!
//! The subcommand first asks the AWS CLI for each setting that SSO needs. Where the active
//! profile has them all it logs in, otherwise it lets the AWS CLI configure the profile. The
//! processes themselves run elsewhere: the subcommand is a state machine that says which
//! command to run next and takes the outcome of each run.

use vstd::prelude::*;
use vstd::string::*;
use crate::app::Context;
use crate::error::{unit_result_view, Error, ErrorView};
use crate::run::{aws_options, Run, RunView};
use crate::text::{blank, is_blank};

verus! {

/// The settings of a profile that SSO needs, in the order in which they are asked for.
pub open spec fn required_settings() -> Seq<Seq<char>> {
    seq!["sso_account_id"@, "sso_region"@, "sso_role_name"@, "sso_start_url"@]
}

/// The number of settings that SSO needs.
pub const REQUIRED_SETTINGS: usize = 4;

/// The name of the setting that is asked for at position `index`.
pub fn required_setting(index: usize) -> (key: &'static str)
    requires
        index < REQUIRED_SETTINGS,
    ensures
        key@ == required_settings()[index as int],
{
    if index == 0 {
        "sso_account_id"
    } else if index == 1 {
        "sso_region"
    } else if index == 2 {
        "sso_role_name"
    } else {
        "sso_start_url"
    }
}

/// Whether the outcome of asking for a setting shows that the setting is there: the AWS CLI
/// succeeded and printed more than white space.
pub open spec fn shows_setting(output: Result<String, Error>) -> bool {
    match output {
        Ok(value) => !blank(value@),
        Err(_) => false,
    }
}

/// How many of `outputs` show that their setting is there.
pub open spec fn settings_found(outputs: Seq<Result<String, Error>>) -> nat
    decreases outputs.len(),
{
    if outputs.len() == 0 {
        0
    } else {
        settings_found(outputs.drop_last()) + if shows_setting(outputs.last()) {
            1nat
        } else {
            0nat
        }
    }
}

/// Whether the active profile is fully configured for SSO, from the outcomes of asking the
/// AWS CLI for each required setting: as many of them must show their setting as there are
/// required settings. A failed query counts as a setting that is absent, and is no failure
/// of the check.
pub fn is_configured(outputs: &Vec<Result<String, Error>>) -> (configured: Result<bool, Error>)
    ensures
        configured matches Ok(yes) && yes == (settings_found(outputs@) == REQUIRED_SETTINGS),
{
    let mut has: usize = 0;
    let mut i: usize = 0;
    while i < outputs.len()
        invariant
            i <= outputs.len(),
            has == settings_found(outputs@.take(i as int)),
            has <= i,
        decreases outputs.len() - i,
    {
        assert(outputs@.take(i + 1).drop_last() =~= outputs@.take(i as int));
        if let Ok(value) = &outputs[i] {
            if !is_blank(value.as_str()) {
                has += 1;
            }
        }
        i += 1;
    }
    assert(outputs@.take(i as int) =~= outputs@);
    Ok(has == REQUIRED_SETTINGS)
}

/// The command line `aws`, the global options, then `tail`.
pub open spec fn aws_command(
    profile: Option<Seq<char>>,
    region: Option<Seq<char>>,
    tail: Seq<Seq<char>>,
) -> RunView {
    RunView { program: "aws"@, arguments: aws_options(profile, region) + tail }
}

/// The command that asks the AWS CLI for the value of the setting `key`.
pub fn probe<C: Context>(context: &C, key: &str) -> (run: Run)
    ensures
        run@ == aws_command(
            context.chosen_profile(),
            context.chosen_region(),
            seq!["configure"@, "get"@, key@],
        ),
{
    let mut run = Run::new("aws");
    run.with_aws_options(context).arg("configure").arg("get").arg(key);
    assert(run@.arguments =~= aws_options(context.chosen_profile(), context.chosen_region())
        + seq!["configure"@, "get"@, key@]);
    run
}

/// Where the subcommand stands.
pub enum Stage {
    /// It is asking for the required settings; `outputs` holds the outcomes so far.
    Probing { outputs: Vec<Result<String, Error>> },
    /// It is waiting for `aws sso login` to end.
    LoggingIn,
    /// It is waiting for `aws configure sso` to end.
    Configuring,
    /// It has said how the invocation ends.
    Finished,
}

/// The outcome of what the subcommand last asked for.
pub enum Event {
    /// A command was run with its output captured.
    Captured(Result<String, Error>),
    /// A command was run with its output relayed.
    Relayed(Result<(), Error>),
}

/// What the subcommand asks for next.
pub enum Action {
    /// Run the command, capture its output, and come back with `Event::Captured`.
    Capture(Run),
    /// Run the command, relay its output, and come back with `Event::Relayed`.
    PassThrough(Run),
    /// End the invocation with this outcome.
    Exit(Result<(), Error>),
}

/// What an [`Action`] holds, as mathematical values.
pub enum ActionView {
    /// Run with captured output.
    Capture(RunView),
    /// Run with relayed output.
    PassThrough(RunView),
    /// End with this outcome.
    Exit(Result<(), ErrorView>),
}

impl View for Action {
    type V = ActionView;

    open spec fn view(&self) -> ActionView {
        match *self {
            Action::Capture(run) => ActionView::Capture(run@),
            Action::PassThrough(run) => ActionView::PassThrough(run@),
            Action::Exit(outcome) => ActionView::Exit(unit_result_view(outcome)),
        }
    }
}

impl Stage {
    /// Whether `event` is the outcome of what was asked for in this stage.
    pub open spec fn accepts(self, event: Event) -> bool {
        match self {
            Stage::Probing { outputs } => outputs@.len() < REQUIRED_SETTINGS
                && event is Captured,
            Stage::LoggingIn => event is Relayed,
            Stage::Configuring => event is Relayed,
            Stage::Finished => false,
        }
    }

    /// Whether this is the stage that comes after `before` once `event` has happened.
    pub open spec fn follows(self, before: Stage, event: Event) -> bool {
        match (before, event) {
            (Stage::Probing { outputs }, Event::Captured(output)) => {
                let all = outputs@.push(output);
                if all.len() < REQUIRED_SETTINGS {
                    self matches Stage::Probing { outputs: now } && now@ == all
                } else if settings_found(all) == REQUIRED_SETTINGS {
                    self is LoggingIn
                } else {
                    self is Configuring
                }
            },
            _ => self is Finished,
        }
    }
}

/// The outcome of a relayed command, with `operation` added to a failure as the description
/// of what was being done.
pub open spec fn in_context(outcome: Result<(), Error>, operation: Seq<char>) -> Result<
    (),
    ErrorView,
> {
    match outcome {
        Ok(_) => Ok(()),
        Err(error) => Err(ErrorView { context: error@.context.push(operation), ..error@ }),
    }
}

/// What the subcommand asks for first: the value of the first required setting.
pub open spec fn first_action(profile: Option<Seq<char>>, region: Option<Seq<char>>) -> ActionView {
    ActionView::Capture(
        aws_command(profile, region, seq!["configure"@, "get"@, required_settings()[0]]),
    )
}

/// What the subcommand asks for in `stage` once `event` has happened.
pub open spec fn next_action(
    profile: Option<Seq<char>>,
    region: Option<Seq<char>>,
    stage: Stage,
    event: Event,
) -> ActionView
    recommends
        stage.accepts(event),
{
    match (stage, event) {
        (Stage::Probing { outputs }, Event::Captured(output)) => {
            let all = outputs@.push(output);
            if all.len() < REQUIRED_SETTINGS {
                ActionView::Capture(
                    aws_command(
                        profile,
                        region,
                        seq!["configure"@, "get"@, required_settings()[all.len() as int]],
                    ),
                )
            } else if settings_found(all) == REQUIRED_SETTINGS {
                ActionView::PassThrough(aws_command(profile, region, seq!["sso"@, "login"@]))
            } else {
                ActionView::PassThrough(aws_command(profile, region, seq!["configure"@, "sso"@]))
            }
        },
        (Stage::LoggingIn, Event::Relayed(outcome)) => ActionView::Exit(
            in_context(outcome, "Could not log in via SSO."@),
        ),
        (Stage::Configuring, Event::Relayed(outcome)) => ActionView::Exit(
            in_context(outcome, "Could not configure AWS CLI profile for SSO."@),
        ),
        _ => ActionView::Exit(Ok(())),
    }
}

/// The outcome of a relayed command, with `operation` added to a failure as the description
/// of what was being done.
fn add_context(outcome: Result<(), Error>, operation: &str) -> (result: Result<(), Error>)
    ensures
        unit_result_view(result) == in_context(outcome, operation@),
{
    match outcome {
        Ok(_) => Ok(()),
        Err(error) => Err(error.with_context(operation.to_owned())),
    }
}

/// The options of the subcommand. It has none.
pub struct Subcommand {}

impl Subcommand {
    /// The first step: the stage in which no setting has been asked for, and the command
    /// that asks for the first one.
    pub fn start<C: Context>(&self, context: &C) -> (step: (Stage, Action))
        ensures
            step.0 matches Stage::Probing { outputs } && outputs@.len() == 0,
            step.1@ == first_action(context.chosen_profile(), context.chosen_region()),
    {
        (Stage::Probing { outputs: Vec::new() }, Action::Capture(probe(context, required_setting(0))))
    }

    /// Carries the subcommand one step on: from the stage it is in and the outcome of what
    /// it last asked for, to the next stage and what to do next.
    ///
    /// While settings remain, the next one is asked for. Once all outcomes are in, the AWS
    /// CLI is run with `sso login` where every setting was found and with `configure sso`
    /// otherwise, its output relayed. When that command has ended, its outcome ends the
    /// invocation, a failure with the description of what was being done. There is no step
    /// where `event` is not the outcome of what was asked for in `stage`.
    pub fn execute<C: Context>(&self, context: &C, stage: Stage, event: Event) -> (step: Option<
        (Stage, Action),
    >)
        ensures
            match step {
                Some((next, action)) => stage.accepts(event) && next.follows(stage, event)
                    && action@ == next_action(
                    context.chosen_profile(),
                    context.chosen_region(),
                    stage,
                    event,
                ),
                None => !stage.accepts(event),
            },
    {
        match stage {
            Stage::Probing { outputs } => {
                let mut outputs = outputs;
                if outputs.len() >= REQUIRED_SETTINGS {
                    return None;
                }
                match event {
                    Event::Captured(output) => {
                        outputs.push(output);
                        if outputs.len() < REQUIRED_SETTINGS {
                            let key = required_setting(outputs.len());
                            let run = probe(context, key);
                            Some((Stage::Probing { outputs }, Action::Capture(run)))
                        } else {
                            match is_configured(&outputs) {
                                Ok(true) => {
                                    let mut run = Run::new("aws");
                                    run.with_aws_options(context).arg("sso").arg("login");
                                    assert(run@.arguments =~= aws_options(
                                        context.chosen_profile(),
                                        context.chosen_region(),
                                    ) + seq!["sso"@, "login"@]);
                                    Some((Stage::LoggingIn, Action::PassThrough(run)))
                                },
                                Ok(false) => {
                                    let mut run = Run::new("aws");
                                    run.with_aws_options(context).arg("configure").arg("sso");
                                    assert(run@.arguments =~= aws_options(
                                        context.chosen_profile(),
                                        context.chosen_region(),
                                    ) + seq!["configure"@, "sso"@]);
                                    Some((Stage::Configuring, Action::PassThrough(run)))
                                },
                                Err(error) => Some((Stage::Finished, Action::Exit(Err(error)))),
                            }
                        }
                    },
                    Event::Relayed(_) => None,
                }
            },
            Stage::LoggingIn => match event {
                Event::Relayed(outcome) => Some(
                    (
                        Stage::Finished,
                        Action::Exit(add_context(outcome, "Could not log in via SSO.")),
                    ),
                ),
                Event::Captured(_) => None,
            },
            Stage::Configuring => match event {
                Event::Relayed(outcome) => Some(
                    (
                        Stage::Finished,
                        Action::Exit(
                            add_context(outcome, "Could not configure AWS CLI profile for SSO."),
                        ),
                    ),
                ),
                Event::Captured(_) => None,
            },
            Stage::Finished => None,
        }
    }
}

} // verus!
