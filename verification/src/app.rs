//! The options that apply to every subcommand.

use vstd::prelude::*;
use vstd::string::*;
use crate::sso::{first_action, next_action, Action, Event, Stage, Subcommand};
use crate::text::{optional_string, optional_text};

verus! {

/// What a subcommand can learn about the invocation it runs in.
pub trait Context {
    /// The AWS CLI profile the user asked for.
    spec fn chosen_profile(&self) -> Option<Seq<char>>;

    /// The AWS region the user asked for.
    spec fn chosen_region(&self) -> Option<Seq<char>>;

    /// The AWS CLI profile the user asked for, if any.
    fn profile(&self) -> (profile: Option<&str>)
        ensures
            optional_text(profile) == self.chosen_profile(),
    ;

    /// The AWS region the user asked for, if any.
    fn region(&self) -> (region: Option<&str>)
        ensures
            optional_text(region) == self.chosen_region(),
    ;
}

/// The options of one invocation of the tool.
pub struct Application {
    /// The AWS CLI profile to use.
    profile: Option<String>,
    /// The AWS region to use, whatever the profile and the environment say.
    region: Option<String>,
    /// The account or service to log into.
    subcommand: Subcommand,
}

impl Context for Application {
    closed spec fn chosen_profile(&self) -> Option<Seq<char>> {
        match self.profile {
            Some(text) => Some(text@),
            None => None,
        }
    }

    closed spec fn chosen_region(&self) -> Option<Seq<char>> {
        match self.region {
            Some(text) => Some(text@),
            None => None,
        }
    }

    fn profile(&self) -> (profile: Option<&str>) {
        match &self.profile {
            Some(text) => Some(text.as_str()),
            None => None,
        }
    }

    fn region(&self) -> (region: Option<&str>) {
        match &self.region {
            Some(text) => Some(text.as_str()),
            None => None,
        }
    }
}

impl Application {
    /// The invocation with the given global options and subcommand.
    pub fn new(profile: Option<String>, region: Option<String>, subcommand: Subcommand) -> (app:
        Application)
        ensures
            app.chosen_profile() == optional_string(profile),
            app.chosen_region() == optional_string(region),
    {
        Application { profile, region, subcommand }
    }

    /// The first step of the requested subcommand: the stage it starts in and what to do
    /// first.
    pub fn start(&self) -> (step: (Stage, Action))
        ensures
            step.0 matches Stage::Probing { outputs } && outputs@.len() == 0,
            step.1@ == first_action(self.chosen_profile(), self.chosen_region()),
    {
        self.subcommand.start(self)
    }

    /// Carries the requested subcommand one step on: from the stage it is in and the outcome
    /// of what it last asked for, to the next stage and what to do next. There is no step
    /// where `event` is not the outcome of what was asked for in `stage`.
    pub fn execute(&self, stage: Stage, event: Event) -> (step: Option<(Stage, Action)>)
        ensures
            match step {
                Some((next, action)) => stage.accepts(event) && next.follows(stage, event)
                    && action@ == next_action(
                    self.chosen_profile(),
                    self.chosen_region(),
                    stage,
                    event,
                ),
                None => !stage.accepts(event),
            },
    {
        self.subcommand.execute(self, stage, event)
    }
}

} // verus!
