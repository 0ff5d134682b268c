//! From an invocation to what is to be done.
//!
//! Without an argument the program registers itself. The shell's own
//! commands are told apart from URLs by their exact spelling. Anything else
//! is a URL, which goes to the browser of the first rule that applies, or
//! nowhere when no rule does.

use vstd::prelude::*;
use crate::browsers::BrowserMap;
use crate::config::{Config, ConfigModel};
use crate::failure::{Failure, FailureModel};
use crate::registry::{HIDE_ICONS_COMMAND, REGISTER_COMMAND, SHOW_ICONS_COMMAND};
use crate::rules::{selection, RuleModel, RuleTable};
use crate::text::same;

verus! {

/// What the command line asks for.
#[derive(Debug, PartialEq, Eq)]
pub enum Invocation {
    /// Declare the program to the shell.
    Register,
    /// The shell asks to hide the program's icons.
    HideIcons,
    /// The shell asks to show the program's icons.
    ShowIcons,
    /// Open a URL.
    Open(String),
}

/// The mathematical content of an [`Invocation`].
pub enum InvocationModel {
    Register,
    HideIcons,
    ShowIcons,
    Open(Seq<char>),
}

impl View for Invocation {
    type V = InvocationModel;

    open spec fn view(&self) -> InvocationModel {
        match self {
            Invocation::Register => InvocationModel::Register,
            Invocation::HideIcons => InvocationModel::HideIcons,
            Invocation::ShowIcons => InvocationModel::ShowIcons,
            Invocation::Open(url) => InvocationModel::Open(url@),
        }
    }
}

/// What the first argument means: none, or the word that asks for it, is a
/// registration; the two icon commands are themselves; all else is a URL.
pub open spec fn invocation_of(argument: Option<Seq<char>>) -> InvocationModel {
    match argument {
        None => InvocationModel::Register,
        Some(word) => if word == REGISTER_COMMAND@ {
            InvocationModel::Register
        } else if word == HIDE_ICONS_COMMAND@ {
            InvocationModel::HideIcons
        } else if word == SHOW_ICONS_COMMAND@ {
            InvocationModel::ShowIcons
        } else {
            InvocationModel::Open(word)
        },
    }
}

/// Reads the first argument of the command line, if there is one.
pub fn classify(argument: Option<&str>) -> (invocation: Invocation)
    ensures
        invocation@ == invocation_of(
            match argument {
                Some(word) => Some(word@),
                None => None,
            },
        ),
{
    match argument {
        None => Invocation::Register,
        Some(word) => {
            if same(word, REGISTER_COMMAND) {
                Invocation::Register
            } else if same(word, HIDE_ICONS_COMMAND) {
                Invocation::HideIcons
            } else if same(word, SHOW_ICONS_COMMAND) {
                Invocation::ShowIcons
            } else {
                Invocation::Open(word.to_owned())
            }
        },
    }
}

/// A browser to start: its command, and the URL that is its only argument.
#[derive(Debug, PartialEq, Eq)]
pub struct Launch {
    pub command: String,
    pub url: String,
}

/// The mathematical content of a [`Launch`].
pub struct LaunchModel {
    pub command: Seq<char>,
    pub url: Seq<char>,
}

impl View for Launch {
    type V = LaunchModel;

    open spec fn view(&self) -> LaunchModel {
        LaunchModel { command: self.command@, url: self.url@ }
    }
}

/// What becomes of a URL: nothing where no rule applies; the launch of the
/// selected browser where the browsers declare its key; a failure where they do not.
pub open spec fn dispatched(
    rules: Seq<RuleModel>,
    browsers: Map<Seq<char>, Seq<char>>,
    url: Seq<char>,
) -> Result<Option<LaunchModel>, FailureModel> {
    match selection(rules, url) {
        None => Ok(None),
        Some(key) => if browsers.contains_key(key) {
            Ok(Some(LaunchModel { command: browsers[key], url }))
        } else {
            Err(FailureModel::UnknownBrowserKey(key))
        },
    }
}

/// The mathematical content of the outcome of a dispatch.
pub open spec fn outcome_model(outcome: Result<Option<Launch>, Failure>) -> Result<Option<LaunchModel>, FailureModel> {
    match outcome {
        Ok(None) => Ok(None),
        Ok(Some(launch)) => Ok(Some(launch@)),
        Err(failure) => Err(failure@),
    }
}

/// Decides what to do with `url`. The browser's key is looked up only once a
/// rule has selected it, so a rule may name an undeclared browser without
/// harm until a URL reaches it.
pub fn dispatch(rules: &RuleTable, browsers: &BrowserMap, url: &str) -> (outcome: Result<Option<Launch>, Failure>)
    ensures
        outcome_model(outcome) == dispatched(rules@, browsers@, url@),
{
    match rules.select(url) {
        None => Ok(None),
        Some(key) => match browsers.get(key) {
            Some(command) => Ok(Some(Launch { command: command.to_owned(), url: url.to_owned() })),
            None => Err(Failure::UnknownBrowserKey(key.to_owned())),
        },
    }
}

/// What one invocation comes to.
#[derive(Debug, PartialEq, Eq)]
pub enum Task {
    /// Run the registration.
    Register,
    /// Start a browser, and do not wait for it.
    Launch(Launch),
    /// Do nothing, and end well.
    Nothing,
}

/// The mathematical content of a [`Task`].
pub enum TaskModel {
    Register,
    Launch(LaunchModel),
    Nothing,
}

impl View for Task {
    type V = TaskModel;

    open spec fn view(&self) -> TaskModel {
        match self {
            Task::Register => TaskModel::Register,
            Task::Launch(launch) => TaskModel::Launch(launch@),
            Task::Nothing => TaskModel::Nothing,
        }
    }
}

/// What an invocation comes to: a registration, for a registration; nothing,
/// for the icon commands and for a URL that no rule applies to; for any
/// other URL what its dispatch gives.
pub open spec fn task_of(config: ConfigModel, argument: Option<Seq<char>>) -> Result<TaskModel, FailureModel> {
    match invocation_of(argument) {
        InvocationModel::Register => Ok(TaskModel::Register),
        InvocationModel::HideIcons => Ok(TaskModel::Nothing),
        InvocationModel::ShowIcons => Ok(TaskModel::Nothing),
        InvocationModel::Open(url) => match dispatched(config.rules, config.browsers, url) {
            Ok(None) => Ok(TaskModel::Nothing),
            Ok(Some(launch)) => Ok(TaskModel::Launch(launch)),
            Err(failure) => Err(failure),
        },
    }
}

/// The mathematical content of the outcome of [`task_for`].
pub open spec fn task_model(outcome: Result<Task, Failure>) -> Result<TaskModel, FailureModel> {
    match outcome {
        Ok(task) => Ok(task@),
        Err(failure) => Err(failure@),
    }
}

/// Decides what an invocation comes to, from the configuration and the
/// first argument of the command line, if there is one.
pub fn task_for(config: &Config, argument: Option<&str>) -> (outcome: Result<Task, Failure>)
    ensures
        task_model(outcome) == task_of(
            config@,
            match argument {
                Some(word) => Some(word@),
                None => None,
            },
        ),
{
    match classify(argument) {
        Invocation::Register => Ok(Task::Register),
        Invocation::HideIcons => Ok(Task::Nothing),
        Invocation::ShowIcons => Ok(Task::Nothing),
        Invocation::Open(url) => match dispatch(&config.rules, &config.browsers, url.as_str()) {
            Ok(None) => Ok(Task::Nothing),
            Ok(Some(launch)) => Ok(Task::Launch(launch)),
            Err(failure) => Err(failure),
        },
    }
}

/// No match, no action: a URL that no rule applies to is dispatched to nothing.
pub proof fn law_unmatched_url_launches_nothing(
    rules: Seq<RuleModel>,
    browsers: Map<Seq<char>, Seq<char>>,
    url: Seq<char>,
)
    requires
        selection(rules, url) is None,
    ensures
        dispatched(rules, browsers, url) == Ok::<Option<LaunchModel>, FailureModel>(None),
{
}

/// An unknown key fails the dispatch and not the selection: the rule is
/// selected all the same, and the failure names its key.
pub proof fn law_unknown_key_fails_at_dispatch(
    rules: Seq<RuleModel>,
    browsers: Map<Seq<char>, Seq<char>>,
    url: Seq<char>,
    key: Seq<char>,
)
    requires
        selection(rules, url) == Some(key),
        !browsers.contains_key(key),
    ensures
        dispatched(rules, browsers, url) == Err::<Option<LaunchModel>, FailureModel>(
            FailureModel::UnknownBrowserKey(key),
        ),
{
}

} // verus!
