//! The ways in which an invocation can fail. Every one of them is final:
//! nothing is retried, and the process ends with a diagnostic.

use vstd::prelude::*;
use vstd::string::StringExecFns;

verus! {

/// The two sections that a configuration must hold.
#[derive(Clone, Copy, PartialEq, Eq, Debug, Structural)]
pub enum Section {
    /// The map from browser key to command.
    Browsers,
    /// The ordered rule table.
    Rules,
}

impl Section {
    /// The name of the section in the configuration document.
    pub open spec fn title(self) -> Seq<char> {
        match self {
            Section::Browsers => "browsers"@,
            Section::Rules => "rules"@,
        }
    }

    /// The name of the section in the configuration document.
    pub fn name(self) -> (name: &'static str)
        ensures
            name@ == self.title(),
    {
        match self {
            Section::Browsers => "browsers",
            Section::Rules => "rules",
        }
    }
}

/// Why an invocation failed.
#[derive(Debug, PartialEq, Eq)]
pub enum Failure {
    /// The configuration could not be read.
    ConfigMissing,
    /// The configuration is not a document of the expected shape.
    ConfigMalformed,
    /// The configuration lacks one of its two sections.
    ConfigSectionMissing(Section),
    /// The rule that matched names a browser that the configuration does not declare.
    UnknownBrowserKey(String),
    /// The browser's command could not be started.
    SpawnFailure,
    /// A record could not be written, or the executable's own path is not known.
    OsRegistrationFailure,
}

/// The mathematical content of a [`Failure`].
pub enum FailureModel {
    ConfigMissing,
    ConfigMalformed,
    ConfigSectionMissing(Section),
    UnknownBrowserKey(Seq<char>),
    SpawnFailure,
    OsRegistrationFailure,
}

impl View for Failure {
    type V = FailureModel;

    open spec fn view(&self) -> FailureModel {
        match self {
            Failure::ConfigMissing => FailureModel::ConfigMissing,
            Failure::ConfigMalformed => FailureModel::ConfigMalformed,
            Failure::ConfigSectionMissing(section) => FailureModel::ConfigSectionMissing(*section),
            Failure::UnknownBrowserKey(key) => FailureModel::UnknownBrowserKey(key@),
            Failure::SpawnFailure => FailureModel::SpawnFailure,
            Failure::OsRegistrationFailure => FailureModel::OsRegistrationFailure,
        }
    }
}

impl FailureModel {
    /// The diagnostic that goes with the failure.
    pub open spec fn diagnostic(self) -> Seq<char> {
        match self {
            FailureModel::ConfigMissing => "Failed to read config"@,
            FailureModel::ConfigMalformed => "Failed to parse config"@,
            FailureModel::ConfigSectionMissing(Section::Browsers) => "Browsers config section does not exist"@,
            FailureModel::ConfigSectionMissing(Section::Rules) => "Rules config section does not exist"@,
            FailureModel::UnknownBrowserKey(key) => "Unknown browser key: "@ + key,
            FailureModel::SpawnFailure => "Failed to execute command"@,
            FailureModel::OsRegistrationFailure => "Failed to register"@,
        }
    }
}

impl Failure {
    /// The diagnostic that goes with the failure.
    pub fn message(&self) -> (text: String)
        ensures
            text@ == self@.diagnostic(),
    {
        match self {
            Failure::ConfigMissing => String::from_str("Failed to read config"),
            Failure::ConfigMalformed => String::from_str("Failed to parse config"),
            Failure::ConfigSectionMissing(Section::Browsers) => String::from_str(
                "Browsers config section does not exist",
            ),
            Failure::ConfigSectionMissing(Section::Rules) => String::from_str("Rules config section does not exist"),
            Failure::UnknownBrowserKey(key) => {
                let mut text = String::from_str("Unknown browser key: ");
                text.append(key.as_str());
                text
            },
            Failure::SpawnFailure => String::from_str("Failed to execute command"),
            Failure::OsRegistrationFailure => String::from_str("Failed to register"),
        }
    }
}

} // verus!
