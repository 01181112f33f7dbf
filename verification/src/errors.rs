//! The failures of a run and how far each one reaches.

use vstd::prelude::*;

verus! {

/// What can fail.
#[derive(Debug, Clone, Copy, PartialEq, Eq, Structural)]
pub enum LaunchError {
    /// The target is missing or is no directory.
    NotADirectory,
    /// The target holds no project of a known kind.
    UnrecognizedProjectType,
    /// The settings file is malformed.
    ConfigParseError,
    /// The settings could not be written.
    ConfigWriteError,
    /// The file of recent projects is malformed.
    RegistryParseError,
    /// No recent project has the given index.
    InvalidIndex,
    /// Neither the target nor the directory that holds it is a repository.
    NoVersionControlFound,
    /// A tool could not be started.
    ExternalToolSpawnFailed,
}

/// How far a failure reaches.
#[derive(Debug, Clone, Copy, PartialEq, Eq, Structural)]
pub enum Severity {
    /// The run ends where it stands.
    Fatal,
    /// The command ends; nothing was changed and nothing is.
    AbortsCommand,
    /// One step of the launch is left out; the others go on, and the
    /// project still counts as opened.
    SkipsStep,
}

/// How far `error` reaches.
pub open spec fn severity_of(error: LaunchError) -> Severity {
    match error {
        LaunchError::ConfigParseError => Severity::Fatal,
        LaunchError::ConfigWriteError => Severity::Fatal,
        LaunchError::RegistryParseError => Severity::Fatal,
        LaunchError::NotADirectory => Severity::AbortsCommand,
        LaunchError::UnrecognizedProjectType => Severity::AbortsCommand,
        LaunchError::InvalidIndex => Severity::AbortsCommand,
        LaunchError::NoVersionControlFound => Severity::SkipsStep,
        LaunchError::ExternalToolSpawnFailed => Severity::SkipsStep,
    }
}

impl LaunchError {
    /// How far the failure reaches.
    pub fn severity(&self) -> (severity: Severity)
        ensures
            severity == severity_of(*self),
    {
        match self {
            LaunchError::ConfigParseError => Severity::Fatal,
            LaunchError::ConfigWriteError => Severity::Fatal,
            LaunchError::RegistryParseError => Severity::Fatal,
            LaunchError::NotADirectory => Severity::AbortsCommand,
            LaunchError::UnrecognizedProjectType => Severity::AbortsCommand,
            LaunchError::InvalidIndex => Severity::AbortsCommand,
            LaunchError::NoVersionControlFound => Severity::SkipsStep,
            LaunchError::ExternalToolSpawnFailed => Severity::SkipsStep,
        }
    }

    /// Whether a project is still recorded as opened after the failure:
    /// only a failure of one launch step leaves the record in place.
    pub fn keeps_record(&self) -> (kept: bool)
        ensures
            kept == (severity_of(*self) == Severity::SkipsStep),
    {
        match self.severity() {
            Severity::SkipsStep => true,
            _ => false,
        }
    }
}

} // verus!
