//! Telling what kind of project a directory holds from the entries found
//! in it.

use crate::text::{lowercase_of, to_lowercase};
use vstd::prelude::*;
use vstd::string::StringExecFns;

verus! {

/// The kinds of project that can be opened.
#[derive(Debug, Clone, Copy, PartialEq, Eq, Structural)]
pub enum ProjectType {
    Unity,
    Rust,
}

/// The entries of a directory that decide its kind.
#[derive(Debug, Clone, Copy, PartialEq, Eq, Structural)]
pub enum Marker {
    Assets,
    Packages,
    ProjectSettings,
    Src,
    CargoToml,
    CargoLock,
}

/// Which of the deciding entries exist in a directory.
#[derive(Debug, Clone, Copy, PartialEq, Eq, Structural)]
pub struct DirectoryMarkers {
    pub assets: bool,
    pub packages: bool,
    pub project_settings: bool,
    pub src: bool,
    pub cargo_toml: bool,
    pub cargo_lock: bool,
}

/// The name under which a marker is looked for in a directory.
pub open spec fn entry_name_of(marker: Marker) -> Seq<char> {
    match marker {
        Marker::Assets => "Assets"@,
        Marker::Packages => "Packages"@,
        Marker::ProjectSettings => "ProjectSettings"@,
        Marker::Src => "src"@,
        Marker::CargoToml => "Cargo.toml"@,
        Marker::CargoLock => "Cargo.lock"@,
    }
}

/// Whether every entry of a Unity project was found.
pub open spec fn has_unity_entries(markers: DirectoryMarkers) -> bool {
    markers.assets && markers.packages && markers.project_settings
}

/// Whether every entry of a Rust project was found.
pub open spec fn has_rust_entries(markers: DirectoryMarkers) -> bool {
    markers.src && markers.cargo_toml && markers.cargo_lock
}

/// The kind of a directory with these markers. A Unity project is looked
/// for first, then a Rust project; a directory that misses an entry of
/// each is of no known kind.
pub open spec fn classified(markers: DirectoryMarkers) -> Option<ProjectType> {
    if has_unity_entries(markers) {
        Some(ProjectType::Unity)
    } else if has_rust_entries(markers) {
        Some(ProjectType::Rust)
    } else {
        None
    }
}

/// What [`ProjectType::from_lowercase`] says of a name that is already in
/// lower case; `given` is the name as it was written.
pub open spec fn parsed(lowered: Seq<char>, given: Seq<char>) -> Result<ProjectType, Seq<char>> {
    if lowered == "unity"@ {
        Ok(ProjectType::Unity)
    } else if lowered == "rust"@ {
        Ok(ProjectType::Rust)
    } else {
        Err("'"@ + given + "' is not a valid project type"@)
    }
}

/// What a parse result says, with the text of the message in place of
/// the string.
pub open spec fn outcome(result: Result<ProjectType, String>) -> Result<ProjectType, Seq<char>> {
    match result {
        Ok(kind) => Ok(kind),
        Err(message) => Err(message@),
    }
}

impl Marker {
    /// The name under which the marker is looked for.
    pub fn entry_name(&self) -> (name: &'static str)
        ensures
            name@ == entry_name_of(*self),
    {
        match self {
            Marker::Assets => "Assets",
            Marker::Packages => "Packages",
            Marker::ProjectSettings => "ProjectSettings",
            Marker::Src => "src",
            Marker::CargoToml => "Cargo.toml",
            Marker::CargoLock => "Cargo.lock",
        }
    }

    /// Every marker, those of a Unity project first.
    pub fn all() -> (markers: Vec<Marker>)
        ensures
            markers@ == seq![
                Marker::Assets,
                Marker::Packages,
                Marker::ProjectSettings,
                Marker::Src,
                Marker::CargoToml,
                Marker::CargoLock,
            ],
    {
        let mut markers: Vec<Marker> = Vec::new();
        markers.push(Marker::Assets);
        markers.push(Marker::Packages);
        markers.push(Marker::ProjectSettings);
        markers.push(Marker::Src);
        markers.push(Marker::CargoToml);
        markers.push(Marker::CargoLock);
        assert(markers@ =~= seq![
            Marker::Assets,
            Marker::Packages,
            Marker::ProjectSettings,
            Marker::Src,
            Marker::CargoToml,
            Marker::CargoLock,
        ]);
        markers
    }
}

impl DirectoryMarkers {
    /// Whether `marker` was found.
    pub open spec fn found(self, marker: Marker) -> bool {
        match marker {
            Marker::Assets => self.assets,
            Marker::Packages => self.packages,
            Marker::ProjectSettings => self.project_settings,
            Marker::Src => self.src,
            Marker::CargoToml => self.cargo_toml,
            Marker::CargoLock => self.cargo_lock,
        }
    }

    /// The markers of a directory in which nothing was found.
    pub fn none() -> (markers: Self)
        ensures
            forall|marker: Marker| !markers.found(marker),
    {
        DirectoryMarkers {
            assets: false,
            packages: false,
            project_settings: false,
            src: false,
            cargo_toml: false,
            cargo_lock: false,
        }
    }

    /// Notes whether `marker` was found, leaving the others as they are.
    pub fn record(&mut self, marker: Marker, present: bool)
        ensures
            final(self).found(marker) == present,
            forall|other: Marker| other != marker ==> final(self).found(other) == old(self).found(other),
    {
        match marker {
            Marker::Assets => self.assets = present,
            Marker::Packages => self.packages = present,
            Marker::ProjectSettings => self.project_settings = present,
            Marker::Src => self.src = present,
            Marker::CargoToml => self.cargo_toml = present,
            Marker::CargoLock => self.cargo_lock = present,
        }
    }

    /// Whether `marker` was found.
    pub fn has(&self, marker: Marker) -> (present: bool)
        ensures
            present == self.found(marker),
    {
        match marker {
            Marker::Assets => self.assets,
            Marker::Packages => self.packages,
            Marker::ProjectSettings => self.project_settings,
            Marker::Src => self.src,
            Marker::CargoToml => self.cargo_toml,
            Marker::CargoLock => self.cargo_lock,
        }
    }
}

impl ProjectType {
    /// The kind of project in a directory with these markers: Unity where
    /// `Assets`, `Packages` and `ProjectSettings` are all there; else Rust
    /// where `src`, `Cargo.toml` and `Cargo.lock` are all there; else none.
    pub fn from_markers(markers: &DirectoryMarkers) -> (kind: Option<ProjectType>)
        ensures
            kind == classified(*markers),
            has_unity_entries(*markers) ==> kind == Some(ProjectType::Unity),
            !has_unity_entries(*markers) && has_rust_entries(*markers) ==> kind == Some(
                ProjectType::Rust,
            ),
            !has_unity_entries(*markers) && !has_rust_entries(*markers) ==> kind.is_none(),
    {
        if markers.assets && markers.packages && markers.project_settings {
            Some(ProjectType::Unity)
        } else if markers.src && markers.cargo_toml && markers.cargo_lock {
            Some(ProjectType::Rust)
        } else {
            None
        }
    }

    /// The kind that a name in lower case stands for: `unity` or `rust`.
    /// Any other name gives a message that quotes `given`, the name as it
    /// was written.
    pub fn from_lowercase(lowered: &str, given: &str) -> (result: Result<ProjectType, String>)
        ensures
            outcome(result) == parsed(lowered@, given@),
    {
        let lowered = lowered.to_owned();
        if lowered == String::from_str("unity") {
            Ok(ProjectType::Unity)
        } else if lowered == String::from_str("rust") {
            Ok(ProjectType::Rust)
        } else {
            let mut message = String::from_str("'");
            message.append(given);
            message.append("' is not a valid project type");
            Err(message)
        }
    }

    /// The kind that `s` names, whatever the case of its letters.
    pub fn from_str(s: &str) -> (result: Result<ProjectType, String>)
        ensures
            outcome(result) == parsed(lowercase_of(s@), s@),
    {
        let lowered = to_lowercase(s);
        Self::from_lowercase(lowered.as_str(), s)
    }

    /// The name of the kind, in lower case.
    pub fn to_string(&self) -> (name: String)
        ensures
            name@ == match *self {
                ProjectType::Unity => "unity"@,
                ProjectType::Rust => "rust"@,
            },
    {
        match self {
            ProjectType::Unity => String::from_str("unity"),
            ProjectType::Rust => String::from_str("rust"),
        }
    }
}

/// A directory that misses an entry of a Unity project and an entry of a
/// Rust project is of no known kind, whatever else it holds.
pub proof fn lemma_missing_entries_are_unrecognized(markers: DirectoryMarkers)
    requires
        !markers.assets || !markers.packages || !markers.project_settings,
        !markers.src || !markers.cargo_toml || !markers.cargo_lock,
    ensures
        classified(markers).is_none(),
{
}

} // verus!
