//! Settings of the tools that open a project. A setting is a path, or the
//! empty text while nobody has given one; it is asked for when it is first
//! needed and kept from then on.

use crate::paths::{join, joined};
use crate::project_type::ProjectType;
use crate::text::{option_text, trim, trimmed};
use vstd::prelude::*;
use vstd::string::StringExecFns;

verus! {

/// Settings for Rust projects.
#[derive(Debug)]
pub struct RustConfig {
    /// The program that opens a Rust project.
    pub ide_path: String,
}

/// Settings for Unity projects.
#[derive(Debug)]
pub struct UnityConfig {
    /// The folder that holds the installed editors, one folder a version.
    pub editor_base_path: String,
    /// The program that opens JSON files.
    pub json_editor_path: String,
}

/// All settings.
#[derive(Debug)]
pub struct Config {
    pub rust: RustConfig,
    pub unity: UnityConfig,
}

/// The settings, one name each.
#[derive(Debug, Clone, Copy, PartialEq, Eq, Structural)]
pub enum ConfigField {
    RustIdePath,
    UnityEditorBasePath,
    UnityJsonEditorPath,
}

/// The texts that a [`Config`] holds.
pub struct ConfigModel {
    pub ide_path: Seq<char>,
    pub editor_base_path: Seq<char>,
    pub json_editor_path: Seq<char>,
}

impl ConfigModel {
    /// The text of `field`.
    pub open spec fn value(self, field: ConfigField) -> Seq<char> {
        match field {
            ConfigField::RustIdePath => self.ide_path,
            ConfigField::UnityEditorBasePath => self.editor_base_path,
            ConfigField::UnityJsonEditorPath => self.json_editor_path,
        }
    }

    /// Whether `field` has not been given yet.
    pub open spec fn is_unset(self, field: ConfigField) -> bool {
        self.value(field).len() == 0
    }

    /// These settings with `text` for `field`.
    pub open spec fn with(self, field: ConfigField, text: Seq<char>) -> ConfigModel {
        match field {
            ConfigField::RustIdePath => ConfigModel { ide_path: text, ..self },
            ConfigField::UnityEditorBasePath => ConfigModel { editor_base_path: text, ..self },
            ConfigField::UnityJsonEditorPath => ConfigModel { json_editor_path: text, ..self },
        }
    }

    /// The settings with nothing given.
    pub open spec fn unset() -> ConfigModel {
        ConfigModel {
            ide_path: Seq::empty(),
            editor_base_path: Seq::empty(),
            json_editor_path: Seq::empty(),
        }
    }
}

impl View for Config {
    type V = ConfigModel;

    open spec fn view(&self) -> ConfigModel {
        ConfigModel {
            ide_path: self.rust.ide_path@,
            editor_base_path: self.unity.editor_base_path@,
            json_editor_path: self.unity.json_editor_path@,
        }
    }
}

/// The settings that opening a project of `kind` needs, in the order in
/// which they are asked for.
pub open spec fn fields_needed(kind: ProjectType) -> Seq<ConfigField> {
    match kind {
        ProjectType::Unity => seq![
            ConfigField::UnityEditorBasePath,
            ConfigField::UnityJsonEditorPath,
        ],
        ProjectType::Rust => seq![ConfigField::RustIdePath],
    }
}

/// The words that ask for `field`.
pub open spec fn prompt_of(field: ConfigField) -> Seq<char> {
    match field {
        ConfigField::RustIdePath => "Enter the Rust IDE path: "@,
        ConfigField::UnityEditorBasePath => "Enter the Unity editor base path: "@,
        ConfigField::UnityJsonEditorPath => "Enter the json editor base path: "@,
    }
}

impl ConfigField {
    /// The words that ask the user for this setting.
    pub fn prompt(&self) -> (words: &'static str)
        ensures
            words@ == prompt_of(*self),
    {
        match self {
            ConfigField::RustIdePath => "Enter the Rust IDE path: ",
            ConfigField::UnityEditorBasePath => "Enter the Unity editor base path: ",
            ConfigField::UnityJsonEditorPath => "Enter the json editor base path: ",
        }
    }

    /// The settings that opening a project of `kind` needs, in the order
    /// in which they are asked for.
    pub fn needed_for(kind: ProjectType) -> (fields: Vec<ConfigField>)
        ensures
            fields@ == fields_needed(kind),
    {
        let mut fields: Vec<ConfigField> = Vec::new();
        match kind {
            ProjectType::Unity => {
                fields.push(ConfigField::UnityEditorBasePath);
                fields.push(ConfigField::UnityJsonEditorPath);
            },
            ProjectType::Rust => {
                fields.push(ConfigField::RustIdePath);
            },
        }
        assert(fields@ =~= fields_needed(kind));
        fields
    }
}

impl Default for Config {
    /// The settings with nothing given: what a new settings file holds.
    fn default() -> (config: Self)
        ensures
            config@ == ConfigModel::unset(),
    {
        Config {
            rust: RustConfig { ide_path: String::new() },
            unity: UnityConfig {
                editor_base_path: String::new(),
                json_editor_path: String::new(),
            },
        }
    }
}

impl Config {
    /// The settings folder of the application `app_name`, given the value
    /// `base` of the platform's variable.
    pub fn get_config_dir(platform: Platform, base: &str, app_name: &str) -> (dir: String)
        ensures
            dir@ == config_dir_of(platform, base@, app_name@),
    {
        match platform {
            Platform::Windows => join(base, app_name),
            Platform::MacOs => {
                let support = join(base, "Library/Application Support");
                join(support.as_str(), app_name)
            },
            Platform::Linux => {
                let hidden = join(base, ".config");
                join(hidden.as_str(), app_name)
            },
        }
    }

    /// The settings file in the settings folder.
    pub fn file_path(config_dir: &str) -> (path: String)
        ensures
            path@ == joined(config_dir@, "config.toml"@),
    {
        join(config_dir, "config.toml")
    }

    /// The notice that a settings file with nothing given was created.
    pub fn creation_notice(config_path: &str) -> (notice: String)
        ensures
            notice@ == "Created default configuration file at "@ + config_path@,
    {
        let mut notice = String::from_str("Created default configuration file at ");
        notice.append(config_path);
        notice
    }

    /// The stored text of `field`.
    pub fn get(&self, field: ConfigField) -> (text: &String)
        ensures
            text@ == self@.value(field),
    {
        match field {
            ConfigField::RustIdePath => &self.rust.ide_path,
            ConfigField::UnityEditorBasePath => &self.unity.editor_base_path,
            ConfigField::UnityJsonEditorPath => &self.unity.json_editor_path,
        }
    }

    /// Stores `text` for `field` and leaves the other settings alone.
    pub fn set(&mut self, field: ConfigField, text: String)
        ensures
            final(self)@ == old(self)@.with(field, text@),
    {
        match field {
            ConfigField::RustIdePath => self.rust.ide_path = text,
            ConfigField::UnityEditorBasePath => self.unity.editor_base_path = text,
            ConfigField::UnityJsonEditorPath => self.unity.json_editor_path = text,
        }
    }

    /// Whether `field` has not been given yet.
    pub fn is_unset(&self, field: ConfigField) -> (unset: bool)
        ensures
            unset == self@.is_unset(field),
    {
        self.get(field).as_str().is_empty()
    }

    /// The stored path of `field`, or `None` where the user has to be
    /// asked for it first.
    pub fn resolve(&self, field: ConfigField) -> (path: Option<String>)
        ensures
            option_text(path) == if self@.is_unset(field) {
                None
            } else {
                Some(self@.value(field))
            },
    {
        if self.is_unset(field) {
            None
        } else {
            Some(self.get(field).clone())
        }
    }

    /// Takes the line that the user typed for `field`: stores it without
    /// the white space around it and returns what was stored. The caller
    /// then saves the settings.
    pub fn provide(&mut self, field: ConfigField, answer: &str) -> (path: String)
        ensures
            path@ == trimmed(answer@),
            final(self)@ == old(self)@.with(field, trimmed(answer@)),
    {
        let path = trim(answer);
        self.set(field, path.clone());
        path
    }
}

/// The platforms on which the settings folder has a known place.
#[derive(Debug, Clone, Copy, PartialEq, Eq, Structural)]
pub enum Platform {
    Windows,
    MacOs,
    Linux,
}

/// The platform that an operating system's name stands for.
pub open spec fn platform_named(os: Seq<char>) -> Option<Platform> {
    if os == "windows"@ {
        Some(Platform::Windows)
    } else if os == "macos"@ {
        Some(Platform::MacOs)
    } else if os == "linux"@ {
        Some(Platform::Linux)
    } else {
        None
    }
}

/// The settings folder of the application `app_name` under `base`, the
/// value of the platform's variable.
pub open spec fn config_dir_of(platform: Platform, base: Seq<char>, app_name: Seq<char>) -> Seq<
    char,
> {
    match platform {
        Platform::Windows => joined(base, app_name),
        Platform::MacOs => joined(joined(base, "Library/Application Support"@), app_name),
        Platform::Linux => joined(joined(base, ".config"@), app_name),
    }
}

impl Platform {
    /// The platform named `os`, as the operating system names itself;
    /// `None` for one whose settings folder has no known place.
    pub fn from_os_name(os: &str) -> (platform: Option<Platform>)
        ensures
            platform == platform_named(os@),
    {
        let os = os.to_owned();
        if os == String::from_str("windows") {
            Some(Platform::Windows)
        } else if os == String::from_str("macos") {
            Some(Platform::MacOs)
        } else if os == String::from_str("linux") {
            Some(Platform::Linux)
        } else {
            None
        }
    }

    /// The environment variable that holds the folder under which the
    /// settings folder lies.
    pub fn base_variable(&self) -> (name: &'static str)
        ensures
            name@ == match *self {
                Platform::Windows => "APPDATA"@,
                Platform::MacOs => "HOME"@,
                Platform::Linux => "HOME"@,
            },
    {
        match self {
            Platform::Windows => "APPDATA",
            Platform::MacOs => "HOME",
            Platform::Linux => "HOME",
        }
    }
}

/// What can go wrong while the settings are made ready, each with the
/// words of the failed step.
#[derive(Debug)]
pub enum ConfigError {
    /// The settings folder could not be created.
    CreateDirectory(String),
    /// The file with unset settings could not be written.
    CreateDefault(String),
    /// The settings file could not be read as settings.
    Load(String),
}

/// The message for a failure.
pub open spec fn message_of(error: ConfigError) -> Seq<char> {
    match error {
        ConfigError::CreateDirectory(detail) => "Failed to create config directory: "@ + detail@,
        ConfigError::CreateDefault(detail) => "Failed to create default configuration file: "@
            + detail@,
        ConfigError::Load(detail) => "Failed to load configuration: "@ + detail@,
    }
}

impl ConfigError {
    /// The message shown for the failure.
    pub fn message(&self) -> (message: String)
        ensures
            message@ == message_of(*self),
    {
        match self {
            ConfigError::CreateDirectory(detail) => {
                let mut message = String::from_str("Failed to create config directory: ");
                message.append(detail.as_str());
                message
            },
            ConfigError::CreateDefault(detail) => {
                let mut message = String::from_str(
                    "Failed to create default configuration file: ",
                );
                message.append(detail.as_str());
                message
            },
            ConfigError::Load(detail) => {
                let mut message = String::from_str("Failed to load configuration: ");
                message.append(detail.as_str());
                message
            },
        }
    }
}

} // verus!
