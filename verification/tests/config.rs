use dev_environment_launcher::config::{Config, ConfigError, ConfigField, Platform};
use dev_environment_launcher::project_type::ProjectType;

#[test]
fn new_settings_are_all_unset() {
    let config = Config::default();
    assert_eq!(config.rust.ide_path, "");
    assert_eq!(config.unity.editor_base_path, "");
    assert_eq!(config.unity.json_editor_path, "");
    assert!(config.is_unset(ConfigField::RustIdePath));
    assert!(config.is_unset(ConfigField::UnityEditorBasePath));
    assert!(config.is_unset(ConfigField::UnityJsonEditorPath));
}

#[test]
fn setting_one_field_leaves_the_others() {
    let mut config = Config::default();
    config.set(ConfigField::UnityJsonEditorPath, String::from("/usr/bin/code"));
    assert_eq!(config.unity.json_editor_path, "/usr/bin/code");
    assert_eq!(config.unity.editor_base_path, "");
    assert_eq!(config.rust.ide_path, "");
    assert_eq!(config.get(ConfigField::UnityJsonEditorPath), "/usr/bin/code");
    assert!(!config.is_unset(ConfigField::UnityJsonEditorPath));
    config.set(ConfigField::RustIdePath, String::from("/opt/ide"));
    config.set(ConfigField::UnityEditorBasePath, String::from("/opt/unity"));
    assert_eq!(config.get(ConfigField::RustIdePath), "/opt/ide");
    assert_eq!(config.get(ConfigField::UnityEditorBasePath), "/opt/unity");
    assert_eq!(config.get(ConfigField::UnityJsonEditorPath), "/usr/bin/code");
}

#[test]
fn unset_field_has_to_be_asked_for() {
    let mut config = Config::default();
    assert_eq!(config.resolve(ConfigField::RustIdePath), None);
    config.set(ConfigField::RustIdePath, String::from("/opt/ide"));
    assert_eq!(config.resolve(ConfigField::RustIdePath), Some(String::from("/opt/ide")));
    assert_eq!(config.resolve(ConfigField::UnityEditorBasePath), None);
}

#[test]
fn answer_is_stored_without_surrounding_white_space() {
    let mut config = Config::default();
    let stored = config.provide(ConfigField::RustIdePath, "  /opt/my ide/bin \r\n");
    assert_eq!(stored, "/opt/my ide/bin");
    assert_eq!(config.rust.ide_path, "/opt/my ide/bin");
    assert_eq!(config.unity.editor_base_path, "");
    assert_eq!(config.resolve(ConfigField::RustIdePath), Some(String::from("/opt/my ide/bin")));
}

#[test]
fn blank_answer_leaves_the_field_unset() {
    let mut config = Config::default();
    let stored = config.provide(ConfigField::UnityEditorBasePath, " \t\n");
    assert_eq!(stored, "");
    assert!(config.is_unset(ConfigField::UnityEditorBasePath));
}

#[test]
fn each_field_has_its_prompt() {
    assert_eq!(ConfigField::RustIdePath.prompt(), "Enter the Rust IDE path: ");
    assert_eq!(ConfigField::UnityEditorBasePath.prompt(), "Enter the Unity editor base path: ");
    assert_eq!(ConfigField::UnityJsonEditorPath.prompt(), "Enter the json editor base path: ");
}

#[test]
fn each_kind_needs_its_fields() {
    assert_eq!(ConfigField::needed_for(ProjectType::Rust), vec![ConfigField::RustIdePath]);
    assert_eq!(
        ConfigField::needed_for(ProjectType::Unity),
        vec![ConfigField::UnityEditorBasePath, ConfigField::UnityJsonEditorPath]
    );
}

#[test]
fn platforms_are_known_by_name() {
    assert_eq!(Platform::from_os_name("windows"), Some(Platform::Windows));
    assert_eq!(Platform::from_os_name("macos"), Some(Platform::MacOs));
    assert_eq!(Platform::from_os_name("linux"), Some(Platform::Linux));
    assert_eq!(Platform::from_os_name("freebsd"), None);
    assert_eq!(Platform::from_os_name("Linux"), None);
    assert_eq!(Platform::from_os_name(""), None);
}

#[test]
fn platforms_name_their_variable() {
    assert_eq!(Platform::Windows.base_variable(), "APPDATA");
    assert_eq!(Platform::MacOs.base_variable(), "HOME");
    assert_eq!(Platform::Linux.base_variable(), "HOME");
}

#[test]
fn settings_folder_by_platform() {
    assert_eq!(
        Config::get_config_dir(Platform::Linux, "/home/me", "dev_environment_launcher"),
        "/home/me/.config/dev_environment_launcher"
    );
    assert_eq!(
        Config::get_config_dir(Platform::MacOs, "/Users/me", "dev_environment_launcher"),
        "/Users/me/Library/Application Support/dev_environment_launcher"
    );
    assert_eq!(Config::get_config_dir(Platform::Windows, "/appdata", "tool"), "/appdata/tool");
}

#[test]
fn settings_file_lies_in_the_settings_folder() {
    assert_eq!(Config::file_path("/home/me/.config/tool"), "/home/me/.config/tool/config.toml");
}

#[test]
fn creation_is_announced_with_the_path() {
    assert_eq!(
        Config::creation_notice("/home/me/.config/tool/config.toml"),
        "Created default configuration file at /home/me/.config/tool/config.toml"
    );
}

#[test]
fn failures_have_their_messages() {
    assert_eq!(
        ConfigError::CreateDirectory(String::from("permission denied")).message(),
        "Failed to create config directory: permission denied"
    );
    assert_eq!(
        ConfigError::CreateDefault(String::from("disk full")).message(),
        "Failed to create default configuration file: disk full"
    );
    assert_eq!(
        ConfigError::Load(String::from("missing field `rust`")).message(),
        "Failed to load configuration: missing field `rust`"
    );
}
