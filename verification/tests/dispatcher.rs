use dev_environment_launcher::cli::{Cli, Command};
use dev_environment_launcher::config::{Config, ConfigField};
use dev_environment_launcher::dispatcher::{
    launch_steps, Action, Dispatcher, Event, LaunchStep, Notice, Stage,
};
use dev_environment_launcher::errors::LaunchError;
use dev_environment_launcher::project_type::{DirectoryMarkers, Marker, ProjectType};
use dev_environment_launcher::recent_projects::RecentProjects;

fn registry_of(paths: &[&str]) -> RecentProjects {
    RecentProjects::from_entries(paths.iter().map(|path| String::from(*path)).collect())
}

fn strings(paths: &[&str]) -> Vec<String> {
    paths.iter().map(|path| String::from(*path)).collect()
}

fn rust_markers() -> DirectoryMarkers {
    let mut markers = DirectoryMarkers::none();
    markers.record(Marker::Src, true);
    markers.record(Marker::CargoToml, true);
    markers.record(Marker::CargoLock, true);
    markers
}

fn unity_markers() -> DirectoryMarkers {
    let mut markers = DirectoryMarkers::none();
    markers.record(Marker::Assets, true);
    markers.record(Marker::Packages, true);
    markers.record(Marker::ProjectSettings, true);
    markers
}

fn configured() -> Config {
    let mut config = Config::default();
    config.set(ConfigField::RustIdePath, String::from("/opt/ide"));
    config.set(ConfigField::UnityEditorBasePath, String::from("/opt/unity"));
    config.set(ConfigField::UnityJsonEditorPath, String::from("/opt/json"));
    config
}

#[test]
fn first_run_in_a_rust_directory() {
    let cli = Cli { command: None };
    let mut run = Dispatcher::new(Config::default(), RecentProjects::new());
    assert_eq!(run.stage(), Stage::Idle);
    assert_eq!(run.start(cli.command), Action::AskCurrentDirectory);
    assert_eq!(run.current_directory(String::from("/work/tool")), Action::CheckDirectory);
    assert_eq!(run.target(), "/work/tool");
    assert_eq!(run.directory_checked(true), Action::ProbeMarkers);
    assert_eq!(
        run.markers_probed(rust_markers()),
        Action::Report(Notice::ProjectType(ProjectType::Rust))
    );
    assert_eq!(run.done(), Action::Prompt(ConfigField::RustIdePath));
    assert!(run.config().is_unset(ConfigField::RustIdePath));
    assert_eq!(run.answered("/usr/bin/ide\n"), Action::SaveConfig);
    assert_eq!(run.config().rust.ide_path, "/usr/bin/ide");
    assert_eq!(run.config().unity.editor_base_path, "");
    assert_eq!(run.config().unity.json_editor_path, "");
    assert_eq!(run.done(), Action::Launch(ProjectType::Rust));
    assert!(run.recent_projects().is_empty());
    assert_eq!(run.done(), Action::SaveRegistry);
    assert_eq!(run.recent_projects().entries(), strings(&["/work/tool"]));
    assert_eq!(run.done(), Action::Stop);
    assert_eq!(run.stage(), Stage::Finished);
    assert_eq!(run.config().rust.ide_path, "/usr/bin/ide");
}

#[test]
fn configured_rust_project_is_opened_without_a_prompt() {
    let mut run = Dispatcher::new(configured(), registry_of(&["/old"]));
    let command = Some(Command::Path { path: String::from("/work/tool") });
    assert_eq!(run.start(command), Action::CheckDirectory);
    assert_eq!(run.directory_checked(true), Action::ProbeMarkers);
    assert_eq!(
        run.markers_probed(rust_markers()),
        Action::Report(Notice::ProjectType(ProjectType::Rust))
    );
    assert_eq!(run.done(), Action::Launch(ProjectType::Rust));
    assert_eq!(run.done(), Action::SaveRegistry);
    assert_eq!(run.recent_projects().entries(), strings(&["/old", "/work/tool"]));
    assert_eq!(run.done(), Action::Stop);
}

#[test]
fn unity_project_asks_for_both_settings_in_turn() {
    let mut run = Dispatcher::new(Config::default(), RecentProjects::new());
    run.start(Some(Command::Path { path: String::from("/work/game") }));
    run.directory_checked(true);
    assert_eq!(
        run.markers_probed(unity_markers()),
        Action::Report(Notice::ProjectType(ProjectType::Unity))
    );
    assert_eq!(run.done(), Action::Prompt(ConfigField::UnityEditorBasePath));
    assert_eq!(run.stage(), Stage::Asking(ProjectType::Unity, 0));
    assert_eq!(run.answered(" /opt/unity "), Action::SaveConfig);
    assert_eq!(run.stage(), Stage::SavingConfig(ProjectType::Unity, 0));
    assert_eq!(run.done(), Action::Prompt(ConfigField::UnityJsonEditorPath));
    assert_eq!(run.answered("/opt/json"), Action::SaveConfig);
    assert_eq!(run.config().unity.editor_base_path, "/opt/unity");
    assert_eq!(run.config().unity.json_editor_path, "/opt/json");
    assert_eq!(run.config().rust.ide_path, "");
    assert_eq!(run.done(), Action::Launch(ProjectType::Unity));
    assert_eq!(run.done(), Action::SaveRegistry);
    assert_eq!(run.recent_projects().entries(), strings(&["/work/game"]));
    assert_eq!(run.done(), Action::Stop);
}

#[test]
fn unity_project_asks_only_for_the_unset_setting() {
    let mut config = Config::default();
    config.set(ConfigField::UnityEditorBasePath, String::from("/opt/unity"));
    let mut run = Dispatcher::new(config, RecentProjects::new());
    run.start(Some(Command::Path { path: String::from("/work/game") }));
    run.directory_checked(true);
    run.markers_probed(unity_markers());
    assert_eq!(run.done(), Action::Prompt(ConfigField::UnityJsonEditorPath));
    assert_eq!(run.answered("/opt/json"), Action::SaveConfig);
    assert_eq!(run.done(), Action::Launch(ProjectType::Unity));
}

#[test]
fn blank_answer_is_not_asked_for_again_in_the_same_run() {
    let mut run = Dispatcher::new(Config::default(), RecentProjects::new());
    run.start(Some(Command::Path { path: String::from("/work/tool") }));
    run.directory_checked(true);
    run.markers_probed(rust_markers());
    assert_eq!(run.done(), Action::Prompt(ConfigField::RustIdePath));
    assert_eq!(run.answered("\n"), Action::SaveConfig);
    assert!(run.config().is_unset(ConfigField::RustIdePath));
    assert_eq!(run.done(), Action::Launch(ProjectType::Rust));
}

#[test]
fn target_that_is_no_directory_aborts_without_side_effects() {
    let mut run = Dispatcher::new(Config::default(), registry_of(&["/a"]));
    run.start(Some(Command::Path { path: String::from("/work/file.txt") }));
    assert_eq!(run.directory_checked(false), Action::Report(Notice::NotADirectory));
    assert_eq!(run.done(), Action::Stop);
    assert_eq!(run.recent_projects().entries(), strings(&["/a"]));
    assert!(run.config().is_unset(ConfigField::RustIdePath));
}

#[test]
fn unrecognized_directory_aborts_without_side_effects() {
    let mut run = Dispatcher::new(Config::default(), registry_of(&["/a"]));
    run.start(Some(Command::Path { path: String::from("/work/notes") }));
    run.directory_checked(true);
    let mut markers = rust_markers();
    markers.record(Marker::CargoLock, false);
    assert_eq!(run.markers_probed(markers), Action::Report(Notice::UnrecognizedProjectType));
    assert_eq!(run.done(), Action::Stop);
    assert_eq!(run.recent_projects().entries(), strings(&["/a"]));
    assert!(run.config().is_unset(ConfigField::RustIdePath));
}

#[test]
fn recent_project_is_opened_by_index() {
    let mut run = Dispatcher::new(configured(), registry_of(&["/a", "/b", "/c"]));
    assert_eq!(run.start(Some(Command::Open { index: 1 })), Action::CheckDirectory);
    assert_eq!(run.target(), "/b");
    run.directory_checked(true);
    run.markers_probed(rust_markers());
    assert_eq!(run.done(), Action::Launch(ProjectType::Rust));
    assert_eq!(run.done(), Action::SaveRegistry);
    assert_eq!(run.recent_projects().entries(), strings(&["/a", "/b", "/c"]));
}

#[test]
fn invalid_index_aborts_open_and_remove() {
    let mut run = Dispatcher::new(configured(), registry_of(&["/a", "/b"]));
    assert_eq!(run.start(Some(Command::Open { index: 2 })), Action::Report(Notice::InvalidIndex));
    assert_eq!(run.done(), Action::Stop);
    assert_eq!(run.recent_projects().entries(), strings(&["/a", "/b"]));
    let mut run = Dispatcher::new(configured(), registry_of(&["/a", "/b"]));
    assert_eq!(
        run.start(Some(Command::Remove { index: 9 })),
        Action::Report(Notice::InvalidIndex)
    );
    assert_eq!(run.done(), Action::Stop);
    assert_eq!(run.recent_projects().entries(), strings(&["/a", "/b"]));
}

#[test]
fn remove_reports_then_saves() {
    let mut run = Dispatcher::new(Config::default(), registry_of(&["/a", "/b", "/c"]));
    assert_eq!(run.start(Some(Command::Remove { index: 0 })), Action::Report(Notice::Removed));
    assert_eq!(run.target(), "/a");
    assert_eq!(Notice::Removed.message(run.target()), "Removed /a from recent projects");
    assert_eq!(run.recent_projects().entries(), strings(&["/b", "/c"]));
    assert_eq!(run.done(), Action::SaveRegistry);
    assert_eq!(run.done(), Action::Stop);
    assert_eq!(run.recent_projects().entries(), strings(&["/b", "/c"]));
}

#[test]
fn clear_saves_then_reports() {
    let mut run = Dispatcher::new(Config::default(), registry_of(&["/a", "/b"]));
    assert_eq!(run.start(Some(Command::Clear)), Action::SaveRegistry);
    assert!(run.recent_projects().is_empty());
    assert_eq!(run.done(), Action::Report(Notice::Cleared));
    assert_eq!(run.done(), Action::Stop);
}

#[test]
fn options_lists_and_stops() {
    let mut run = Dispatcher::new(Config::default(), registry_of(&["/a", "/b"]));
    assert_eq!(run.start(Some(Command::Options)), Action::List);
    assert_eq!(
        run.recent_projects().list_projects(),
        vec![(0, String::from("/a")), (1, String::from("/b"))]
    );
    assert_eq!(run.done(), Action::Stop);
    assert_eq!(run.recent_projects().entries(), strings(&["/a", "/b"]));
}

#[test]
fn menu_on_an_empty_list_only_reports() {
    let mut run = Dispatcher::new(Config::default(), RecentProjects::new());
    assert_eq!(run.start(Some(Command::Recent)), Action::Report(Notice::NoRecentProjects));
    assert_eq!(run.done(), Action::Stop);
}

#[test]
fn menu_choice_is_opened() {
    let mut run = Dispatcher::new(configured(), registry_of(&["/a", "/b"]));
    assert_eq!(run.start(Some(Command::Recent)), Action::Select);
    assert_eq!(run.selected(Some(1)), Action::CheckDirectory);
    assert_eq!(run.target(), "/b");
}

#[test]
fn cancelled_menu_stops_the_run() {
    let mut run = Dispatcher::new(configured(), registry_of(&["/a", "/b"]));
    run.start(Some(Command::Recent));
    assert_eq!(run.selected(None), Action::Stop);
    assert_eq!(run.stage(), Stage::Finished);
    let mut run = Dispatcher::new(configured(), registry_of(&["/a", "/b"]));
    run.start(Some(Command::Recent));
    assert_eq!(run.selected(Some(2)), Action::Stop);
}

#[test]
fn answer_out_of_turn_ends_the_run() {
    let mut run = Dispatcher::new(Config::default(), registry_of(&["/a"]));
    assert_eq!(run.answered("/opt/ide"), Action::Stop);
    assert_eq!(run.stage(), Stage::Finished);
    assert!(run.config().is_unset(ConfigField::RustIdePath));
    assert_eq!(run.start(None), Action::Stop);
    assert_eq!(run.done(), Action::Stop);
    assert_eq!(run.directory_checked(true), Action::Stop);
    assert_eq!(run.markers_probed(rust_markers()), Action::Stop);
    assert_eq!(run.current_directory(String::from("/x")), Action::Stop);
    assert_eq!(run.selected(Some(0)), Action::Stop);
    assert_eq!(run.recent_projects().entries(), strings(&["/a"]));
}

#[test]
fn eleventh_opened_project_evicts_the_oldest() {
    let recent = registry_of(&["/p0", "/p1", "/p2", "/p3", "/p4", "/p5", "/p6", "/p7", "/p8", "/p9"]);
    let mut run = Dispatcher::new(configured(), recent);
    run.start(Some(Command::Path { path: String::from("/p10") }));
    run.directory_checked(true);
    run.markers_probed(unity_markers());
    assert_eq!(run.done(), Action::Launch(ProjectType::Unity));
    assert_eq!(run.done(), Action::SaveRegistry);
    assert_eq!(
        run.recent_projects().entries(),
        strings(&["/p1", "/p2", "/p3", "/p4", "/p5", "/p6", "/p7", "/p8", "/p9", "/p10"])
    );
}

#[test]
fn notices_have_their_words() {
    assert_eq!(Notice::NotADirectory.message(""), "Provided path is not a directory.");
    assert_eq!(Notice::UnrecognizedProjectType.message(""), "Project type not recognized.");
    assert_eq!(Notice::InvalidIndex.message(""), "Invalid recent project index.");
    assert_eq!(Notice::NoRecentProjects.message(""), "No recent projects available.");
    assert_eq!(Notice::ProjectType(ProjectType::Unity).message("/x"), "Project type: Unity");
    assert_eq!(Notice::ProjectType(ProjectType::Rust).message("/x"), "Project type: Rust");
    assert_eq!(Notice::Removed.message("/work/app"), "Removed /work/app from recent projects");
    assert_eq!(Notice::Cleared.message("/x"), "Cleared all recent projects.");
}

#[test]
fn notices_of_failures_name_the_failure() {
    assert_eq!(Notice::NotADirectory.failure(), Some(LaunchError::NotADirectory));
    assert_eq!(
        Notice::UnrecognizedProjectType.failure(),
        Some(LaunchError::UnrecognizedProjectType)
    );
    assert_eq!(Notice::InvalidIndex.failure(), Some(LaunchError::InvalidIndex));
    assert_eq!(Notice::NoRecentProjects.failure(), None);
    assert_eq!(Notice::ProjectType(ProjectType::Rust).failure(), None);
    assert_eq!(Notice::Removed.failure(), None);
    assert_eq!(Notice::Cleared.failure(), None);
}

#[test]
fn tools_are_started_in_order() {
    assert_eq!(
        launch_steps(ProjectType::Rust),
        vec![LaunchStep::OpenIde, LaunchStep::OpenRepository]
    );
    assert_eq!(
        launch_steps(ProjectType::Unity),
        vec![
            LaunchStep::OpenEditor,
            LaunchStep::OpenSolution,
            LaunchStep::OpenRepository,
            LaunchStep::BrowsePackages,
            LaunchStep::OpenPackageRepositories,
        ]
    );
}

#[test]
fn first_run_in_a_rust_directory_step_by_step() {
    let mut run = Dispatcher::new(Config::default(), RecentProjects::new());
    let mut prompts = 0;
    let mut config_saves = 0;
    let mut registry_saves = 0;
    let mut launches = Vec::new();
    let mut event = Event::Started(None);
    loop {
        event = match run.step(event) {
            Action::Stop => break,
            Action::AskCurrentDirectory => Event::CurrentDirectory(String::from("/work/tool")),
            Action::CheckDirectory => Event::DirectoryChecked(true),
            Action::ProbeMarkers => Event::MarkersProbed(rust_markers()),
            Action::Prompt(field) => {
                prompts += 1;
                assert_eq!(field, ConfigField::RustIdePath);
                Event::Answered(String::from("/usr/bin/ide\n"))
            }
            Action::SaveConfig => {
                config_saves += 1;
                assert_eq!(run.config().rust.ide_path, "/usr/bin/ide");
                Event::Done
            }
            Action::Launch(kind) => {
                launches.push(kind);
                Event::Done
            }
            Action::SaveRegistry => {
                registry_saves += 1;
                Event::Done
            }
            Action::Report(notice) => {
                assert_eq!(notice, Notice::ProjectType(ProjectType::Rust));
                Event::Done
            }
            Action::Select | Action::List => unreachable!(),
        };
    }
    assert_eq!(prompts, 1);
    assert_eq!(config_saves, 1);
    assert_eq!(registry_saves, 1);
    assert_eq!(launches, vec![ProjectType::Rust]);
    assert_eq!(run.recent_projects().entries(), strings(&["/work/tool"]));
    assert_eq!(run.config().rust.ide_path, "/usr/bin/ide");
    assert_eq!(run.step(Event::Done), Action::Stop);
}

#[test]
fn step_refuses_a_report_out_of_turn() {
    let mut run = Dispatcher::new(Config::default(), registry_of(&["/a"]));
    assert_eq!(run.step(Event::Started(Some(Command::Options))), Action::List);
    assert_eq!(run.step(Event::Answered(String::from("/x"))), Action::Stop);
    assert_eq!(run.stage(), Stage::Finished);
    assert_eq!(run.step(Event::Started(None)), Action::Stop);
    assert_eq!(run.recent_projects().entries(), strings(&["/a"]));
}
