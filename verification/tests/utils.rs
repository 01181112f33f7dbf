use dev_environment_launcher::errors::{LaunchError, Severity};
use dev_environment_launcher::utils::{
    choose_git_root, git_candidates, git_candidates_from, git_marker_path, RepositoryProbe,
};

fn probe(path: &str, is_repository: bool) -> RepositoryProbe {
    RepositoryProbe { path: String::from(path), is_repository }
}

#[test]
fn repository_is_looked_for_in_the_directory_then_above_it() {
    assert_eq!(
        git_candidates("/work/group/app"),
        vec![String::from("/work/group/app"), String::from("/work/group")]
    );
    assert_eq!(git_candidates("app"), vec![String::from("app"), String::from("")]);
}

#[test]
fn root_has_no_directory_above_it() {
    assert_eq!(git_candidates("/"), vec![String::from("/")]);
    assert_eq!(git_candidates(""), vec![String::from("")]);
}

#[test]
fn repository_marker_lies_in_the_directory() {
    assert_eq!(git_marker_path("/work/app"), "/work/app/.git");
}

#[test]
fn nearest_repository_is_chosen() {
    let both = vec![probe("/work/group/app", true), probe("/work/group", true)];
    assert_eq!(choose_git_root(&both), Some(String::from("/work/group/app")));
    let above = vec![probe("/work/group/app", false), probe("/work/group", true)];
    assert_eq!(choose_git_root(&above), Some(String::from("/work/group")));
}

#[test]
fn no_repository_leaves_the_step_out() {
    let neither = vec![probe("/work/group/app", false), probe("/work/group", false)];
    assert_eq!(choose_git_root(&neither), None);
    assert_eq!(choose_git_root(&vec![probe("/", false)]), None);
    assert_eq!(choose_git_root(&Vec::new()), None);
}

#[test]
fn startup_failures_are_fatal() {
    assert_eq!(LaunchError::ConfigParseError.severity(), Severity::Fatal);
    assert_eq!(LaunchError::ConfigWriteError.severity(), Severity::Fatal);
    assert_eq!(LaunchError::RegistryParseError.severity(), Severity::Fatal);
}

#[test]
fn bad_targets_abort_the_command() {
    assert_eq!(LaunchError::NotADirectory.severity(), Severity::AbortsCommand);
    assert_eq!(LaunchError::UnrecognizedProjectType.severity(), Severity::AbortsCommand);
    assert_eq!(LaunchError::InvalidIndex.severity(), Severity::AbortsCommand);
}

#[test]
fn launch_step_failures_skip_the_step_only() {
    assert_eq!(LaunchError::NoVersionControlFound.severity(), Severity::SkipsStep);
    assert_eq!(LaunchError::ExternalToolSpawnFailed.severity(), Severity::SkipsStep);
    assert!(LaunchError::NoVersionControlFound.keeps_record());
    assert!(LaunchError::ExternalToolSpawnFailed.keeps_record());
    assert!(!LaunchError::NotADirectory.keeps_record());
    assert!(!LaunchError::UnrecognizedProjectType.keeps_record());
    assert!(!LaunchError::InvalidIndex.keeps_record());
    assert!(!LaunchError::ConfigParseError.keeps_record());
    assert!(!LaunchError::ConfigWriteError.keeps_record());
    assert!(!LaunchError::RegistryParseError.keeps_record());
}

#[test]
fn candidates_are_the_directory_and_the_one_given_above_it() {
    assert_eq!(
        git_candidates_from("/a/b", Some(String::from("/a"))),
        vec![String::from("/a/b"), String::from("/a")]
    );
    assert_eq!(git_candidates_from("/a/b", None), vec![String::from("/a/b")]);
    assert_eq!(
        git_candidates_from("x", Some(String::from("x"))),
        vec![String::from("x"), String::from("x")]
    );
}
