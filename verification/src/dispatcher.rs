//! The course of one run, as a machine that never acts itself. Each call
//! takes what the outside world answered and gives the next thing to do;
//! the caller does it and reports back. A run resolves the directory to
//! open, checks that it is one, tells its kind, asks for the settings that
//! are still unset, has the tools started and at last records the
//! directory among the recent projects. The other commands only touch the
//! list of recent projects.

use crate::cli::Command;
use crate::config::{fields_needed, Config, ConfigField, ConfigModel};
use crate::errors::LaunchError;
use crate::project_type::{classified, DirectoryMarkers, ProjectType};
use crate::recent_projects::{recorded, RecentProjects};
use crate::text::trimmed;
use vstd::prelude::*;
use vstd::string::StringExecFns;

verus! {

/// Where a run stands: what it waits for.
#[derive(Debug, Clone, Copy, PartialEq, Eq, Structural)]
pub enum Stage {
    /// Nothing was asked yet.
    Idle,
    /// The current directory was asked for.
    AwaitingDirectory,
    /// The menu was shown.
    AwaitingSelection,
    /// The target is being checked for being a directory.
    Validating,
    /// The target is being searched for the entries that tell its kind.
    Classifying,
    /// The kind of the project is being reported.
    Announcing(ProjectType),
    /// The user is being asked for the setting with this number among
    /// those that the kind needs.
    Asking(ProjectType, usize),
    /// The settings are being saved with the answer for that setting.
    SavingConfig(ProjectType, usize),
    /// The tools are being started.
    Launching,
    /// The recent projects are being saved, as the last step.
    Recording,
    /// The removal of an entry is being reported; saving follows.
    Removing,
    /// The emptied list is being saved; the report follows.
    Clearing,
    /// The last thing to do was handed out.
    Closing,
    /// The run is over.
    Finished,
}

/// Something to tell the user.
#[derive(Debug, Clone, Copy, PartialEq, Eq, Structural)]
pub enum Notice {
    /// The target is no directory.
    NotADirectory,
    /// The target holds no project of a known kind.
    UnrecognizedProjectType,
    /// No recent project has the index given.
    InvalidIndex,
    /// There is no recent project to choose from.
    NoRecentProjects,
    /// The kind of the project that is about to be opened.
    ProjectType(ProjectType),
    /// The target was taken off the list of recent projects.
    Removed,
    /// The list of recent projects was emptied.
    Cleared,
}

/// The failure that a notice tells of, if it tells of one.
pub open spec fn failure_of(notice: Notice) -> Option<LaunchError> {
    match notice {
        Notice::NotADirectory => Some(LaunchError::NotADirectory),
        Notice::UnrecognizedProjectType => Some(LaunchError::UnrecognizedProjectType),
        Notice::InvalidIndex => Some(LaunchError::InvalidIndex),
        _ => None,
    }
}

/// The words of a notice about `target`.
pub open spec fn notice_text(notice: Notice, target: Seq<char>) -> Seq<char> {
    match notice {
        Notice::NotADirectory => "Provided path is not a directory."@,
        Notice::UnrecognizedProjectType => "Project type not recognized."@,
        Notice::InvalidIndex => "Invalid recent project index."@,
        Notice::NoRecentProjects => "No recent projects available."@,
        Notice::ProjectType(ProjectType::Unity) => "Project type: Unity"@,
        Notice::ProjectType(ProjectType::Rust) => "Project type: Rust"@,
        Notice::Removed => "Removed "@ + target + " from recent projects"@,
        Notice::Cleared => "Cleared all recent projects."@,
    }
}

impl Notice {
    /// The failure that the notice tells of, if it tells of one.
    pub fn failure(&self) -> (failure: Option<LaunchError>)
        ensures
            failure == failure_of(*self),
    {
        match self {
            Notice::NotADirectory => Some(LaunchError::NotADirectory),
            Notice::UnrecognizedProjectType => Some(LaunchError::UnrecognizedProjectType),
            Notice::InvalidIndex => Some(LaunchError::InvalidIndex),
            _ => None,
        }
    }

    /// The words of the notice, where `target` is the directory or the
    /// entry that the run is about.
    pub fn message(&self, target: &str) -> (message: String)
        ensures
            message@ == notice_text(*self, target@),
    {
        match self {
            Notice::NotADirectory => String::from_str("Provided path is not a directory."),
            Notice::UnrecognizedProjectType => String::from_str("Project type not recognized."),
            Notice::InvalidIndex => String::from_str("Invalid recent project index."),
            Notice::NoRecentProjects => String::from_str("No recent projects available."),
            Notice::ProjectType(ProjectType::Unity) => String::from_str("Project type: Unity"),
            Notice::ProjectType(ProjectType::Rust) => String::from_str("Project type: Rust"),
            Notice::Removed => {
                let mut message = String::from_str("Removed ");
                message.append(target);
                message.append(" from recent projects");
                message
            },
            Notice::Cleared => String::from_str("Cleared all recent projects."),
        }
    }
}

/// The next thing for the caller to do.
#[derive(Debug, Clone, Copy, PartialEq, Eq, Structural)]
pub enum Action {
    /// Find the current directory; answer with `current_directory`.
    AskCurrentDirectory,
    /// Let the user pick one of the menu lines of the recent projects;
    /// answer with `selected`.
    Select,
    /// Find out whether the target is a directory; answer with
    /// `directory_checked`.
    CheckDirectory,
    /// Find out which markers the target holds; answer with
    /// `markers_probed`.
    ProbeMarkers,
    /// Ask the user for this setting; answer with `answered`.
    Prompt(ConfigField),
    /// Save the settings; answer with `done`.
    SaveConfig,
    /// Start the tools for a project of this kind in the target, each on
    /// its own, whatever becomes of the others; answer with `done`.
    Launch(ProjectType),
    /// Save the recent projects; answer with `done`.
    SaveRegistry,
    /// Show the recent projects with their indices; answer with `done`.
    List,
    /// Tell the user; answer with `done`.
    Report(Notice),
    /// Nothing is left to do.
    Stop,
}

/// What the caller reports back.
#[derive(Debug)]
pub enum Event {
    /// The run begins, with the command given or with none.
    Started(Option<Command>),
    /// The current directory.
    CurrentDirectory(String),
    /// The index of the menu line that the user chose, or `None` where
    /// the user chose nothing or the menu could not be shown.
    Selected(Option<usize>),
    /// Whether the target is a directory.
    DirectoryChecked(bool),
    /// The markers found in the target.
    MarkersProbed(DirectoryMarkers),
    /// The line that the user typed for the setting asked for.
    Answered(String),
    /// The last action was carried out.
    Done,
}

/// One of the tools that a launch starts. Each is started on its own: a
/// tool that fails to start, or has nothing to open, holds up no other.
#[derive(Debug, Clone, Copy, PartialEq, Eq, Structural)]
pub enum LaunchStep {
    /// Open the project in the IDE.
    OpenIde,
    /// Open the project in the editor of the version it asks for.
    OpenEditor,
    /// Open the solution file of the project.
    OpenSolution,
    /// Open the repository that the project belongs to.
    OpenRepository,
    /// Show the folder of packages in the file browser.
    BrowsePackages,
    /// Open the repository of each package.
    OpenPackageRepositories,
}

/// The tools started for a project of `kind`, in order.
pub open spec fn steps_of(kind: ProjectType) -> Seq<LaunchStep> {
    match kind {
        ProjectType::Rust => seq![LaunchStep::OpenIde, LaunchStep::OpenRepository],
        ProjectType::Unity => seq![
            LaunchStep::OpenEditor,
            LaunchStep::OpenSolution,
            LaunchStep::OpenRepository,
            LaunchStep::BrowsePackages,
            LaunchStep::OpenPackageRepositories,
        ],
    }
}

/// The tools to start for a project of `kind`, in order.
pub fn launch_steps(kind: ProjectType) -> (steps: Vec<LaunchStep>)
    ensures
        steps@ == steps_of(kind),
{
    let mut steps: Vec<LaunchStep> = Vec::new();
    match kind {
        ProjectType::Rust => {
            steps.push(LaunchStep::OpenIde);
            steps.push(LaunchStep::OpenRepository);
        },
        ProjectType::Unity => {
            steps.push(LaunchStep::OpenEditor);
            steps.push(LaunchStep::OpenSolution);
            steps.push(LaunchStep::OpenRepository);
            steps.push(LaunchStep::BrowsePackages);
            steps.push(LaunchStep::OpenPackageRepositories);
        },
    }
    assert(steps@ =~= steps_of(kind));
    steps
}

/// The state of a run, with texts in place of strings.
pub struct DispatcherModel {
    /// What the run waits for.
    pub stage: Stage,
    /// The directory, or the removed entry, that the command is about.
    pub target: Seq<char>,
    /// The settings.
    pub config: ConfigModel,
    /// The recent projects.
    pub recent: Seq<Seq<char>>,
}

/// The number of the first setting at or after `from` among `fields` that
/// is unset in `config`; the number of fields where there is none.
pub open spec fn first_unset(config: ConfigModel, fields: Seq<ConfigField>, from: int) -> int
    decreases fields.len() - from,
{
    if 0 <= from < fields.len() && !config.is_unset(fields[from]) {
        first_unset(config, fields, from + 1)
    } else {
        from
    }
}

impl DispatcherModel {
    /// This state at another stage.
    pub open spec fn at(self, stage: Stage) -> DispatcherModel {
        DispatcherModel { stage, ..self }
    }

    /// The end of the run with nothing more done.
    pub open spec fn halted(self) -> (DispatcherModel, Action) {
        (self.at(Stage::Finished), Action::Stop)
    }

    /// The last report of a run.
    pub open spec fn closing_with(self, notice: Notice) -> (DispatcherModel, Action) {
        (self.at(Stage::Closing), Action::Report(notice))
    }

    /// The target is known: next it is checked.
    pub open spec fn aimed_at(self, target: Seq<char>) -> (DispatcherModel, Action) {
        (DispatcherModel { stage: Stage::Validating, target, ..self }, Action::CheckDirectory)
    }

    /// Settings are asked for, one after the other, from number `from` of
    /// those that `kind` needs: the first unset one is prompted for; when
    /// none is left the tools are started.
    pub open spec fn resolving(self, kind: ProjectType, from: int) -> (DispatcherModel, Action) {
        let fields = fields_needed(kind);
        let next = first_unset(self.config, fields, from);
        if 0 <= next < fields.len() {
            (self.at(Stage::Asking(kind, next as usize)), Action::Prompt(fields[next]))
        } else {
            (self.at(Stage::Launching), Action::Launch(kind))
        }
    }

    /// What follows from the command of the run.
    pub open spec fn started(self, command: Option<Command>) -> (DispatcherModel, Action) {
        if self.stage != Stage::Idle {
            self.halted()
        } else {
            match command {
                None => (self.at(Stage::AwaitingDirectory), Action::AskCurrentDirectory),
                Some(Command::Path { path }) => self.aimed_at(path@),
                Some(Command::Open { index }) => if index < self.recent.len() {
                    self.aimed_at(self.recent[index as int])
                } else {
                    self.closing_with(Notice::InvalidIndex)
                },
                Some(Command::Remove { index }) => if index < self.recent.len() {
                    (
                        DispatcherModel {
                            stage: Stage::Removing,
                            target: self.recent[index as int],
                            recent: self.recent.remove(index as int),
                            ..self
                        },
                        Action::Report(Notice::Removed),
                    )
                } else {
                    self.closing_with(Notice::InvalidIndex)
                },
                Some(Command::Clear) => (
                    DispatcherModel { stage: Stage::Clearing, recent: Seq::empty(), ..self },
                    Action::SaveRegistry,
                ),
                Some(Command::Options) => (self.at(Stage::Closing), Action::List),
                Some(Command::Recent) => if self.recent.len() == 0 {
                    self.closing_with(Notice::NoRecentProjects)
                } else {
                    (self.at(Stage::AwaitingSelection), Action::Select)
                },
            }
        }
    }

    /// What follows once the current directory is known.
    pub open spec fn with_current_directory(self, dir: Seq<char>) -> (DispatcherModel, Action) {
        if self.stage == Stage::AwaitingDirectory {
            self.aimed_at(dir)
        } else {
            self.halted()
        }
    }

    /// What follows from the user's choice in the menu.
    pub open spec fn with_selection(self, selection: Option<usize>) -> (DispatcherModel, Action) {
        if self.stage == Stage::AwaitingSelection {
            match selection {
                Some(index) if index < self.recent.len() => self.aimed_at(self.recent[index as int]),
                _ => self.halted(),
            }
        } else {
            self.halted()
        }
    }

    /// What follows from the check of the target.
    pub open spec fn with_directory_check(self, is_directory: bool) -> (DispatcherModel, Action) {
        if self.stage == Stage::Validating {
            if is_directory {
                (self.at(Stage::Classifying), Action::ProbeMarkers)
            } else {
                self.closing_with(Notice::NotADirectory)
            }
        } else {
            self.halted()
        }
    }

    /// What follows from the markers found in the target.
    pub open spec fn with_markers(self, markers: DirectoryMarkers) -> (DispatcherModel, Action) {
        if self.stage == Stage::Classifying {
            match classified(markers) {
                Some(kind) => (
                    self.at(Stage::Announcing(kind)),
                    Action::Report(Notice::ProjectType(kind)),
                ),
                None => self.closing_with(Notice::UnrecognizedProjectType),
            }
        } else {
            self.halted()
        }
    }

    /// What follows from the line that the user typed for a setting.
    pub open spec fn with_answer(self, answer: Seq<char>) -> (DispatcherModel, Action) {
        match self.stage {
            Stage::Asking(kind, number) if number < fields_needed(kind).len() => (
                DispatcherModel {
                    stage: Stage::SavingConfig(kind, number),
                    config: self.config.with(fields_needed(kind)[number as int], trimmed(answer)),
                    ..self
                },
                Action::SaveConfig,
            ),
            _ => self.halted(),
        }
    }

    /// What follows once the caller has done what it was given to do.
    pub open spec fn with_done(self) -> (DispatcherModel, Action) {
        match self.stage {
            Stage::Announcing(kind) => self.resolving(kind, 0),
            Stage::SavingConfig(kind, number) => if number < fields_needed(kind).len() {
                self.resolving(kind, number + 1)
            } else {
                self.halted()
            },
            Stage::Launching => (
                DispatcherModel {
                    stage: Stage::Recording,
                    recent: recorded(self.recent, self.target),
                    ..self
                },
                Action::SaveRegistry,
            ),
            Stage::Removing => (self.at(Stage::Recording), Action::SaveRegistry),
            Stage::Clearing => self.closing_with(Notice::Cleared),
            _ => self.halted(),
        }
    }

    /// The next state and the next thing to do, from a state and what
    /// the caller reports. A report that the stage does not wait for ends
    /// the run with nothing changed.
    pub open spec fn stepped(self, event: Event) -> (DispatcherModel, Action) {
        match event {
            Event::Started(command) => self.started(command),
            Event::CurrentDirectory(dir) => self.with_current_directory(dir@),
            Event::Selected(selection) => self.with_selection(selection),
            Event::DirectoryChecked(is_directory) => self.with_directory_check(is_directory),
            Event::MarkersProbed(markers) => self.with_markers(markers),
            Event::Answered(answer) => self.with_answer(answer@),
            Event::Done => self.with_done(),
        }
    }
}

/// One run of the launcher: its stage, the target, the settings and the
/// recent projects.
pub struct Dispatcher {
    stage: Stage,
    target: String,
    config: Config,
    recent: RecentProjects,
}

impl View for Dispatcher {
    type V = DispatcherModel;

    closed spec fn view(&self) -> DispatcherModel {
        DispatcherModel {
            stage: self.stage,
            target: self.target@,
            config: self.config@,
            recent: self.recent@,
        }
    }
}

impl Dispatcher {
    /// A run that has not begun, with the settings and the recent
    /// projects as they were loaded.
    pub fn new(config: Config, recent: RecentProjects) -> (dispatcher: Self)
        ensures
            dispatcher@ == (DispatcherModel {
                stage: Stage::Idle,
                target: Seq::empty(),
                config: config@,
                recent: recent@,
            }),
    {
        Dispatcher { stage: Stage::Idle, target: String::new(), config, recent }
    }

    /// What the run waits for.
    pub fn stage(&self) -> (stage: Stage)
        ensures
            stage == self@.stage,
    {
        self.stage
    }

    /// The directory, or the removed entry, that the command is about.
    pub fn target(&self) -> (target: &String)
        ensures
            target@ == self@.target,
    {
        &self.target
    }

    /// The settings as they stand.
    pub fn config(&self) -> (config: &Config)
        ensures
            config@ == self@.config,
    {
        &self.config
    }

    /// The recent projects as they stand.
    pub fn recent_projects(&self) -> (recent: &RecentProjects)
        ensures
            recent@ == self@.recent,
    {
        &self.recent
    }

    fn halt(&mut self) -> (action: Action)
        ensures
            (final(self)@, action) == old(self)@.halted(),
    {
        self.stage = Stage::Finished;
        Action::Stop
    }

    fn close_with(&mut self, notice: Notice) -> (action: Action)
        ensures
            (final(self)@, action) == old(self)@.closing_with(notice),
    {
        self.stage = Stage::Closing;
        Action::Report(notice)
    }

    fn aim_at(&mut self, target: String) -> (action: Action)
        ensures
            (final(self)@, action) == old(self)@.aimed_at(target@),
    {
        self.stage = Stage::Validating;
        self.target = target;
        Action::CheckDirectory
    }

    fn resolve(&mut self, kind: ProjectType, from: usize) -> (action: Action)
        requires
            from <= fields_needed(kind).len(),
        ensures
            (final(self)@, action) == old(self)@.resolving(kind, from as int),
    {
        let fields = ConfigField::needed_for(kind);
        let mut next = from;
        while next < fields.len() && !self.config.is_unset(fields[next])
            invariant
                from <= next <= fields@.len(),
                fields@ == fields_needed(kind),
                *self == *old(self),
                first_unset(self@.config, fields@, from as int) == first_unset(
                    self@.config,
                    fields@,
                    next as int,
                ),
            decreases fields@.len() - next,
        {
            next += 1;
        }
        if next < fields.len() {
            self.stage = Stage::Asking(kind, next);
            Action::Prompt(fields[next])
        } else {
            self.stage = Stage::Launching;
            Action::Launch(kind)
        }
    }

    /// Takes what the caller reports and gives the next thing to do.
    pub fn step(&mut self, event: Event) -> (action: Action)
        ensures
            (final(self)@, action) == old(self)@.stepped(event),
    {
        match event {
            Event::Started(command) => self.start(command),
            Event::CurrentDirectory(dir) => self.current_directory(dir),
            Event::Selected(selection) => self.selected(selection),
            Event::DirectoryChecked(is_directory) => self.directory_checked(is_directory),
            Event::MarkersProbed(markers) => self.markers_probed(markers),
            Event::Answered(answer) => self.answered(answer.as_str()),
            Event::Done => self.done(),
        }
    }

    /// Begins the run with the command given, or with none to open the
    /// current directory.
    pub fn start(&mut self, command: Option<Command>) -> (action: Action)
        ensures
            (final(self)@, action) == old(self)@.started(command),
    {
        if self.stage != Stage::Idle {
            return self.halt();
        }
        match command {
            None => {
                self.stage = Stage::AwaitingDirectory;
                Action::AskCurrentDirectory
            },
            Some(Command::Path { path }) => self.aim_at(path),
            Some(Command::Open { index }) => {
                let found = match self.recent.get_project(index) {
                    Some(project) => Some(project.clone()),
                    None => None,
                };
                match found {
                    Some(project) => self.aim_at(project),
                    None => self.close_with(Notice::InvalidIndex),
                }
            },
            Some(Command::Remove { index }) => match self.recent.remove_project(index) {
                Some(project) => {
                    self.stage = Stage::Removing;
                    self.target = project;
                    Action::Report(Notice::Removed)
                },
                None => self.close_with(Notice::InvalidIndex),
            },
            Some(Command::Clear) => {
                self.recent.clear_projects();
                self.stage = Stage::Clearing;
                Action::SaveRegistry
            },
            Some(Command::Options) => {
                self.stage = Stage::Closing;
                Action::List
            },
            Some(Command::Recent) => {
                if self.recent.is_empty() {
                    self.close_with(Notice::NoRecentProjects)
                } else {
                    self.stage = Stage::AwaitingSelection;
                    Action::Select
                }
            },
        }
    }

    /// Takes the current directory as the target.
    pub fn current_directory(&mut self, dir: String) -> (action: Action)
        ensures
            (final(self)@, action) == old(self)@.with_current_directory(dir@),
    {
        if self.stage == Stage::AwaitingDirectory {
            self.aim_at(dir)
        } else {
            self.halt()
        }
    }

    /// Takes the user's choice in the menu: the index of a line, or
    /// `None` where the user chose nothing.
    pub fn selected(&mut self, selection: Option<usize>) -> (action: Action)
        ensures
            (final(self)@, action) == old(self)@.with_selection(selection),
    {
        if self.stage == Stage::AwaitingSelection {
            match self.recent.menu_choice(selection) {
                Some(project) => self.aim_at(project),
                None => self.halt(),
            }
        } else {
            self.halt()
        }
    }

    /// Takes the answer to whether the target is a directory.
    pub fn directory_checked(&mut self, is_directory: bool) -> (action: Action)
        ensures
            (final(self)@, action) == old(self)@.with_directory_check(is_directory),
    {
        if self.stage == Stage::Validating {
            if is_directory {
                self.stage = Stage::Classifying;
                Action::ProbeMarkers
            } else {
                self.close_with(Notice::NotADirectory)
            }
        } else {
            self.halt()
        }
    }

    /// Takes the markers found in the target and tells its kind.
    pub fn markers_probed(&mut self, markers: DirectoryMarkers) -> (action: Action)
        ensures
            (final(self)@, action) == old(self)@.with_markers(markers),
    {
        if self.stage == Stage::Classifying {
            match ProjectType::from_markers(&markers) {
                Some(kind) => {
                    self.stage = Stage::Announcing(kind);
                    Action::Report(Notice::ProjectType(kind))
                },
                None => self.close_with(Notice::UnrecognizedProjectType),
            }
        } else {
            self.halt()
        }
    }

    /// Takes the line that the user typed for the setting asked for and
    /// stores it without the white space around it.
    pub fn answered(&mut self, answer: &str) -> (action: Action)
        ensures
            (final(self)@, action) == old(self)@.with_answer(answer@),
    {
        match self.stage {
            Stage::Asking(kind, number) => {
                let fields = ConfigField::needed_for(kind);
                if number < fields.len() {
                    let _ = self.config.provide(fields[number], answer);
                    self.stage = Stage::SavingConfig(kind, number);
                    Action::SaveConfig
                } else {
                    self.halt()
                }
            },
            _ => self.halt(),
        }
    }

    /// Takes the word that the last action was carried out.
    pub fn done(&mut self) -> (action: Action)
        ensures
            (final(self)@, action) == old(self)@.with_done(),
    {
        match self.stage {
            Stage::Announcing(kind) => self.resolve(kind, 0),
            Stage::SavingConfig(kind, number) => {
                let fields = ConfigField::needed_for(kind);
                if number < fields.len() {
                    self.resolve(kind, number + 1)
                } else {
                    self.halt()
                }
            },
            Stage::Launching => {
                let target = self.target.clone();
                self.recent.add_project(target);
                self.stage = Stage::Recording;
                Action::SaveRegistry
            },
            Stage::Removing => {
                self.stage = Stage::Recording;
                Action::SaveRegistry
            },
            Stage::Clearing => self.close_with(Notice::Cleared),
            _ => self.halt(),
        }
    }
}

/// A target that is no directory ends the command with a report: neither
/// the settings nor the recent projects change, and no later step is
/// taken.
pub proof fn lemma_invalid_target_changes_nothing(state: DispatcherModel)
    requires
        state.stage == Stage::Validating,
    ensures
        state.with_directory_check(false).1 == Action::Report(Notice::NotADirectory),
        state.with_directory_check(false).0.config == state.config,
        state.with_directory_check(false).0.recent == state.recent,
        state.with_directory_check(false).0.with_done() == state.with_directory_check(
            false,
        ).0.halted(),
{
}

/// A directory of no known kind ends the command with a report: neither
/// the settings nor the recent projects change, and nothing is started.
pub proof fn lemma_unrecognized_target_changes_nothing(
    state: DispatcherModel,
    markers: DirectoryMarkers,
)
    requires
        state.stage == Stage::Classifying,
        classified(markers).is_none(),
    ensures
        state.with_markers(markers).1 == Action::Report(Notice::UnrecognizedProjectType),
        state.with_markers(markers).0.config == state.config,
        state.with_markers(markers).0.recent == state.recent,
        state.with_markers(markers).0.with_done() == state.with_markers(markers).0.halted(),
{
}

/// Once the tools were asked to start, the target is recorded among the
/// recent projects and the list is saved, whatever became of the tools;
/// then the run is over.
pub proof fn lemma_launch_is_always_recorded(state: DispatcherModel)
    requires
        state.stage == Stage::Launching,
    ensures
        state.with_done().1 == Action::SaveRegistry,
        state.with_done().0.recent == recorded(state.recent, state.target),
        state.with_done().0.config == state.config,
        state.with_done().0.with_done() == state.with_done().0.halted(),
{
}

/// A setting that is already given is never asked for: when the user is
/// prompted for a setting, that setting is unset, and every needed
/// setting before it, from where the search began, is given.
pub proof fn lemma_only_unset_settings_are_asked(
    state: DispatcherModel,
    kind: ProjectType,
    from: int,
)
    requires
        0 <= from <= fields_needed(kind).len(),
    ensures
        match state.resolving(kind, from).1 {
            Action::Prompt(field) => state.config.is_unset(field) && exists|k: int|
                from <= k < fields_needed(kind).len() && #[trigger] fields_needed(kind)[k]
                    == field && state.resolving(kind, from).0.stage == Stage::Asking(
                    kind,
                    k as usize,
                ),
            Action::Launch(launched) => launched == kind && forall|k: int|
                from <= k < fields_needed(kind).len() ==> !state.config.is_unset(
                    #[trigger] fields_needed(kind)[k],
                ),
            _ => false,
        },
        state.resolving(kind, from).0.config == state.config,
        state.resolving(kind, from).0.recent == state.recent,
{
    lemma_first_unset(state.config, fields_needed(kind), from);
}

/// The first unset setting lies at or after the start of the search, is
/// unset, and every setting between is given.
pub proof fn lemma_first_unset(config: ConfigModel, fields: Seq<ConfigField>, from: int)
    requires
        0 <= from <= fields.len(),
    ensures
        from <= first_unset(config, fields, from) <= fields.len(),
        first_unset(config, fields, from) < fields.len() ==> config.is_unset(
            fields[first_unset(config, fields, from)],
        ),
        forall|k: int| from <= k < first_unset(config, fields, from) ==> !config.is_unset(fields[k]),
    decreases fields.len() - from,
{
    if from < fields.len() && !config.is_unset(fields[from]) {
        lemma_first_unset(config, fields, from + 1);
    }
}

/// A run that is over stays over: whatever is reported, nothing changes
/// and nothing is left to do.
pub proof fn lemma_finished_run_stays_finished(state: DispatcherModel, event: Event)
    requires
        state.stage == Stage::Finished,
    ensures
        state.stepped(event) == (state, Action::Stop),
{
}

/// The recent projects change only where a project was opened, an entry
/// was removed or the list was emptied; the settings change only with an
/// answer of the user.
pub proof fn lemma_changes_are_confined(state: DispatcherModel, event: Event)
    ensures
        state.stepped(event).0.recent != state.recent ==> (state.stage == Stage::Launching
            && event is Done) || (state.stage == Stage::Idle && (event matches Event::Started(
            Some(Command::Remove { .. }),
        ) || event matches Event::Started(Some(Command::Clear)))),
        state.stepped(event).0.config != state.config ==> state.stage is Asking
            && event is Answered,
{
    match event {
        Event::Started(command) => {},
        Event::Done => {},
        _ => {},
    }
}

} // verus!
