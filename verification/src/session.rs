//! A run, one decision at a time. The session says which action comes next;
//! the caller carries it out and reports what came of it.

use crate::command::{
    check_matugen_installed, check_qtile_installed, found, generator_arguments,
    generator_arguments_of, generator_missing, lookup_arguments, lookup_arguments_of,
    shell_arguments, shell_arguments_of, window_manager_missing, GENERATOR, LOOKUP,
    RELOAD_COMMAND, SHELL, WINDOW_MANAGER,
};
use crate::document::{
    colors_from_output, colors_of_text, descriptor_text, render_descriptor, ConfigView,
    WallpaperConfig,
};
use crate::error::{ErrorKind, ErrorView, WallpaperError};
use crate::paths::{
    lays_out, path_quoted, quote_path, Layout, LayoutView, DEFAULT_OUTPUT_DIRECTORY,
};
use crate::text::{joined, joined3, texts_of, utf8_lossy};
use vstd::prelude::*;

verus! {

/// What a run is asked to do.
#[derive(Debug, PartialEq, Eq)]
pub struct Settings {
    /// The image that becomes the wallpaper.
    pub wallpaper_path: String,
    /// The root of the window manager's configuration; a leading tilde
    /// stands for the home directory.
    pub output_directory: String,
    /// The user's home directory, if it is known.
    pub home_directory: Option<String>,
    /// Whether the window manager reloads its configuration at the end.
    pub reload: bool,
    /// The shell command that makes it do so.
    pub reload_command: String,
}

/// What a `Settings` stands for in contracts.
pub ghost struct SettingsView {
    pub wallpaper_path: Seq<char>,
    pub output_directory: Seq<char>,
    pub home_directory: Option<Seq<char>>,
    pub reload: bool,
    pub reload_command: Seq<char>,
}

impl View for Settings {
    type V = SettingsView;

    open spec fn view(&self) -> SettingsView {
        SettingsView {
            wallpaper_path: self.wallpaper_path@,
            output_directory: self.output_directory@,
            home_directory: match self.home_directory {
                Some(directory) => Some(directory@),
                None => None,
            },
            reload: self.reload,
            reload_command: self.reload_command@,
        }
    }
}

impl Settings {
    /// The settings of a run with the usual output directory and reload
    /// command, which reloads at the end.
    pub fn new(wallpaper_path: String, home_directory: Option<String>) -> (settings: Settings)
        ensures
            settings.wallpaper_path == wallpaper_path,
            settings.home_directory == home_directory,
            settings.output_directory@ == DEFAULT_OUTPUT_DIRECTORY@,
            settings.reload,
            settings.reload_command@ == RELOAD_COMMAND@,
    {
        Settings {
            wallpaper_path,
            output_directory: DEFAULT_OUTPUT_DIRECTORY.to_owned(),
            home_directory,
            reload: true,
            reload_command: RELOAD_COMMAND.to_owned(),
        }
    }
}

/// One entry of a directory.
#[derive(Debug, PartialEq, Eq)]
pub struct DirectoryEntry {
    pub path: String,
    /// Whether the entry is a regular file.
    pub is_file: bool,
}

/// What a `DirectoryEntry` stands for in contracts.
pub ghost struct EntryView {
    pub path: Seq<char>,
    pub is_file: bool,
}

impl View for DirectoryEntry {
    type V = EntryView;

    open spec fn view(&self) -> EntryView {
        EntryView { path: self.path@, is_file: self.is_file }
    }
}

/// What the caller reports of the action that it was given.
#[derive(Debug, PartialEq, Eq)]
pub enum Event {
    /// The program ran to its end: what it printed, and whether it reported
    /// success.
    Captured { output: Vec<u8>, success: bool },
    /// The directory was read: its entries.
    Listed { entries: Vec<DirectoryEntry> },
    /// The directory to be read does not exist.
    Absent,
    /// The action was carried out.
    Completed,
    /// The action could not be carried out, for another reason than that
    /// the directory to be read does not exist.
    Failed { reason: String },
}

/// What an `Event` stands for in contracts.
pub ghost enum EventView {
    Captured { output: Seq<u8>, success: bool },
    Listed { entries: Seq<EntryView> },
    Absent,
    Completed,
    Failed { reason: Seq<char> },
}

impl View for Event {
    type V = EventView;

    open spec fn view(&self) -> EventView {
        match self {
            Event::Captured { output, success } => EventView::Captured {
                output: output@,
                success: *success,
            },
            Event::Listed { entries } => EventView::Listed {
                entries: entries@.map_values(|entry: DirectoryEntry| entry@),
            },
            Event::Absent => EventView::Absent,
            Event::Completed => EventView::Completed,
            Event::Failed { reason } => EventView::Failed { reason: reason@ },
        }
    }
}

/// What the caller is to do next.
#[derive(Debug, PartialEq, Eq)]
pub enum Action {
    /// Run the program to its end and capture what it prints.
    Capture { program: String, arguments: Vec<String> },
    /// Read the entries of the directory, without descending.
    List { directory: String },
    /// Remove the file.
    Remove { path: String },
    /// Copy the file at `source` to `destination`.
    Copy { source: String, destination: String },
    /// Write `contents` to the file, replacing what it held.
    Write { path: String, contents: String },
    /// Start the program and do not wait for it.
    Spawn { program: String, arguments: Vec<String> },
    /// Stop: the run succeeded.
    Succeed,
    /// Stop: the run failed.
    Fail { error: WallpaperError },
}

/// What an `Action` stands for in contracts.
pub ghost enum ActionView {
    Capture { program: Seq<char>, arguments: Seq<Seq<char>> },
    List { directory: Seq<char> },
    Remove { path: Seq<char> },
    Copy { source: Seq<char>, destination: Seq<char> },
    Write { path: Seq<char>, contents: Seq<char> },
    Spawn { program: Seq<char>, arguments: Seq<Seq<char>> },
    Succeed,
    Fail { error: ErrorView },
}

impl View for Action {
    type V = ActionView;

    open spec fn view(&self) -> ActionView {
        match self {
            Action::Capture { program, arguments } => ActionView::Capture {
                program: program@,
                arguments: texts_of(arguments@),
            },
            Action::List { directory } => ActionView::List { directory: directory@ },
            Action::Remove { path } => ActionView::Remove { path: path@ },
            Action::Copy { source, destination } => ActionView::Copy {
                source: source@,
                destination: destination@,
            },
            Action::Write { path, contents } => ActionView::Write {
                path: path@,
                contents: contents@,
            },
            Action::Spawn { program, arguments } => ActionView::Spawn {
                program: program@,
                arguments: texts_of(arguments@),
            },
            Action::Succeed => ActionView::Succeed,
            Action::Fail { error } => ActionView::Fail { error: error@ },
        }
    }
}

impl ActionView {
    /// Whether the action changes a file.
    pub open spec fn changes_files(self) -> bool {
        self is Remove || self is Copy || self is Write
    }
}

/// How far a run has come: which action the caller was given last.
#[derive(Clone, Copy, Debug, PartialEq, Eq, Structural)]
pub enum Stage {
    /// Looking up the palette generator.
    FindGenerator,
    /// Running the palette generator.
    Generate,
    /// Reading the directory of the active wallpaper.
    List,
    /// Removing a stale file from that directory.
    Clear,
    /// Copying the image.
    Copy,
    /// Writing the descriptor.
    Write,
    /// Looking up the window manager.
    FindWindowManager,
    /// Starting the reload.
    Reload,
    /// Stopped with success.
    Succeeded,
    /// Stopped with a failure.
    Failed,
}

/// A run in progress.
#[derive(Debug)]
pub struct Session {
    settings: Settings,
    layout: Layout,
    stage: Stage,
    config: Option<WallpaperConfig>,
    stale: Vec<String>,
    failure: Option<WallpaperError>,
}

/// What a `Session` stands for in contracts.
pub ghost struct SessionView {
    pub settings: SettingsView,
    pub layout: LayoutView,
    pub stage: Stage,
    /// The descriptor, once the palette is known.
    pub config: Option<ConfigView>,
    /// The files that are still to be removed, the one in work first.
    pub stale: Seq<Seq<char>>,
    /// Why the run failed, once it has.
    pub failure: Option<ErrorView>,
}

impl View for Session {
    type V = SessionView;

    closed spec fn view(&self) -> SessionView {
        SessionView {
            settings: self.settings@,
            layout: self.layout@,
            stage: self.stage,
            config: match self.config {
                Some(config) => Some(config@),
                None => None,
            },
            stale: texts_of(self.stale@),
            failure: match self.failure {
                Some(error) => Some(error@),
                None => None,
            },
        }
    }
}

/// The failure reported when an event does not answer the action given.
pub open spec fn unexpected_event() -> ErrorView {
    ErrorView {
        kind: ErrorKind::InternalError,
        message: "Unexpected event for the current stage."@,
    }
}

/// The failure reported when the path of the image names no file.
pub open spec fn file_name_missing() -> ErrorView {
    ErrorView { kind: ErrorKind::InvalidInput, message: "Wallpaper file name is missing."@ }
}

/// The failure reported when the generator could not be run.
pub open spec fn generator_failed(reason: Seq<char>) -> ErrorView {
    ErrorView {
        kind: ErrorKind::ExecutionFailure,
        message: "Failed to execute matugen command: "@ + reason,
    }
}

/// The failure reported when the generator ran and reported failure.
pub open spec fn generator_unsuccessful() -> ErrorView {
    generator_failed("the command reported failure"@)
}

/// The failure reported when the directory of the active wallpaper is there
/// and could not be read.
pub open spec fn list_failed(directory: Seq<char>, reason: Seq<char>) -> ErrorView {
    ErrorView {
        kind: ErrorKind::IOFailure,
        message: "Failed to read directory "@ + path_quoted(directory) + ": "@ + reason,
    }
}

/// The failure reported when a stale file could not be removed.
pub open spec fn remove_failed(path: Seq<char>, reason: Seq<char>) -> ErrorView {
    ErrorView {
        kind: ErrorKind::IOFailure,
        message: "Failed to remove file "@ + path_quoted(path) + ": "@ + reason,
    }
}

/// The failure reported when the image could not be copied.
pub open spec fn copy_failed(destination: Seq<char>, reason: Seq<char>) -> ErrorView {
    ErrorView {
        kind: ErrorKind::IOFailure,
        message: "Failed to copy wallpaper to "@ + path_quoted(destination) + ": "@ + reason,
    }
}

/// The failure reported when the descriptor could not be written.
pub open spec fn write_failed(reason: Seq<char>) -> ErrorView {
    ErrorView { kind: ErrorKind::IOFailure, message: "Failed to write to config file: "@ + reason }
}

/// The failure reported when the reload could not be started.
pub open spec fn reload_failed(reason: Seq<char>) -> ErrorView {
    ErrorView { kind: ErrorKind::ExecutionFailure, message: "Failed to restart Qtile: "@ + reason }
}

/// The paths of the regular files among `entries`, in their order. What is
/// no regular file, a directory or anything else, is not among them.
pub open spec fn files_of(entries: Seq<EntryView>) -> Seq<Seq<char>> {
    entries.filter(|entry: EntryView| entry.is_file).map_values(|entry: EntryView| entry.path)
}

/// The lookup of a program.
pub open spec fn find(program: Seq<char>) -> ActionView {
    ActionView::Capture { program: LOOKUP@, arguments: lookup_arguments_of(program) }
}

impl SessionView {
    /// The session at the start of a run, before any event.
    pub open spec fn fresh(settings: SettingsView, layout: LayoutView) -> SessionView {
        SessionView {
            settings,
            layout,
            stage: Stage::FindGenerator,
            config: None,
            stale: Seq::empty(),
            failure: None,
        }
    }

    /// The run stops with `error`.
    pub open spec fn fail(self, error: ErrorView) -> (SessionView, ActionView) {
        (
            SessionView { stage: Stage::Failed, failure: Some(error), ..self },
            ActionView::Fail { error },
        )
    }

    /// The run stops with success.
    pub open spec fn succeed(self) -> (SessionView, ActionView) {
        (SessionView { stage: Stage::Succeeded, ..self }, ActionView::Succeed)
    }

    /// The run goes on at `stage` with `action`.
    pub open spec fn proceed(self, stage: Stage, action: ActionView) -> (SessionView, ActionView) {
        (SessionView { stage, ..self }, action)
    }

    /// With `stale` still to be removed: the removal of the first of them,
    /// or, when none is left, the copy of the image.
    pub open spec fn clear(self, stale: Seq<Seq<char>>) -> (SessionView, ActionView) {
        let next = SessionView { stale, ..self };
        if stale.len() > 0 {
            next.proceed(Stage::Clear, ActionView::Remove { path: stale[0] })
        } else {
            match self.layout.destination {
                Some(destination) => next.proceed(
                    Stage::Copy,
                    ActionView::Copy { source: self.settings.wallpaper_path, destination },
                ),
                None => next.fail(file_name_missing()),
            }
        }
    }

    /// The stale files that follow the one in work.
    pub open spec fn waiting(self) -> Seq<Seq<char>> {
        if self.stale.len() > 0 {
            self.stale.skip(1)
        } else {
            Seq::empty()
        }
    }

    /// The file whose removal is in work.
    pub open spec fn in_work(self) -> Seq<char> {
        if self.stale.len() > 0 {
            self.stale[0]
        } else {
            Seq::empty()
        }
    }

    /// What the destination of the image is called in a message.
    pub open spec fn destination_text(self) -> Seq<char> {
        match self.layout.destination {
            Some(destination) => destination,
            None => Seq::empty(),
        }
    }

    /// After the lookup of the generator.
    pub open spec fn after_generator_lookup(self, event: EventView) -> (SessionView, ActionView) {
        match event {
            EventView::Captured { output, success } => {
                if found(Some(output)) {
                    self.proceed(
                        Stage::Generate,
                        ActionView::Capture {
                            program: GENERATOR@,
                            arguments: generator_arguments_of(self.settings.wallpaper_path),
                        },
                    )
                } else {
                    self.fail(generator_missing())
                }
            },
            EventView::Failed { reason } => self.fail(generator_missing()),
            _ => self.fail(unexpected_event()),
        }
    }

    /// After the generator has run: with a palette and a file name, the
    /// descriptor is made up and the directory of the active wallpaper is
    /// read.
    pub open spec fn after_generation(self, event: EventView) -> (SessionView, ActionView) {
        match event {
            EventView::Captured { output, success } => {
                if !success {
                    self.fail(generator_unsuccessful())
                } else {
                    match colors_of_text(utf8_lossy(output)) {
                        Err(error) => self.fail(error),
                        Ok(colors) => match self.layout.destination {
                            None => self.fail(file_name_missing()),
                            Some(destination) => SessionView {
                                config: Some(ConfigView { file_path: destination, colors }),
                                ..self
                            }.proceed(
                                Stage::List,
                                ActionView::List { directory: self.layout.active_directory },
                            ),
                        },
                    }
                }
            },
            EventView::Failed { reason } => self.fail(generator_failed(reason)),
            _ => self.fail(unexpected_event()),
        }
    }

    /// After the directory was listed. A directory that does not exist holds
    /// nothing to remove; one that is there and cannot be read ends the run.
    pub open spec fn after_listing(self, event: EventView) -> (SessionView, ActionView) {
        match event {
            EventView::Listed { entries } => self.clear(files_of(entries)),
            EventView::Absent => self.clear(Seq::empty()),
            EventView::Failed { reason } => self.fail(
                list_failed(self.layout.active_directory, reason),
            ),
            _ => self.fail(unexpected_event()),
        }
    }

    /// After the removal of a stale file.
    pub open spec fn after_removal(self, event: EventView) -> (SessionView, ActionView) {
        match event {
            EventView::Completed => self.clear(self.waiting()),
            EventView::Failed { reason } => self.fail(remove_failed(self.in_work(), reason)),
            _ => self.fail(unexpected_event()),
        }
    }

    /// After the copy of the image.
    pub open spec fn after_copy(self, event: EventView) -> (SessionView, ActionView) {
        match event {
            EventView::Completed => match self.config {
                Some(config) => match descriptor_text(config) {
                    Ok(contents) => self.proceed(
                        Stage::Write,
                        ActionView::Write { path: self.layout.descriptor_path, contents },
                    ),
                    Err(error) => self.fail(error),
                },
                None => self.fail(unexpected_event()),
            },
            EventView::Failed { reason } => self.fail(
                copy_failed(self.destination_text(), reason),
            ),
            _ => self.fail(unexpected_event()),
        }
    }

    /// After the descriptor was written.
    pub open spec fn after_write(self, event: EventView) -> (SessionView, ActionView) {
        match event {
            EventView::Completed => {
                if self.settings.reload {
                    self.proceed(Stage::FindWindowManager, find(WINDOW_MANAGER@))
                } else {
                    self.succeed()
                }
            },
            EventView::Failed { reason } => self.fail(write_failed(reason)),
            _ => self.fail(unexpected_event()),
        }
    }

    /// After the lookup of the window manager.
    pub open spec fn after_window_manager_lookup(self, event: EventView) -> (
        SessionView,
        ActionView,
    ) {
        match event {
            EventView::Captured { output, success } => {
                if found(Some(output)) {
                    self.proceed(
                        Stage::Reload,
                        ActionView::Spawn {
                            program: SHELL@,
                            arguments: shell_arguments_of(self.settings.reload_command),
                        },
                    )
                } else {
                    self.fail(window_manager_missing())
                }
            },
            EventView::Failed { reason } => self.fail(window_manager_missing()),
            _ => self.fail(unexpected_event()),
        }
    }

    /// After the reload was started.
    pub open spec fn after_reload(self, event: EventView) -> (SessionView, ActionView) {
        match event {
            EventView::Completed => self.succeed(),
            EventView::Failed { reason } => self.fail(reload_failed(reason)),
            _ => self.fail(unexpected_event()),
        }
    }

    /// The session after `event`, and the action that the caller is given
    /// next. A run that has stopped stays as it is and says so again.
    pub open spec fn step(self, event: EventView) -> (SessionView, ActionView) {
        match self.stage {
            Stage::FindGenerator => self.after_generator_lookup(event),
            Stage::Generate => self.after_generation(event),
            Stage::List => self.after_listing(event),
            Stage::Clear => self.after_removal(event),
            Stage::Copy => self.after_copy(event),
            Stage::Write => self.after_write(event),
            Stage::FindWindowManager => self.after_window_manager_lookup(event),
            Stage::Reload => self.after_reload(event),
            Stage::Succeeded => (self, ActionView::Succeed),
            Stage::Failed => (
                self,
                ActionView::Fail {
                    error: match self.failure {
                        Some(error) => error,
                        None => unexpected_event(),
                    },
                },
            ),
        }
    }
}

/// The paths of the regular files among `entries`, in their order.
pub fn regular_files(entries: &Vec<DirectoryEntry>) -> (files: Vec<String>)
    ensures
        texts_of(files@) == files_of(entries@.map_values(|entry: DirectoryEntry| entry@)),
{
    let ghost listed = entries@.map_values(|entry: DirectoryEntry| entry@);
    let mut files: Vec<String> = Vec::new();
    let mut at: usize = 0;
    proof {
        reveal(Seq::filter);
    }
    while at < entries.len()
        invariant
            at <= entries.len(),
            listed == entries@.map_values(|entry: DirectoryEntry| entry@),
            texts_of(files@) == files_of(listed.take(at as int)),
        decreases entries.len() - at,
    {
        proof {
            reveal(Seq::filter);
            assert(listed.take(at + 1).drop_last() =~= listed.take(at as int));
        }
        let ghost before = files@;
        if entries[at].is_file {
            files.push(entries[at].path.clone());
            assert(texts_of(files@) =~= texts_of(before).push(entries[at as int].path@));
        }
        at = at + 1;
    }
    assert(listed.take(at as int) =~= listed);
    files
}

impl Session {
    /// Begins a run: the session, and the first action, which looks up the
    /// palette generator.
    pub fn start(settings: Settings) -> (begun: (Session, Action))
        ensures
            begun.0@.settings == settings@,
            lays_out(
                settings@.wallpaper_path,
                settings@.output_directory,
                settings@.home_directory,
                begun.0@.layout,
            ),
            begun.0@ == SessionView::fresh(settings@, begun.0@.layout),
            begun.1@ == find(GENERATOR@),
    {
        let layout = Layout::new(
            settings.wallpaper_path.as_str(),
            settings.output_directory.as_str(),
            match &settings.home_directory {
                Some(directory) => Some(directory.as_str()),
                None => None,
            },
        );
        let session = Session {
            settings,
            layout,
            stage: Stage::FindGenerator,
            config: None,
            stale: Vec::new(),
            failure: None,
        };
        assert(session@.stale =~= Seq::empty());
        (session, Session::find(GENERATOR))
    }

    /// How far the run has come.
    pub fn stage(&self) -> (stage: Stage)
        ensures
            stage == self@.stage,
    {
        self.stage
    }

    /// Whether the run has stopped.
    pub fn is_finished(&self) -> (finished: bool)
        ensures
            finished == (self@.stage is Succeeded || self@.stage is Failed),
    {
        match self.stage {
            Stage::Succeeded => true,
            Stage::Failed => true,
            _ => false,
        }
    }

    /// The session after `event`, and the action that the caller is to carry
    /// out next.
    pub fn step(self, event: Event) -> (next: (Session, Action))
        ensures
            (next.0@, next.1@) == self@.step(event@),
    {
        match self.stage {
            Stage::FindGenerator => self.after_generator_lookup(event),
            Stage::Generate => self.after_generation(event),
            Stage::List => self.after_listing(event),
            Stage::Clear => self.after_removal(event),
            Stage::Copy => self.after_copy(event),
            Stage::Write => self.after_write(event),
            Stage::FindWindowManager => self.after_window_manager_lookup(event),
            Stage::Reload => self.after_reload(event),
            Stage::Succeeded => (self, Action::Succeed),
            Stage::Failed => {
                let error = match &self.failure {
                    Some(error) => error.clone(),
                    None => Session::unexpected(),
                };
                (self, Action::Fail { error })
            },
        }
    }

    fn find(program: &str) -> (action: Action)
        ensures
            action@ == find(program@),
    {
        Action::Capture { program: LOOKUP.to_owned(), arguments: lookup_arguments(program) }
    }

    fn unexpected() -> (error: WallpaperError)
        ensures
            error@ == unexpected_event(),
    {
        WallpaperError::new(
            ErrorKind::InternalError,
            "Unexpected event for the current stage.".to_owned(),
        )
    }

    fn no_file_name() -> (error: WallpaperError)
        ensures
            error@ == file_name_missing(),
    {
        WallpaperError::new(ErrorKind::InvalidInput, "Wallpaper file name is missing.".to_owned())
    }

    fn fail(self, error: WallpaperError) -> (next: (Session, Action))
        ensures
            (next.0@, next.1@) == self@.fail(error@),
    {
        let mut session = self;
        session.stage = Stage::Failed;
        session.failure = Some(error.clone());
        (session, Action::Fail { error })
    }

    fn succeed(self) -> (next: (Session, Action))
        ensures
            (next.0@, next.1@) == self@.succeed(),
    {
        let mut session = self;
        session.stage = Stage::Succeeded;
        (session, Action::Succeed)
    }

    fn proceed(self, stage: Stage, action: Action) -> (next: (Session, Action))
        ensures
            (next.0@, next.1@) == self@.proceed(stage, action@),
    {
        let mut session = self;
        session.stage = stage;
        (session, action)
    }

    fn clear(self, stale: Vec<String>) -> (next: (Session, Action))
        ensures
            (next.0@, next.1@) == self@.clear(texts_of(stale@)),
    {
        let mut session = self;
        session.stale = stale;
        if session.stale.len() > 0 {
            let path = session.stale[0].clone();
            session.proceed(Stage::Clear, Action::Remove { path })
        } else {
            match &session.layout.destination {
                Some(destination) => {
                    let action = Action::Copy {
                        source: session.settings.wallpaper_path.clone(),
                        destination: destination.clone(),
                    };
                    session.proceed(Stage::Copy, action)
                },
                None => session.fail(Session::no_file_name()),
            }
        }
    }

    fn after_generator_lookup(self, event: Event) -> (next: (Session, Action))
        ensures
            (next.0@, next.1@) == self@.after_generator_lookup(event@),
    {
        let lookup = match &event {
            Event::Captured { output, success } => Some(output.as_slice()),
            Event::Failed { reason } => None,
            _ => {
                return self.fail(Session::unexpected());
            },
        };
        match check_matugen_installed(lookup) {
            Ok(_) => {
                let action = Action::Capture {
                    program: GENERATOR.to_owned(),
                    arguments: generator_arguments(self.settings.wallpaper_path.as_str()),
                };
                self.proceed(Stage::Generate, action)
            },
            Err(error) => self.fail(error),
        }
    }

    fn after_generation(self, event: Event) -> (next: (Session, Action))
        ensures
            (next.0@, next.1@) == self@.after_generation(event@),
    {
        match event {
            Event::Captured { output, success } => {
                if !success {
                    let error = WallpaperError::new(
                        ErrorKind::ExecutionFailure,
                        joined("Failed to execute matugen command: ", "the command reported failure"),
                    );
                    return self.fail(error);
                }
                match colors_from_output(output.as_slice()) {
                    Err(error) => self.fail(error),
                    Ok(colors) => {
                        let file_path = match &self.layout.destination {
                            Some(destination) => destination.clone(),
                            None => {
                                return self.fail(Session::no_file_name());
                            },
                        };
                        let action = Action::List {
                            directory: self.layout.active_directory.clone(),
                        };
                        let mut session = self;
                        session.config = Some(WallpaperConfig { file_path, colors });
                        session.proceed(Stage::List, action)
                    },
                }
            },
            Event::Failed { reason } => {
                let error = WallpaperError::new(
                    ErrorKind::ExecutionFailure,
                    joined("Failed to execute matugen command: ", reason.as_str()),
                );
                self.fail(error)
            },
            _ => self.fail(Session::unexpected()),
        }
    }

    fn after_listing(self, event: Event) -> (next: (Session, Action))
        ensures
            (next.0@, next.1@) == self@.after_listing(event@),
    {
        match event {
            Event::Listed { entries } => {
                let files = regular_files(&entries);
                self.clear(files)
            },
            Event::Absent => {
                let none: Vec<String> = Vec::new();
                assert(texts_of(none@) =~= Seq::empty());
                self.clear(none)
            },
            Event::Failed { reason } => {
                let quoted = quote_path(self.layout.active_directory.as_str());
                let message = joined3("Failed to read directory ", quoted.as_str(), ": ");
                let error = WallpaperError::new(
                    ErrorKind::IOFailure,
                    joined(message.as_str(), reason.as_str()),
                );
                self.fail(error)
            },
            _ => self.fail(Session::unexpected()),
        }
    }

    fn after_removal(self, event: Event) -> (next: (Session, Action))
        ensures
            (next.0@, next.1@) == self@.after_removal(event@),
    {
        match event {
            Event::Completed => {
                let mut session = self;
                let mut stale: Vec<String> = Vec::new();
                std::mem::swap(&mut stale, &mut session.stale);
                if stale.len() > 0 {
                    stale.remove(0);
                }
                assert(texts_of(stale@) =~= self@.waiting());
                session.clear(stale)
            },
            Event::Failed { reason } => {
                let quoted = if self.stale.len() > 0 {
                    quote_path(self.stale[0].as_str())
                } else {
                    quote_path(String::new().as_str())
                };
                let message = joined3("Failed to remove file ", quoted.as_str(), ": ");
                let error = WallpaperError::new(
                    ErrorKind::IOFailure,
                    joined(message.as_str(), reason.as_str()),
                );
                self.fail(error)
            },
            _ => self.fail(Session::unexpected()),
        }
    }

    fn after_copy(self, event: Event) -> (next: (Session, Action))
        ensures
            (next.0@, next.1@) == self@.after_copy(event@),
    {
        match event {
            Event::Completed => {
                let rendered = match &self.config {
                    Some(config) => render_descriptor(config),
                    None => {
                        return self.fail(Session::unexpected());
                    },
                };
                match rendered {
                    Ok(contents) => {
                        let action = Action::Write {
                            path: self.layout.descriptor_path.clone(),
                            contents,
                        };
                        self.proceed(Stage::Write, action)
                    },
                    Err(error) => self.fail(error),
                }
            },
            Event::Failed { reason } => {
                let quoted = match &self.layout.destination {
                    Some(destination) => quote_path(destination.as_str()),
                    None => quote_path(String::new().as_str()),
                };
                let message = joined3("Failed to copy wallpaper to ", quoted.as_str(), ": ");
                let error = WallpaperError::new(
                    ErrorKind::IOFailure,
                    joined(message.as_str(), reason.as_str()),
                );
                self.fail(error)
            },
            _ => self.fail(Session::unexpected()),
        }
    }

    fn after_write(self, event: Event) -> (next: (Session, Action))
        ensures
            (next.0@, next.1@) == self@.after_write(event@),
    {
        match event {
            Event::Completed => {
                if self.settings.reload {
                    self.proceed(Stage::FindWindowManager, Session::find(WINDOW_MANAGER))
                } else {
                    self.succeed()
                }
            },
            Event::Failed { reason } => {
                let error = WallpaperError::new(
                    ErrorKind::IOFailure,
                    joined("Failed to write to config file: ", reason.as_str()),
                );
                self.fail(error)
            },
            _ => self.fail(Session::unexpected()),
        }
    }

    fn after_window_manager_lookup(self, event: Event) -> (next: (Session, Action))
        ensures
            (next.0@, next.1@) == self@.after_window_manager_lookup(event@),
    {
        let lookup = match &event {
            Event::Captured { output, success } => Some(output.as_slice()),
            Event::Failed { reason } => None,
            _ => {
                return self.fail(Session::unexpected());
            },
        };
        match check_qtile_installed(lookup) {
            Ok(_) => {
                let action = Action::Spawn {
                    program: SHELL.to_owned(),
                    arguments: shell_arguments(self.settings.reload_command.as_str()),
                };
                self.proceed(Stage::Reload, action)
            },
            Err(error) => self.fail(error),
        }
    }

    fn after_reload(self, event: Event) -> (next: (Session, Action))
        ensures
            (next.0@, next.1@) == self@.after_reload(event@),
    {
        match event {
            Event::Completed => self.succeed(),
            Event::Failed { reason } => {
                let error = WallpaperError::new(
                    ErrorKind::ExecutionFailure,
                    joined("Failed to restart Qtile: ", reason.as_str()),
                );
                self.fail(error)
            },
            _ => self.fail(Session::unexpected()),
        }
    }
}

} // verus!
