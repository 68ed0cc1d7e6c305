use qtwallset::error::{ErrorKind, WallpaperError};
use qtwallset::palette::ROLE_NAMES;
use qtwallset::session::{regular_files, Action, DirectoryEntry, Event, Session, Settings, Stage};

fn settings_for(wallpaper_path: &str, reload: bool) -> Settings {
    Settings {
        wallpaper_path: wallpaper_path.to_string(),
        output_directory: "~/.config/qtile".to_string(),
        home_directory: Some("/home/ada".to_string()),
        reload,
        reload_command: "qtile cmd-obj -o cmd -f reload_config".to_string(),
    }
}

fn generator_output() -> Vec<u8> {
    let mut schemes = Vec::new();
    for prefix in ["d", "e"] {
        let mut members = Vec::new();
        for (index, name) in ROLE_NAMES.iter().enumerate() {
            members.push(format!("\"{}\": \"#{}{:05}\"", name, prefix, index));
        }
        schemes.push(format!("{{{}}}", members.join(", ")));
    }
    format!("{{\"colors\": {{\"dark\": {}, \"light\": {}}}}}", schemes[0], schemes[1]).into_bytes()
}

fn found() -> Event {
    Event::Captured { output: b"/usr/bin/found\n".to_vec(), success: true }
}

fn generated() -> Event {
    Event::Captured { output: generator_output(), success: true }
}

fn failed(reason: &str) -> Event {
    Event::Failed { reason: reason.to_string() }
}

fn entry(path: &str, is_file: bool) -> DirectoryEntry {
    DirectoryEntry { path: path.to_string(), is_file }
}

fn failure_of(action: Action) -> WallpaperError {
    match action {
        Action::Fail { error } => error,
        other => panic!("the run went on with {:?}", other),
    }
}

fn run_to_listing(wallpaper_path: &str, reload: bool) -> Session {
    let (session, _) = Session::start(settings_for(wallpaper_path, reload));
    let (session, _) = session.step(found());
    let (session, action) = session.step(generated());
    assert_eq!(
        action,
        Action::List { directory: "/home/ada/.config/qtile/wallpaper/active".to_string() }
    );
    session
}

#[test]
fn a_run_begins_with_the_lookup_of_the_generator() {
    let (session, action) = Session::start(settings_for("/pictures/sea.png", true));
    assert_eq!(
        action,
        Action::Capture { program: "which".to_string(), arguments: vec!["matugen".to_string()] }
    );
    assert_eq!(session.stage(), Stage::FindGenerator);
    assert!(!session.is_finished());
}

#[test]
fn the_usual_settings_reload_below_the_configuration_directory() {
    let settings = Settings::new("/pictures/sea.png".to_string(), Some("/home/ada".to_string()));
    assert_eq!(settings, settings_for("/pictures/sea.png", true));
}

#[test]
fn a_whole_run_goes_through_its_stages_in_order() {
    let (session, _) = Session::start(settings_for("/pictures/sea.png", true));
    let (session, action) = session.step(found());
    assert_eq!(
        action,
        Action::Capture {
            program: "matugen".to_string(),
            arguments: vec![
                "image".to_string(),
                "/pictures/sea.png".to_string(),
                "--json".to_string(),
                "hex".to_string()
            ],
        }
    );
    assert_eq!(session.stage(), Stage::Generate);
    let (session, action) = session.step(generated());
    assert_eq!(
        action,
        Action::List { directory: "/home/ada/.config/qtile/wallpaper/active".to_string() }
    );
    assert_eq!(session.stage(), Stage::List);
    let (session, action) = session.step(Event::Listed {
        entries: vec![entry("/home/ada/.config/qtile/wallpaper/active/old.png", true)],
    });
    assert_eq!(
        action,
        Action::Remove { path: "/home/ada/.config/qtile/wallpaper/active/old.png".to_string() }
    );
    assert_eq!(session.stage(), Stage::Clear);
    let (session, action) = session.step(Event::Completed);
    assert_eq!(
        action,
        Action::Copy {
            source: "/pictures/sea.png".to_string(),
            destination: "/home/ada/.config/qtile/wallpaper/active/sea.png".to_string(),
        }
    );
    assert_eq!(session.stage(), Stage::Copy);
    let (session, action) = session.step(Event::Completed);
    match action {
        Action::Write { path, contents } => {
            assert_eq!(path, "/home/ada/.config/qtile/cache/wallpaper_info.json");
            assert!(contents.starts_with(
                "{\n  \"file_path\": \"/home/ada/.config/qtile/wallpaper/active/sea.png\",\n  \"colors\": {\n    \"dark\": {\n      \"background\": \"#d00000\","
            ));
        }
        other => panic!("the run went on with {:?}", other),
    }
    assert_eq!(session.stage(), Stage::Write);
    let (session, action) = session.step(Event::Completed);
    assert_eq!(
        action,
        Action::Capture { program: "which".to_string(), arguments: vec!["qtile".to_string()] }
    );
    assert_eq!(session.stage(), Stage::FindWindowManager);
    let (session, action) = session.step(found());
    assert_eq!(
        action,
        Action::Spawn {
            program: "sh".to_string(),
            arguments: vec!["-c".to_string(), "qtile cmd-obj -o cmd -f reload_config".to_string()],
        }
    );
    assert_eq!(session.stage(), Stage::Reload);
    let (session, action) = session.step(Event::Completed);
    assert_eq!(action, Action::Succeed);
    assert_eq!(session.stage(), Stage::Succeeded);
    assert!(session.is_finished());
}

#[test]
fn the_descriptor_records_the_place_of_the_copy() {
    let session = run_to_listing("../album/night sky.jpg", false);
    let (session, action) = session.step(Event::Listed { entries: vec![] });
    let copied_to = match action {
        Action::Copy { source, destination } => {
            assert_eq!(source, "../album/night sky.jpg");
            destination
        }
        other => panic!("the run went on with {:?}", other),
    };
    assert_eq!(copied_to, "/home/ada/.config/qtile/wallpaper/active/night sky.jpg");
    let (_, action) = session.step(Event::Completed);
    match action {
        Action::Write { contents, .. } => {
            let document = qtwallset::json::parse_json(&contents).unwrap();
            assert_eq!(document.text_member("file_path"), Some(copied_to.as_str()));
        }
        other => panic!("the run went on with {:?}", other),
    }
}

#[test]
fn the_descriptor_holds_the_palette_that_the_generator_printed() {
    let session = run_to_listing("/pictures/sea.png", false);
    let (session, _) = session.step(Event::Listed { entries: vec![] });
    let (_, action) = session.step(Event::Completed);
    match action {
        Action::Write { contents, .. } => {
            let written = qtwallset::document::parse_colors(&contents).unwrap();
            let printed = qtwallset::document::colors_from_output(&generator_output()).unwrap();
            assert_eq!(written, printed);
        }
        other => panic!("the run went on with {:?}", other),
    }
}

#[test]
fn a_suppressed_reload_is_never_spawned() {
    let session = run_to_listing("/pictures/sea.png", false);
    let (session, action) = session.step(Event::Listed { entries: vec![] });
    assert!(matches!(action, Action::Copy { .. }));
    let (session, action) = session.step(Event::Completed);
    assert!(matches!(action, Action::Write { .. }));
    let (session, action) = session.step(Event::Completed);
    assert_eq!(action, Action::Succeed);
    assert_eq!(session.stage(), Stage::Succeeded);
    let (session, action) = session.step(found());
    assert_eq!(action, Action::Succeed);
    let (_, action) = session.step(Event::Completed);
    assert_eq!(action, Action::Succeed);
}

#[test]
fn a_custom_reload_command_is_handed_to_the_shell() {
    let mut settings = settings_for("/pictures/sea.png", true);
    settings.reload_command = "true".to_string();
    let (session, _) = Session::start(settings);
    let (session, _) = session.step(found());
    let (session, _) = session.step(generated());
    let (session, _) = session.step(Event::Listed { entries: vec![] });
    let (session, _) = session.step(Event::Completed);
    let (session, _) = session.step(Event::Completed);
    let (_, action) = session.step(found());
    assert_eq!(
        action,
        Action::Spawn { program: "sh".to_string(), arguments: vec!["-c".to_string(), "true".to_string()] }
    );
}

#[test]
fn a_missing_generator_stops_the_run_before_any_file_changes() {
    let (session, _) = Session::start(settings_for("/pictures/sea.png", true));
    let (session, action) = session.step(Event::Captured { output: vec![], success: false });
    let error = failure_of(action);
    assert_eq!(error.kind, ErrorKind::MissingDependency);
    assert_eq!(error.message, "matugen is not installed. Please install matugen.");
    assert_eq!(session.stage(), Stage::Failed);
    assert!(session.is_finished());
    let (session, action) = session.step(generated());
    assert_eq!(failure_of(action), error);
    let (session, action) = session.step(Event::Completed);
    assert_eq!(failure_of(action), error);
    let (_, action) = session.step(Event::Listed { entries: vec![entry("/x", true)] });
    assert_eq!(failure_of(action), error);
}

#[test]
fn a_lookup_that_cannot_run_counts_as_a_missing_generator() {
    let (session, _) = Session::start(settings_for("/pictures/sea.png", true));
    let (_, action) = session.step(failed("No such file or directory (os error 2)"));
    let error = failure_of(action);
    assert_eq!(error.kind, ErrorKind::MissingDependency);
    assert_eq!(error.message, "matugen is not installed. Please install matugen.");
}

#[test]
fn a_lookup_counts_by_what_it_printed_and_not_by_its_status() {
    let (session, _) = Session::start(settings_for("/pictures/sea.png", true));
    let (session, action) =
        session.step(Event::Captured { output: b"/usr/bin/matugen\n".to_vec(), success: false });
    assert!(matches!(action, Action::Capture { .. }));
    assert_eq!(session.stage(), Stage::Generate);
}

#[test]
fn a_malformed_palette_stops_the_run_before_any_file_changes() {
    let (session, _) = Session::start(settings_for("/pictures/sea.png", true));
    let (session, _) = session.step(found());
    let (session, action) =
        session.step(Event::Captured { output: b"{\"colors\": ".to_vec(), success: true });
    let error = failure_of(action);
    assert_eq!(error.kind, ErrorKind::ParseFailure);
    assert_eq!(
        error.message,
        "Failed to parse matugen output: EOF while parsing a value at line 1 column 11"
    );
    assert_eq!(session.stage(), Stage::Failed);
    let (_, action) = session.step(Event::Completed);
    assert_eq!(failure_of(action), error);
}

#[test]
fn a_palette_of_the_wrong_shape_stops_the_run() {
    let (session, _) = Session::start(settings_for("/pictures/sea.png", true));
    let (session, _) = session.step(found());
    let (_, action) = session
        .step(Event::Captured { output: b"{\"colors\": {\"dark\": {}}}".to_vec(), success: true });
    let error = failure_of(action);
    assert_eq!(error.kind, ErrorKind::ParseFailure);
    assert_eq!(
        error.message,
        "Failed to parse matugen output: missing or invalid field `colors.dark.background`"
    );
}

#[test]
fn a_generator_that_cannot_run_is_an_execution_failure() {
    let (session, _) = Session::start(settings_for("/pictures/sea.png", true));
    let (session, _) = session.step(found());
    let (_, action) = session.step(failed("Permission denied (os error 13)"));
    let error = failure_of(action);
    assert_eq!(error.kind, ErrorKind::ExecutionFailure);
    assert_eq!(
        error.message,
        "Failed to execute matugen command: Permission denied (os error 13)"
    );
}

#[test]
fn a_generator_that_reports_failure_is_an_execution_failure() {
    let (session, _) = Session::start(settings_for("/pictures/sea.png", true));
    let (session, _) = session.step(found());
    let (_, action) = session.step(Event::Captured { output: generator_output(), success: false });
    let error = failure_of(action);
    assert_eq!(error.kind, ErrorKind::ExecutionFailure);
    assert_eq!(error.message, "Failed to execute matugen command: the command reported failure");
}

#[test]
fn a_path_without_file_name_is_invalid_input() {
    let (session, _) = Session::start(settings_for("/pictures/..", true));
    let (session, _) = session.step(found());
    let (session, action) = session.step(generated());
    let error = failure_of(action);
    assert_eq!(error.kind, ErrorKind::InvalidInput);
    assert_eq!(error.message, "Wallpaper file name is missing.");
    assert_eq!(session.stage(), Stage::Failed);
}

#[test]
fn only_regular_files_are_removed_and_in_the_order_of_the_listing() {
    let session = run_to_listing("/pictures/sea.png", false);
    let (session, action) = session.step(Event::Listed {
        entries: vec![
            entry("/a/keep", false),
            entry("/a/one.png", true),
            entry("/a/nested", false),
            entry("/a/two.png", true),
            entry("/a/three.png", true),
        ],
    });
    assert_eq!(action, Action::Remove { path: "/a/one.png".to_string() });
    let (session, action) = session.step(Event::Completed);
    assert_eq!(action, Action::Remove { path: "/a/two.png".to_string() });
    let (session, action) = session.step(Event::Completed);
    assert_eq!(action, Action::Remove { path: "/a/three.png".to_string() });
    let (session, action) = session.step(Event::Completed);
    assert_eq!(
        action,
        Action::Copy {
            source: "/pictures/sea.png".to_string(),
            destination: "/home/ada/.config/qtile/wallpaper/active/sea.png".to_string(),
        }
    );
    assert_eq!(session.stage(), Stage::Copy);
}

#[test]
fn the_regular_files_of_a_listing_keep_their_order() {
    let entries = vec![
        entry("/a/keep", false),
        entry("/a/one.png", true),
        entry("/a/two.png", true),
        entry("/a/nested", false),
    ];
    assert_eq!(regular_files(&entries), vec!["/a/one.png", "/a/two.png"]);
    assert_eq!(regular_files(&Vec::new()), Vec::<String>::new());
    assert_eq!(regular_files(&vec![entry("/a/keep", false)]), Vec::<String>::new());
}

#[test]
fn a_directory_that_does_not_exist_holds_nothing_to_remove() {
    let session = run_to_listing("/pictures/sea.png", false);
    let (session, action) = session.step(Event::Absent);
    assert_eq!(
        action,
        Action::Copy {
            source: "/pictures/sea.png".to_string(),
            destination: "/home/ada/.config/qtile/wallpaper/active/sea.png".to_string(),
        }
    );
    assert_eq!(session.stage(), Stage::Copy);
}

#[test]
fn a_directory_that_cannot_be_read_is_an_io_failure() {
    let session = run_to_listing("/pictures/sea.png", false);
    let (session, action) = session.step(failed("Permission denied (os error 13)"));
    let error = failure_of(action);
    assert_eq!(error.kind, ErrorKind::IOFailure);
    assert_eq!(
        error.message,
        "Failed to read directory \"/home/ada/.config/qtile/wallpaper/active\": Permission denied (os error 13)"
    );
    assert_eq!(session.stage(), Stage::Failed);
    let (_, action) = session.step(Event::Completed);
    assert_eq!(failure_of(action), error);
}

#[test]
fn a_path_that_is_no_directory_is_an_io_failure() {
    let session = run_to_listing("/pictures/sea.png", false);
    let (_, action) = session.step(failed("Not a directory (os error 20)"));
    let error = failure_of(action);
    assert_eq!(error.kind, ErrorKind::IOFailure);
    assert_eq!(
        error.message,
        "Failed to read directory \"/home/ada/.config/qtile/wallpaper/active\": Not a directory (os error 20)"
    );
}

#[test]
fn absence_answers_nothing_but_a_listing() {
    let (session, _) = Session::start(settings_for("/pictures/sea.png", true));
    let (_, action) = session.step(Event::Absent);
    assert_eq!(failure_of(action).kind, ErrorKind::InternalError);
    let session = run_to_listing("/pictures/sea.png", false);
    let (session, _) = session.step(Event::Listed { entries: vec![entry("/a/one.png", true)] });
    let (_, action) = session.step(Event::Absent);
    assert_eq!(failure_of(action).kind, ErrorKind::InternalError);
}

#[test]
fn a_file_that_cannot_be_removed_is_an_io_failure() {
    let session = run_to_listing("/pictures/sea.png", false);
    let (session, _) = session.step(Event::Listed {
        entries: vec![entry("/a/one.png", true), entry("/a/two.png", true)],
    });
    let (session, action) = session.step(failed("Permission denied (os error 13)"));
    let error = failure_of(action);
    assert_eq!(error.kind, ErrorKind::IOFailure);
    assert_eq!(
        error.message,
        "Failed to remove file \"/a/one.png\": Permission denied (os error 13)"
    );
    assert_eq!(session.stage(), Stage::Failed);
}

#[test]
fn a_failed_copy_is_an_io_failure() {
    let session = run_to_listing("/pictures/sea.png", false);
    let (session, _) = session.step(Event::Listed { entries: vec![] });
    let (_, action) = session.step(failed("No such file or directory (os error 2)"));
    let error = failure_of(action);
    assert_eq!(error.kind, ErrorKind::IOFailure);
    assert_eq!(
        error.message,
        "Failed to copy wallpaper to \"/home/ada/.config/qtile/wallpaper/active/sea.png\": No such file or directory (os error 2)"
    );
}

#[test]
fn a_failed_write_is_an_io_failure() {
    let session = run_to_listing("/pictures/sea.png", false);
    let (session, _) = session.step(Event::Listed { entries: vec![] });
    let (session, _) = session.step(Event::Completed);
    let (_, action) = session.step(failed("No such file or directory (os error 2)"));
    let error = failure_of(action);
    assert_eq!(error.kind, ErrorKind::IOFailure);
    assert_eq!(
        error.message,
        "Failed to write to config file: No such file or directory (os error 2)"
    );
}

#[test]
fn a_missing_window_manager_is_a_missing_dependency_after_the_files_are_in_place() {
    let session = run_to_listing("/pictures/sea.png", true);
    let (session, _) = session.step(Event::Listed { entries: vec![] });
    let (session, _) = session.step(Event::Completed);
    let (session, action) = session.step(Event::Completed);
    assert_eq!(
        action,
        Action::Capture { program: "which".to_string(), arguments: vec!["qtile".to_string()] }
    );
    let (_, action) = session.step(Event::Captured { output: vec![], success: false });
    let error = failure_of(action);
    assert_eq!(error.kind, ErrorKind::MissingDependency);
    assert_eq!(error.message, "Qtile is not installed. Please install Qtile.");
}

#[test]
fn a_reload_that_cannot_start_is_an_execution_failure() {
    let session = run_to_listing("/pictures/sea.png", true);
    let (session, _) = session.step(Event::Listed { entries: vec![] });
    let (session, _) = session.step(Event::Completed);
    let (session, _) = session.step(Event::Completed);
    let (session, _) = session.step(found());
    let (_, action) = session.step(failed("No such file or directory (os error 2)"));
    let error = failure_of(action);
    assert_eq!(error.kind, ErrorKind::ExecutionFailure);
    assert_eq!(
        error.message,
        "Failed to restart Qtile: No such file or directory (os error 2)"
    );
}

#[test]
fn an_event_that_answers_no_action_is_an_internal_error() {
    let (session, _) = Session::start(settings_for("/pictures/sea.png", true));
    let (session, action) = session.step(Event::Completed);
    let error = failure_of(action);
    assert_eq!(error.kind, ErrorKind::InternalError);
    assert_eq!(error.message, "Unexpected event for the current stage.");
    assert_eq!(session.stage(), Stage::Failed);
    let session = run_to_listing("/pictures/sea.png", true);
    let (_, action) = session.step(found());
    assert_eq!(failure_of(action).kind, ErrorKind::InternalError);
}
