//! What holds of every run, whatever the caller reports.

use crate::command::{
    found, generator_arguments_of, generator_missing, shell_arguments_of, GENERATOR, SHELL,
    WINDOW_MANAGER,
};
use crate::document::{colors_of, colors_of_text, descriptor_text, ConfigView};
use crate::error::{ErrorKind, ErrorView};
use crate::json::{json_parsed, JsonValue};
use crate::palette::{ColorsView, ROLE_COUNT};
use crate::paths::{lays_out, path_file_name, path_joined, LayoutView};
use crate::session::{
    files_of, find, list_failed, ActionView, EntryView, EventView, SessionView, SettingsView,
    Stage,
};
use crate::text::utf8_lossy;
use vstd::prelude::*;

verus! {

/// The actions that the caller is given, one for each of `events`, by a
/// session that begins as `session`.
pub open spec fn run(session: SessionView, events: Seq<EventView>) -> Seq<ActionView>
    decreases events.len(),
{
    if events.len() == 0 {
        Seq::empty()
    } else {
        let (next, action) = session.step(events[0]);
        seq![action] + run(next, events.skip(1))
    }
}

/// The session after each of `events` in turn.
pub open spec fn after(session: SessionView, events: Seq<EventView>) -> SessionView
    decreases events.len(),
{
    if events.len() == 0 {
        session
    } else {
        after(session.step(events[0]).0, events.skip(1))
    }
}

impl SessionView {
    /// What holds of a session at every point of a run: the layout is that
    /// of the settings; while files are cleared and the image is copied, the
    /// descriptor is known and records the place of the copy; a removal is
    /// in work only while a stale file is left, and the copy only when none
    /// is; the window manager comes into play only where a reload is asked
    /// for; a failed run knows why it failed.
    pub open spec fn coherent(self) -> bool {
        &&& lays_out(
            self.settings.wallpaper_path,
            self.settings.output_directory,
            self.settings.home_directory,
            self.layout,
        )
        &&& self.config matches Some(config) ==> {
            &&& self.layout.destination == Some(config.file_path)
            &&& config.colors.dark.len() == ROLE_COUNT
            &&& config.colors.light.len() == ROLE_COUNT
        }
        &&& (self.stage is List || self.stage is Clear || self.stage is Copy || self.stage is Write)
            ==> self.config is Some
        &&& self.stage is Clear ==> self.stale.len() > 0
        &&& self.stage is Copy ==> self.stale.len() == 0
        &&& (self.stage is FindWindowManager || self.stage is Reload) ==> self.settings.reload
        &&& self.stage is Failed ==> self.failure is Some
    }
}

/// A palette that is read from a document has a color for every role.
pub proof fn lemma_palette_is_complete(json: JsonValue)
    ensures
        colors_of(json) matches Ok(colors) ==> colors.dark.len() == ROLE_COUNT
            && colors.light.len() == ROLE_COUNT,
{
}

/// A session is coherent when a run begins.
pub proof fn lemma_fresh_is_coherent(settings: SettingsView, layout: LayoutView)
    requires
        lays_out(
            settings.wallpaper_path,
            settings.output_directory,
            settings.home_directory,
            layout,
        ),
    ensures
        SessionView::fresh(settings, layout).coherent(),
{
}

/// A step keeps a session coherent, and leaves its settings and its layout
/// as they are.
pub proof fn lemma_step_keeps_coherent(session: SessionView, event: EventView)
    requires
        session.coherent(),
    ensures
        session.step(event).0.coherent(),
        session.step(event).0.settings == session.settings,
        session.step(event).0.layout == session.layout,
{
    if session.stage is Generate {
        if let EventView::Captured { output, success } = event {
            if let Ok(json) = json_parsed(utf8_lossy(output)) {
                lemma_palette_is_complete(json);
            }
        }
    }
}

/// A run that has stopped gives no other action than to stop, and so
/// changes no file.
pub proof fn lemma_stopped_stays_stopped(session: SessionView, events: Seq<EventView>)
    requires
        session.stage is Succeeded || session.stage is Failed,
    ensures
        forall|i: int|
            0 <= i < run(session, events).len() ==> (#[trigger] run(session, events)[i])
                == session.step(EventView::Completed).1,
        session.step(EventView::Completed).1 is Succeed || session.step(EventView::Completed).1 is Fail,
    decreases events.len(),
{
    if events.len() > 0 {
        let stop = session.step(EventView::Completed).1;
        lemma_stopped_stays_stopped(session, events.skip(1));
        assert forall|i: int| 0 <= i < run(session, events).len() implies (#[trigger] run(
            session,
            events,
        )[i]) == stop by {
            if i > 0 {
                assert(run(session, events)[i] == run(session, events.skip(1))[i - 1]);
            }
        }
    }
}

/// Where the reload is suppressed, no run starts a program without waiting
/// for it: the reload is never spawned.
pub proof fn lemma_suppressed_reload_is_never_spawned(
    session: SessionView,
    events: Seq<EventView>,
)
    requires
        session.coherent(),
        !session.settings.reload,
    ensures
        forall|i: int|
            0 <= i < run(session, events).len() ==> !((#[trigger] run(session, events)[i]) is Spawn),
    decreases events.len(),
{
    if events.len() > 0 {
        lemma_step_keeps_coherent(session, events[0]);
        lemma_suppressed_reload_is_never_spawned(session.step(events[0]).0, events.skip(1));
    }
}

/// Where the palette generator is not installed, the run fails for want of
/// it at once and changes no file, whatever is reported afterwards.
pub proof fn lemma_missing_generator_changes_nothing(
    settings: SettingsView,
    layout: LayoutView,
    events: Seq<EventView>,
)
    requires
        events.len() > 0,
        events[0] is Failed || (events[0] matches EventView::Captured { output, .. } && !found(
            Some(output),
        )),
    ensures
        forall|i: int|
            0 <= i < events.len() ==> (#[trigger] run(SessionView::fresh(settings, layout), events)[i])
                == (ActionView::Fail { error: generator_missing() }),
        forall|i: int|
            0 <= i < events.len() ==> !(#[trigger] run(
                SessionView::fresh(settings, layout),
                events,
            )[i]).changes_files(),
{
    let fresh = SessionView::fresh(settings, layout);
    let stopped = fresh.step(events[0]).0;
    lemma_stopped_stays_stopped(stopped, events.skip(1));
    lemma_run_len(fresh, events);
    lemma_run_len(stopped, events.skip(1));
}

/// A run gives one action for each event.
pub proof fn lemma_run_len(session: SessionView, events: Seq<EventView>)
    ensures
        run(session, events).len() == events.len(),
    decreases events.len(),
{
    if events.len() > 0 {
        lemma_run_len(session.step(events[0]).0, events.skip(1));
    }
}

/// Where the generator prints something that is no palette, the run fails
/// with what is wrong with the output and changes no file, whatever is
/// reported afterwards.
pub proof fn lemma_unreadable_palette_changes_nothing(
    session: SessionView,
    output: Seq<u8>,
    events: Seq<EventView>,
)
    requires
        session.stage is Generate,
        events.len() > 0,
        events[0] == (EventView::Captured { output, success: true }),
        colors_of_text(utf8_lossy(output)) is Err,
    ensures
        colors_of_text(utf8_lossy(output))->Err_0.kind == ErrorKind::ParseFailure,
        forall|i: int|
            0 <= i < events.len() ==> (#[trigger] run(session, events)[i]) == (ActionView::Fail {
                error: colors_of_text(utf8_lossy(output))->Err_0,
            }),
        forall|i: int|
            0 <= i < events.len() ==> !(#[trigger] run(session, events)[i]).changes_files(),
{
    let stopped = session.step(events[0]).0;
    lemma_stopped_stays_stopped(stopped, events.skip(1));
    lemma_run_len(session, events);
    lemma_run_len(stopped, events.skip(1));
}

/// A directory that is there and cannot be listed ends the run with a
/// failure of reading it, and no file is changed, whatever is reported
/// afterwards.
pub proof fn lemma_unreadable_directory_stops_the_run(
    session: SessionView,
    reason: Seq<char>,
    events: Seq<EventView>,
)
    requires
        session.stage is List,
        events.len() > 0,
        events[0] == (EventView::Failed { reason }),
    ensures
        list_failed(session.layout.active_directory, reason).kind == ErrorKind::IOFailure,
        forall|i: int|
            0 <= i < events.len() ==> (#[trigger] run(session, events)[i]) == (ActionView::Fail {
                error: list_failed(session.layout.active_directory, reason),
            }),
        forall|i: int|
            0 <= i < events.len() ==> !(#[trigger] run(session, events)[i]).changes_files(),
{
    let stopped = session.step(events[0]).0;
    lemma_stopped_stays_stopped(stopped, events.skip(1));
    lemma_run_len(session, events);
    lemma_run_len(stopped, events.skip(1));
}

/// Only a directory that does not exist is taken for an empty one: the run
/// then goes on with the copy of the image and removes nothing.
pub proof fn lemma_absent_directory_is_empty(session: SessionView)
    requires
        session.coherent(),
        session.stage is List,
    ensures
        session.layout.destination is Some,
        session.step(EventView::Absent).1 == (ActionView::Copy {
            source: session.settings.wallpaper_path,
            destination: session.layout.destination->0,
        }),
        session.step(EventView::Absent).0 == (SessionView {
            stage: Stage::Copy,
            stale: Seq::empty(),
            ..session
        }),
{
}

/// No file is changed before the palette is known: the lookup of the
/// generator and its run are answered by an action that changes none.
pub proof fn lemma_nothing_changes_before_the_palette(session: SessionView, event: EventView)
    requires
        session.stage is FindGenerator || (session.stage is Generate && !(event matches EventView::Captured {
            output,
            success,
        } && success && colors_of_text(utf8_lossy(output)) is Ok)),
    ensures
        !session.step(event).1.changes_files(),
{
}

/// The palette that the generator printed is the palette of the descriptor:
/// once it is read, the session holds a descriptor with exactly that palette
/// and the place of the copy.
pub proof fn lemma_palette_reaches_the_descriptor(
    session: SessionView,
    output: Seq<u8>,
    colors: ColorsView,
    destination: Seq<char>,
)
    requires
        session.stage is Generate,
        colors_of_text(utf8_lossy(output)) == Ok::<ColorsView, ErrorView>(colors),
        session.layout.destination == Some(destination),
    ensures
        session.step(EventView::Captured { output, success: true }).0.config == Some(
            ConfigView { file_path: destination, colors },
        ),
        session.step(EventView::Captured { output, success: true }).1 == (ActionView::List {
            directory: session.layout.active_directory,
        }),
{
}

/// The descriptor records where the image is copied to: the copy goes to the
/// path that the descriptor holds, which is the file name of the image
/// adjoined to the directory of the active wallpaper, and it is made of the
/// image that the settings name.
pub proof fn lemma_descriptor_records_the_copy(session: SessionView, event: EventView)
    requires
        session.coherent(),
        session.step(event).1 is Copy,
    ensures
        session.step(event).1->Copy_source == session.settings.wallpaper_path,
        session.step(event).0.config matches Some(config) && config.file_path == session.step(
            event,
        ).1->Copy_destination,
        path_file_name(session.settings.wallpaper_path) matches Some(name) && session.step(
            event,
        ).1->Copy_destination == path_joined(session.layout.active_directory, name),
{
}

/// What is written is the descriptor, with the palette that was read and the
/// place of the copy, and it goes to the descriptor's file.
pub proof fn lemma_the_descriptor_is_written(session: SessionView, event: EventView)
    requires
        session.coherent(),
        session.step(event).1 is Write,
    ensures
        session.step(event).1->Write_path == session.layout.descriptor_path,
        session.config matches Some(config) && descriptor_text(config) == Ok::<
            Seq<char>,
            ErrorView,
        >(session.step(event).1->Write_contents) && session.layout.destination == Some(
            config.file_path,
        ),
{
}

/// The image is copied only when no stale file is left, and a file is
/// removed only while it is the first of those that are left.
pub proof fn lemma_clearing_comes_first(session: SessionView, event: EventView)
    requires
        session.coherent(),
    ensures
        session.step(event).1 is Copy ==> session.step(event).0.stale.len() == 0,
        session.step(event).1 matches ActionView::Remove { path } ==> session.step(event).0.stale.len()
            > 0 && session.step(event).0.stale[0] == path,
{
}

/// Only regular files of the listed directory are removed: each stale file
/// is the path of an entry that is a regular file.
pub proof fn lemma_stale_files_are_regular(entries: Seq<EntryView>, at: int)
    requires
        0 <= at < files_of(entries).len(),
    ensures
        exists|i: int|
            0 <= i < entries.len() && (#[trigger] entries[i]).is_file && entries[i].path
                == files_of(entries)[at],
{
    let regular = |entry: EntryView| entry.is_file;
    let kept = entries.filter(regular);
    entries.lemma_filter_contains_rev(regular, kept[at]);
}

/// As many reports of success as `count` says.
pub open spec fn completions(count: nat) -> Seq<EventView> {
    Seq::new(count, |i: int| EventView::Completed)
}

/// The stale files are removed one by one, in the order of the listing, and
/// then the image is copied: while each removal succeeds, the actions that
/// follow the first removal are the other removals and then the copy.
pub proof fn lemma_clear_then_copy(session: SessionView, count: nat)
    requires
        session.coherent(),
        session.stage is Clear,
        count == session.stale.len(),
    ensures
        run(session, completions(count)).len() == count,
        forall|i: int|
            0 <= i < count - 1 ==> (#[trigger] run(session, completions(count))[i]) == (
            ActionView::Remove { path: session.stale[i + 1] }),
        run(session, completions(count))[count - 1] == (ActionView::Copy {
            source: session.settings.wallpaper_path,
            destination: session.layout.destination->0,
        }),
        after(session, completions(count)) == (SessionView {
            stage: Stage::Copy,
            stale: Seq::empty(),
            ..session
        }),
    decreases count,
{
    let events = completions(count);
    let (next, action) = session.step(events[0]);
    let rest = completions((count - 1) as nat);
    assert(events.skip(1) =~= rest);
    lemma_run_len(session, events);
    lemma_step_keeps_coherent(session, events[0]);
    if count > 1 {
        lemma_clear_then_copy(next, (count - 1) as nat);
    } else {
        assert(next.stale =~= Seq::empty());
        assert(after(next, rest) == next);
    }
}

/// The regular files of the directory of the active wallpaper once `action`
/// is carried out: a removal takes its file away, the copy puts the image
/// there, and nothing else touches the directory.
pub open spec fn directory_after(files: Set<Seq<char>>, action: ActionView) -> Set<Seq<char>> {
    match action {
        ActionView::Remove { path } => files.remove(path),
        ActionView::Copy { source, destination } => files.insert(destination),
        _ => files,
    }
}

/// The regular files of the directory once each of `actions` is carried out
/// in turn.
pub open spec fn directory_after_all(files: Set<Seq<char>>, actions: Seq<ActionView>) -> Set<
    Seq<char>,
>
    decreases actions.len(),
{
    if actions.len() == 0 {
        files
    } else {
        directory_after_all(directory_after(files, actions[0]), actions.skip(1))
    }
}

/// The removal of each of `stale` in turn, and then the copy.
pub open spec fn clearing_and_copy(
    stale: Seq<Seq<char>>,
    source: Seq<char>,
    destination: Seq<char>,
) -> Seq<ActionView> {
    stale.map_values(|path: Seq<char>| ActionView::Remove { path }).push(
        ActionView::Copy { source, destination },
    )
}

/// Once every file of a directory is removed and the image is copied, the
/// directory holds the image and nothing else.
proof fn lemma_clearing_leaves_the_copy(
    files: Set<Seq<char>>,
    stale: Seq<Seq<char>>,
    source: Seq<char>,
    destination: Seq<char>,
)
    requires
        forall|path: Seq<char>| files.contains(path) ==> stale.contains(path),
    ensures
        directory_after_all(files, clearing_and_copy(stale, source, destination)) == set![
            destination,
        ],
    decreases stale.len(),
{
    let actions = clearing_and_copy(stale, source, destination);
    if stale.len() == 0 {
        assert(directory_after(files, actions[0]) =~= set![destination]);
        assert(directory_after_all(set![destination], actions.skip(1)) == set![destination]);
    } else {
        let left = files.remove(stale[0]);
        assert(actions.skip(1) =~= clearing_and_copy(stale.skip(1), source, destination));
        assert forall|path: Seq<char>| left.contains(path) implies stale.skip(1).contains(path) by {
            let at = choose|at: int| 0 <= at < stale.len() && stale[at] == path;
            assert(stale.skip(1)[at - 1] == path);
        }
        lemma_clearing_leaves_the_copy(left, stale.skip(1), source, destination);
    }
}

/// After a run, the directory of the active wallpaper holds exactly one
/// file, the image that was copied: where the listing names the regular
/// files of the directory and each action succeeds, the run removes every
/// one of them and then copies the image.
pub proof fn lemma_one_file_is_left(session: SessionView, entries: Seq<EntryView>)
    requires
        session.coherent(),
        session.stage is List,
    ensures
        session.layout.destination is Some,
        run(
            session,
            seq![EventView::Listed { entries }] + completions(files_of(entries).len()),
        ) == clearing_and_copy(
            files_of(entries),
            session.settings.wallpaper_path,
            session.layout.destination->0,
        ),
        directory_after_all(
            files_of(entries).to_set(),
            run(session, seq![EventView::Listed { entries }] + completions(files_of(entries).len())),
        ) == set![session.layout.destination->0],
        after(
            session,
            seq![EventView::Listed { entries }] + completions(files_of(entries).len()),
        ) == (SessionView { stage: Stage::Copy, stale: Seq::empty(), ..session }),
{
    let files = files_of(entries);
    let count = files.len();
    let events = seq![EventView::Listed { entries }] + completions(count);
    let source = session.settings.wallpaper_path;
    let destination = session.layout.destination->0;
    let expected = clearing_and_copy(files, source, destination);
    let (next, first) = session.step(events[0]);
    lemma_step_keeps_coherent(session, events[0]);
    assert(events.skip(1) =~= completions(count));
    lemma_run_len(session, events);
    if count > 0 {
        lemma_clear_then_copy(next, count);
        assert forall|i: int| 0 < i < events.len() implies run(session, events)[i]
            == expected[i] by {
            assert(run(session, events)[i] == run(next, completions(count))[i - 1]);
        }
    } else {
        assert(next.stale =~= Seq::empty());
    }
    assert(run(session, events) =~= expected);
    lemma_clearing_leaves_the_copy(files.to_set(), files, source, destination);
}

/// A run over two stretches of events is the run over the first, and then
/// the run of the session that the first leaves over the second.
pub proof fn lemma_run_in_two_parts(
    session: SessionView,
    first: Seq<EventView>,
    second: Seq<EventView>,
)
    ensures
        run(session, first + second) == run(session, first) + run(after(session, first), second),
        after(session, first + second) == after(after(session, first), second),
    decreases first.len(),
{
    if first.len() == 0 {
        assert(first + second =~= second);
    } else {
        let next = session.step(first[0]).0;
        assert((first + second).skip(1) =~= first.skip(1) + second);
        lemma_run_in_two_parts(next, first.skip(1), second);
        assert(run(session, first + second) =~= run(session, first) + run(
            after(session, first),
            second,
        ));
    }
}

/// What the caller reports in a run in which nothing goes wrong: the lookup
/// that found the generator, the palette that the generator printed, the
/// listing and the removal of each stale file, the copy, the writing, and,
/// where a reload is asked for, the lookup that found the window manager
/// and the start of the reload.
pub open spec fn smooth_events(
    reload: bool,
    generator_lookup: Seq<u8>,
    output: Seq<u8>,
    entries: Seq<EntryView>,
    window_manager_lookup: Seq<u8>,
) -> Seq<EventView> {
    seq![
        EventView::Captured { output: generator_lookup, success: true },
        EventView::Captured { output, success: true },
    ] + (seq![EventView::Listed { entries }] + completions(files_of(entries).len())) + seq![
        EventView::Completed,
        EventView::Completed,
    ] + if reload {
        seq![
            EventView::Captured { output: window_manager_lookup, success: true },
            EventView::Completed,
        ]
    } else {
        Seq::empty()
    }
}

/// What the caller is given to do in such a run, after the lookup of the
/// generator with which every run begins: to run the generator, to list
/// the directory, to remove each stale file, to copy the image, to write
/// the descriptor, and either to stop or to look up the window manager,
/// start the reload and stop.
pub open spec fn smooth_actions(
    settings: SettingsView,
    layout: LayoutView,
    entries: Seq<EntryView>,
    contents: Seq<char>,
) -> Seq<ActionView> {
    seq![
        ActionView::Capture {
            program: GENERATOR@,
            arguments: generator_arguments_of(settings.wallpaper_path),
        },
        ActionView::List { directory: layout.active_directory },
    ] + clearing_and_copy(files_of(entries), settings.wallpaper_path, layout.destination->0)
        + seq![ActionView::Write { path: layout.descriptor_path, contents }] + if settings.reload {
        seq![
            find(WINDOW_MANAGER@),
            ActionView::Spawn {
                program: SHELL@,
                arguments: shell_arguments_of(settings.reload_command),
            },
            ActionView::Succeed,
        ]
    } else {
        seq![ActionView::Succeed]
    }
}

/// A run in which nothing goes wrong passes through its stages once and in
/// order: the generator runs, the directory is listed and cleared, the image
/// is copied, the descriptor of that palette and that copy is written, and
/// the window manager is reloaded where that is asked for.
pub proof fn lemma_smooth_run(
    settings: SettingsView,
    layout: LayoutView,
    generator_lookup: Seq<u8>,
    output: Seq<u8>,
    entries: Seq<EntryView>,
    window_manager_lookup: Seq<u8>,
    colors: ColorsView,
    contents: Seq<char>,
)
    requires
        lays_out(
            settings.wallpaper_path,
            settings.output_directory,
            settings.home_directory,
            layout,
        ),
        layout.destination is Some,
        found(Some(generator_lookup)),
        colors_of_text(utf8_lossy(output)) == Ok::<ColorsView, ErrorView>(colors),
        descriptor_text(ConfigView { file_path: layout.destination->0, colors }) == Ok::<
            Seq<char>,
            ErrorView,
        >(contents),
        settings.reload ==> found(Some(window_manager_lookup)),
    ensures
        run(
            SessionView::fresh(settings, layout),
            smooth_events(settings.reload, generator_lookup, output, entries, window_manager_lookup),
        ) == smooth_actions(settings, layout, entries, contents),
{
    let fresh = SessionView::fresh(settings, layout);
    let head = seq![
        EventView::Captured { output: generator_lookup, success: true },
        EventView::Captured { output, success: true },
    ];
    let middle = seq![EventView::Listed { entries }] + completions(files_of(entries).len());
    let written = seq![EventView::Completed, EventView::Completed];
    let tail = if settings.reload {
        seq![
            EventView::Captured { output: window_manager_lookup, success: true },
            EventView::Completed,
        ]
    } else {
        Seq::empty()
    };
    let generating = fresh.step(head[0]).0;
    let listing = generating.step(head[1]).0;
    lemma_fresh_is_coherent(settings, layout);
    lemma_step_keeps_coherent(fresh, head[0]);
    lemma_step_keeps_coherent(generating, head[1]);
    reveal_with_fuel(run, 3);
    reveal_with_fuel(after, 3);
    assert(run(fresh, head) =~= seq![
        ActionView::Capture {
            program: GENERATOR@,
            arguments: generator_arguments_of(settings.wallpaper_path),
        },
        ActionView::List { directory: layout.active_directory },
    ]);
    lemma_one_file_is_left(listing, entries);
    let copying = after(listing, middle);
    let writing = copying.step(written[0]).0;
    let done = writing.step(written[1]).0;
    if settings.reload {
        assert(run(done, tail) =~= seq![
            ActionView::Spawn {
                program: SHELL@,
                arguments: shell_arguments_of(settings.reload_command),
            },
            ActionView::Succeed,
        ]);
        assert(run(copying, written) =~= seq![
            ActionView::Write { path: layout.descriptor_path, contents },
            find(WINDOW_MANAGER@),
        ]);
    } else {
        assert(run(copying, written) =~= seq![
            ActionView::Write { path: layout.descriptor_path, contents },
            ActionView::Succeed,
        ]);
    }
    lemma_run_in_two_parts(fresh, head, middle);
    lemma_run_in_two_parts(fresh, head + middle, written);
    lemma_run_in_two_parts(fresh, head + middle + written, tail);
    assert(run(fresh, head + middle + written + tail) =~= smooth_actions(
        settings,
        layout,
        entries,
        contents,
    ));
}

} // verus!
