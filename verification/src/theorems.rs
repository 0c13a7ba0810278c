//! What holds of every upload and every download, proved over the
//! transition function and a model of the disk.
//!
//! The model says what the events report and what the actions do to the
//! files of the storage directory and to the workspaces. It is the reading
//! of `Event` and `Action` that the program around the library has to
//! honour.

use crate::config::ConfigView;
use crate::identifier::is_identifier;
use crate::ingest::{accepts, staged_paths, staged_paths_bounded};
use crate::merge::{arguments, ToolExit};
use crate::pipeline::{initial, next, ActionView, EventView, Phase, UploadView};
use crate::response::{launch_failed, merge_failed, merged, no_valid_files};
use crate::store::{
    artifact_path, artifact_paths_are_distinct, download_url, located, partial_path,
    partial_path_is_no_artifact, retrieval, RetrievalView,
};
use vstd::prelude::*;

verus! {

/// The part of the disk that uploads touch.
pub struct Disk {
    /// Paths of the files in the storage directory.
    pub files: Set<Seq<char>>,
    /// Paths of the workspaces that exist.
    pub workspaces: Set<Seq<char>>,
}

/// The disk once what `e` reports has happened. A tool that has run has
/// written its output path; for a failed run this is the worst case, and
/// the action that follows removes the file either way. `Published` reports
/// the rename that the machine asked for on entering `Publishing`.
pub open spec fn reported(config: ConfigView, s: UploadView, e: EventView, disk: Disk) -> Disk {
    let partial = partial_path(config.storage_dir, s.identifier);
    let artifact = artifact_path(config.storage_dir, s.identifier);
    match (s.phase, e) {
        (Phase::Invoking, EventView::ToolEnded { exit }) => if exit is NotStarted {
            disk
        } else {
            Disk { files: disk.files.insert(partial), ..disk }
        },
        (Phase::Publishing, EventView::Published) => Disk {
            files: disk.files.remove(partial).insert(artifact),
            ..disk
        },
        _ => disk,
    }
}

/// The disk once `action`, given in answer to an event of the upload `s`,
/// has been carried out. Only `Finish` touches it: the other actions show
/// in the events that report them.
pub open spec fn carried_out(s: UploadView, action: ActionView, disk: Disk) -> Disk {
    match action {
        ActionView::Finish { discard, response } => Disk {
            files: match discard {
                Some(path) => disk.files.remove(path),
                None => disk.files,
            },
            workspaces: disk.workspaces.remove(s.workspace),
        },
        _ => disk,
    }
}

/// The disk after the event `e` has been reported in the state `s` and the
/// action that answers it has been carried out.
pub open spec fn after(config: ConfigView, s: UploadView, e: EventView, disk: Disk) -> Disk {
    carried_out(s, next(config, s, e).1, reported(config, s, e, disk))
}

/// The upload and the disk after the events `events`, each answered and
/// the answer carried out, starting from `s` and `disk`.
pub open spec fn run(
    config: ConfigView,
    s: UploadView,
    disk: Disk,
    events: Seq<EventView>,
) -> (UploadView, Disk)
    decreases events.len(),
{
    if events.len() == 0 {
        (s, disk)
    } else {
        let (t, d) = run(config, s, disk, events.drop_last());
        (next(config, t, events.last()).0, after(config, t, events.last(), d))
    }
}

/// The action that answers the last of `events`.
pub open spec fn answer(
    config: ConfigView,
    s: UploadView,
    disk: Disk,
    events: Seq<EventView>,
) -> ActionView
    recommends
        events.len() > 0,
{
    next(config, run(config, s, disk, events.drop_last()).0, events.last()).1
}

/// The events of a body whose parts are named `names`, before its end.
pub open spec fn parts(names: Seq<Seq<char>>) -> Seq<EventView> {
    Seq::new(names.len(), |i: int| EventView::PartOpened { name: names[i] })
}

/// The events of an upload whose body holds the parts `names` and whose
/// tool, if it is run, ends with `exit`; after a successful run the output
/// is moved into place.
pub open spec fn upload(names: Seq<Seq<char>>, exit: ToolExit) -> Seq<EventView> {
    let tried = parts(names).push(EventView::BodyEnded).push(EventView::ToolEnded { exit });
    if exit is Success {
        tried.push(EventView::Published)
    } else {
        tried
    }
}

/// While the parts come in, the staged paths are those of the accepted
/// parts in the order received, and the disk model is untouched.
pub proof fn receiving_stages_accepted_parts(
    config: ConfigView,
    workspace: Seq<char>,
    identifier: Seq<char>,
    disk: Disk,
    names: Seq<Seq<char>>,
)
    ensures
        run(config, initial(workspace, identifier), disk, parts(names)) == (
            UploadView {
                staged: staged_paths(config.accepted_extension, workspace, names),
                ..initial(workspace, identifier)
            },
            disk,
        ),
    decreases names.len(),
{
    let s = initial(workspace, identifier);
    if names.len() == 0 {
        assert(staged_paths(config.accepted_extension, workspace, names) =~= s.staged);
    } else {
        receiving_stages_accepted_parts(config, workspace, identifier, disk, names.drop_last());
        assert(parts(names).drop_last() =~= parts(names.drop_last()));
        assert(parts(names).last() == EventView::PartOpened { name: names.last() });
    }
}

/// An upload in which at least one part is accepted, whose tool exits
/// with success and whose output is moved into place, is answered with
/// status 200, the count of accepted parts and the download path of its
/// identifier; and a download of that identifier then serves the artifact.
pub proof fn accepted_upload_is_served(
    config: ConfigView,
    workspace: Seq<char>,
    identifier: Seq<char>,
    disk: Disk,
    names: Seq<Seq<char>>,
)
    requires
        is_identifier(identifier),
        exists|i: int| 0 <= i < names.len() && accepts(config.accepted_extension, #[trigger] names[i]),
    ensures
        ({
            let events = upload(names, ToolExit::Success);
            let s = initial(workspace, identifier);
            let count = staged_paths(config.accepted_extension, workspace, names).len();
            let end = run(config, s, disk, events);
            &&& end.0.phase == Phase::MergeSucceeded
            &&& answer(config, s, disk, events) == ActionView::Finish {
                discard: None,
                response: merged(identifier, count),
            }
            &&& merged(identifier, count).status == 200
            &&& merged(identifier, count).body->download_url == download_url(identifier)
            &&& retrieval(config.storage_dir, end.1.files, identifier) == RetrievalView::Serve {
                path: artifact_path(config.storage_dir, identifier),
            }
            &&& !end.1.workspaces.contains(workspace)
        }),
{
    let s = initial(workspace, identifier);
    let received = parts(names);
    let ended = received.push(EventView::BodyEnded);
    let tried = ended.push(EventView::ToolEnded { exit: ToolExit::Success });
    let events = tried.push(EventView::Published);
    receiving_stages_accepted_parts(config, workspace, identifier, disk, names);
    staged_paths_bounded(config.accepted_extension, workspace, names);
    assert(ended.drop_last() =~= received);
    assert(tried.drop_last() =~= ended);
    assert(events.drop_last() =~= tried);
    assert(run(config, s, disk, ended).0.phase == Phase::Invoking);
    assert(run(config, s, disk, tried).0.phase == Phase::Publishing);
}

/// An upload in which no part is accepted is answered with status 400,
/// leaves the storage directory as it was, and its workspace is gone.
pub proof fn rejected_upload_leaves_nothing(
    config: ConfigView,
    workspace: Seq<char>,
    identifier: Seq<char>,
    disk: Disk,
    names: Seq<Seq<char>>,
)
    requires
        forall|i: int| 0 <= i < names.len() ==> !accepts(config.accepted_extension, #[trigger] names[i]),
    ensures
        ({
            let events = parts(names).push(EventView::BodyEnded);
            let s = initial(workspace, identifier);
            let end = run(config, s, disk, events);
            &&& end.0.phase == Phase::NoValidFiles
            &&& answer(config, s, disk, events) == ActionView::Finish {
                discard: None,
                response: no_valid_files(),
            }
            &&& no_valid_files().status == 400
            &&& end.1.files == disk.files
            &&& !end.1.workspaces.contains(workspace)
        }),
{
    let s = initial(workspace, identifier);
    let received = parts(names);
    let events = received.push(EventView::BodyEnded);
    receiving_stages_accepted_parts(config, workspace, identifier, disk, names);
    staged_paths_bounded(config.accepted_extension, workspace, names);
    assert(events.drop_last() =~= received);
}

/// An upload whose tool fails, or cannot be started, is answered with
/// status 500 and makes nothing retrievable: a download of any identifier
/// that serves a file afterwards served it before. The partial output is
/// gone and so is the workspace.
pub proof fn failed_merge_exposes_nothing(
    config: ConfigView,
    workspace: Seq<char>,
    identifier: Seq<char>,
    disk: Disk,
    names: Seq<Seq<char>>,
    exit: ToolExit,
    other: Seq<char>,
)
    requires
        is_identifier(identifier),
        exists|i: int| 0 <= i < names.len() && accepts(config.accepted_extension, #[trigger] names[i]),
        !(exit is Success),
    ensures
        ({
            let events = upload(names, exit);
            let s = initial(workspace, identifier);
            let end = run(config, s, disk, events);
            let partial = partial_path(config.storage_dir, identifier);
            &&& end.0.phase == if exit is Failure {
                Phase::MergeFailed
            } else {
                Phase::ProcessLaunchFailed
            }
            &&& answer(config, s, disk, events) == if exit is Failure {
                ActionView::Finish { discard: Some(partial), response: merge_failed() }
            } else {
                ActionView::Finish { discard: None, response: launch_failed() }
            }
            &&& merge_failed().status == 500
            &&& launch_failed().status == 500
            &&& retrieval(config.storage_dir, end.1.files, other) is Serve ==> retrieval(
                config.storage_dir,
                disk.files,
                other,
            ) is Serve
            &&& !disk.files.contains(artifact_path(config.storage_dir, identifier)) ==> retrieval(
                config.storage_dir,
                end.1.files,
                identifier,
            ) == RetrievalView::NotFound
            &&& exit is Failure ==> !end.1.files.contains(partial)
            &&& !end.1.workspaces.contains(workspace)
        }),
{
    let s = initial(workspace, identifier);
    let received = parts(names);
    let ended = received.push(EventView::BodyEnded);
    let events = ended.push(EventView::ToolEnded { exit });
    receiving_stages_accepted_parts(config, workspace, identifier, disk, names);
    staged_paths_bounded(config.accepted_extension, workspace, names);
    assert(ended.drop_last() =~= received);
    assert(events.drop_last() =~= ended);
    assert(run(config, s, disk, ended) == (
        UploadView { phase: Phase::Invoking, ..run(config, s, disk, received).0 },
        disk,
    ));
    if is_identifier(other) {
        partial_path_is_no_artifact(config.storage_dir, identifier, other);
    }
}

/// A download of an identifier under whose path the storage directory
/// holds no file is answered as not found.
pub proof fn unused_identifier_is_not_found(dir: Seq<char>, files: Set<Seq<char>>, raw: Seq<char>)
    requires
        !files.contains(artifact_path(dir, raw)),
    ensures
        retrieval(dir, files, raw) == RetrievalView::NotFound,
{
}

/// Whatever happens in an upload, it neither makes nor removes the
/// artifact of another identifier: uploads under distinct identifiers do
/// not disturb each other.
pub proof fn uploads_do_not_collide(
    config: ConfigView,
    s: UploadView,
    disk: Disk,
    events: Seq<EventView>,
    other: Seq<char>,
)
    requires
        is_identifier(s.identifier),
        is_identifier(other),
        other != s.identifier,
    ensures
        run(config, s, disk, events).0.identifier == s.identifier,
        run(config, s, disk, events).1.files.contains(artifact_path(config.storage_dir, other))
            == disk.files.contains(artifact_path(config.storage_dir, other)),
    decreases events.len(),
{
    if events.len() > 0 {
        uploads_do_not_collide(config, s, disk, events.drop_last(), other);
        partial_path_is_no_artifact(config.storage_dir, s.identifier, other);
        if artifact_path(config.storage_dir, s.identifier) == artifact_path(
            config.storage_dir,
            other,
        ) {
            artifact_paths_are_distinct(config.storage_dir, s.identifier, other);
        }
    }
}

/// An upload that has ended stays as it is: no event is answered with
/// anything but `Ignore`, so nothing is ever tried twice.
pub proof fn ended_upload_is_final(config: ConfigView, s: UploadView, e: EventView)
    requires
        s.phase.is_terminal(),
    ensures
        next(config, s, e) == (s, ActionView::Ignore),
{
}

/// The tool is run only once the body has ended with at least one staged
/// file, and it is given exactly the staged files, the partial path as its
/// output, and the bit depth.
pub proof fn tool_is_given_the_staged_files(config: ConfigView, s: UploadView, e: EventView)
    requires
        next(config, s, e).1 is Invoke,
    ensures
        s.phase == Phase::ReceivingParts,
        e == EventView::BodyEnded,
        s.staged.len() > 0,
        next(config, s, e).1 == (ActionView::Invoke {
            program: config.tool_path,
            arguments: arguments(s.staged, partial_path(config.storage_dir, s.identifier)),
        }),
{
}

/// Writing and resolving agree: the path that an artifact is moved to is
/// the path that a download of its identifier opens.
pub proof fn published_path_is_the_resolved_path(config: ConfigView, s: UploadView, e: EventView)
    requires
        is_identifier(s.identifier),
        next(config, s, e).1 is Publish,
    ensures
        next(config, s, e).1 == (ActionView::Publish {
            from: partial_path(config.storage_dir, s.identifier),
            to: artifact_path(config.storage_dir, s.identifier),
        }),
        located(config.storage_dir, s.identifier) == Some(
            artifact_path(config.storage_dir, s.identifier),
        ),
{
}

/// An answer with status 200 is given only when the artifact is in place:
/// it answers `Published` alone, names the upload's own identifier, and the
/// artifact's file is then in the storage directory.
pub proof fn success_is_answered_only_with_the_artifact_in_place(
    config: ConfigView,
    s: UploadView,
    e: EventView,
    disk: Disk,
)
    requires
        next(config, s, e).1 matches ActionView::Finish { response, .. } && response.status == 200,
    ensures
        s.phase == Phase::Publishing,
        e == EventView::Published,
        next(config, s, e).1 == (ActionView::Finish {
            discard: None,
            response: merged(s.identifier, s.staged.len()),
        }),
        after(config, s, e, disk).files.contains(artifact_path(config.storage_dir, s.identifier)),
{
}

/// A file appears under the path of an artifact only through `Published`,
/// and only under the upload's own identifier: neither staging nor a run
/// of the tool, whatever its end, makes anything retrievable.
pub proof fn artifact_appears_only_when_published(
    config: ConfigView,
    s: UploadView,
    e: EventView,
    disk: Disk,
    other: Seq<char>,
)
    requires
        is_identifier(s.identifier),
        is_identifier(other),
        !disk.files.contains(artifact_path(config.storage_dir, other)),
        after(config, s, e, disk).files.contains(artifact_path(config.storage_dir, other)),
    ensures
        s.phase == Phase::Publishing,
        e == EventView::Published,
        other == s.identifier,
{
    partial_path_is_no_artifact(config.storage_dir, s.identifier, other);
    if artifact_path(config.storage_dir, s.identifier) == artifact_path(config.storage_dir, other) {
        artifact_paths_are_distinct(config.storage_dir, s.identifier, other);
    }
}

/// Every way in which an upload ends deletes its workspace, and with it
/// what was staged there.
pub proof fn every_ending_releases_the_workspace(
    config: ConfigView,
    s: UploadView,
    e: EventView,
    disk: Disk,
)
    requires
        !s.phase.is_terminal(),
        next(config, s, e).0.phase.is_terminal(),
    ensures
        next(config, s, e).1 is Finish,
        !after(config, s, e, disk).workspaces.contains(s.workspace),
{
}

} // verus!
