//! One upload from its first part to its answer, as a state machine.
//!
//! The program around the library does the outside work and reports it as
//! events; `Upload::step` answers each event with the next thing to do.
//! The machine never waits, reads or writes by itself.

use crate::config::{Config, ConfigView};
use crate::identifier::{fresh_uuid_text, is_identifier, is_valid};
use crate::ingest::{accepts, is_accepted, staged_path, staged_path_of};
use crate::merge::{arguments, arguments_of, conclude, MergeResult, ToolExit};
use crate::response::{
    launch_failed, merge_failed, merged, no_valid_files, storage_failed, Response, ResponseView,
};
use crate::store::{artifact_path, artifact_path_of, partial_path, partial_path_of};
use crate::text::texts;
use vstd::prelude::*;
use vstd::string::*;

verus! {

/// Where an upload stands.
#[derive(Clone, Copy, Debug, PartialEq, Eq, Structural)]
pub enum Phase {
    /// Parts are still coming in.
    ReceivingParts,
    /// The body has ended with files staged, and the tool is running.
    Invoking,
    /// The tool has succeeded, and its output is being moved into place.
    Publishing,
    /// Ended: the body held no accepted file.
    NoValidFiles,
    /// Ended: the artifact is in the store.
    MergeSucceeded,
    /// Ended: the tool ran and reported failure.
    MergeFailed,
    /// Ended: the tool could not be started.
    ProcessLaunchFailed,
    /// Ended: a file could not be read, written or moved.
    StorageFailed,
}

impl Phase {
    /// Whether the upload has ended.
    pub open spec fn is_terminal(self) -> bool {
        !(self is ReceivingParts || self is Invoking || self is Publishing)
    }

    /// Tests whether the upload has ended.
    pub fn terminal(&self) -> (r: bool)
        ensures
            r == self.is_terminal(),
    {
        match self {
            Phase::ReceivingParts | Phase::Invoking | Phase::Publishing => false,
            _ => true,
        }
    }
}

/// What happened outside since the last step.
#[derive(Clone, Debug, PartialEq, Eq)]
pub enum Event {
    /// The next part of the body has begun; `name` is the name it is judged by.
    PartOpened { name: String },
    /// The body has no further part.
    BodyEnded,
    /// The tool has ended, or could not be started.
    ToolEnded { exit: ToolExit },
    /// The tool's output has been moved to the artifact's path.
    Published,
    /// Reading the body, writing a staged file or moving the output failed.
    IoFailed,
}

/// An `Event` as plain values.
pub enum EventView {
    PartOpened { name: Seq<char> },
    BodyEnded,
    ToolEnded { exit: ToolExit },
    Published,
    IoFailed,
}

impl View for Event {
    type V = EventView;

    open spec fn view(&self) -> EventView {
        match self {
            Event::PartOpened { name } => EventView::PartOpened { name: name@ },
            Event::BodyEnded => EventView::BodyEnded,
            Event::ToolEnded { exit } => EventView::ToolEnded { exit: *exit },
            Event::Published => EventView::Published,
            Event::IoFailed => EventView::IoFailed,
        }
    }
}

/// What the program around the library does next.
#[derive(Clone, Debug, PartialEq, Eq)]
pub enum Action {
    /// Write the bytes of the current part, unchanged, to the file `path`.
    Stage { path: String },
    /// Read the current part to its end and drop its bytes.
    Skip,
    /// Run `program` with `arguments` off the request threads, wait for it
    /// to end and report how it ended.
    Invoke { program: String, arguments: Vec<String> },
    /// Rename the file `from` to `to` and report whether that worked.
    Publish { from: String, to: String },
    /// The upload is over: delete the file `discard` if there is one, delete
    /// the workspace, and send `response`.
    Finish { discard: Option<String>, response: Response },
    /// The event does not apply in this phase: nothing is to be done.
    Ignore,
}

/// An `Action` as plain values.
pub enum ActionView {
    Stage { path: Seq<char> },
    Skip,
    Invoke { program: Seq<char>, arguments: Seq<Seq<char>> },
    Publish { from: Seq<char>, to: Seq<char> },
    Finish { discard: Option<Seq<char>>, response: ResponseView },
    Ignore,
}

impl View for Action {
    type V = ActionView;

    open spec fn view(&self) -> ActionView {
        match self {
            Action::Stage { path } => ActionView::Stage { path: path@ },
            Action::Skip => ActionView::Skip,
            Action::Invoke { program, arguments } => ActionView::Invoke {
                program: program@,
                arguments: texts(arguments@),
            },
            Action::Publish { from, to } => ActionView::Publish { from: from@, to: to@ },
            Action::Finish { discard, response } => ActionView::Finish {
                discard: match discard {
                    Some(path) => Some(path@),
                    None => None,
                },
                response: response@,
            },
            Action::Ignore => ActionView::Ignore,
        }
    }
}

/// The state of one upload.
#[derive(Debug)]
pub struct Upload {
    workspace: String,
    identifier: String,
    staged: Vec<String>,
    phase: Phase,
}

/// An `Upload` as plain values.
pub struct UploadView {
    /// Directory in which accepted parts are staged.
    pub workspace: Seq<char>,
    /// Identifier of the artifact that this upload makes.
    pub identifier: Seq<char>,
    /// Paths of the parts staged so far, in the order received.
    pub staged: Seq<Seq<char>>,
    pub phase: Phase,
}

/// The state in which an upload begins.
pub open spec fn initial(workspace: Seq<char>, identifier: Seq<char>) -> UploadView {
    UploadView { workspace, identifier, staged: Seq::empty(), phase: Phase::ReceivingParts }
}

/// The state `s` moved to the phase `phase`.
pub open spec fn moved(s: UploadView, phase: Phase) -> UploadView {
    UploadView { phase, ..s }
}

/// The transition function: the state after `e` and the action that
/// answers it.
pub open spec fn next(config: ConfigView, s: UploadView, e: EventView) -> (UploadView, ActionView) {
    let partial = partial_path(config.storage_dir, s.identifier);
    let artifact = artifact_path(config.storage_dir, s.identifier);
    match (s.phase, e) {
        (Phase::ReceivingParts, EventView::PartOpened { name }) => {
            if accepts(config.accepted_extension, name) {
                let path = staged_path(s.workspace, name);
                (UploadView { staged: s.staged.push(path), ..s }, ActionView::Stage { path })
            } else {
                (s, ActionView::Skip)
            }
        },
        (Phase::ReceivingParts, EventView::BodyEnded) => {
            if s.staged.len() == 0 {
                (
                    moved(s, Phase::NoValidFiles),
                    ActionView::Finish { discard: None, response: no_valid_files() },
                )
            } else {
                (
                    moved(s, Phase::Invoking),
                    ActionView::Invoke {
                        program: config.tool_path,
                        arguments: arguments(s.staged, partial),
                    },
                )
            }
        },
        (Phase::ReceivingParts, EventView::IoFailed) => (
            moved(s, Phase::StorageFailed),
            ActionView::Finish { discard: None, response: storage_failed() },
        ),
        (Phase::Invoking, EventView::ToolEnded { exit }) => match exit {
            ToolExit::Success => (
                moved(s, Phase::Publishing),
                ActionView::Publish { from: partial, to: artifact },
            ),
            ToolExit::Failure => (
                moved(s, Phase::MergeFailed),
                ActionView::Finish { discard: Some(partial), response: merge_failed() },
            ),
            ToolExit::NotStarted => (
                moved(s, Phase::ProcessLaunchFailed),
                ActionView::Finish { discard: None, response: launch_failed() },
            ),
        },
        (Phase::Invoking, EventView::IoFailed) => (
            moved(s, Phase::StorageFailed),
            ActionView::Finish { discard: Some(partial), response: storage_failed() },
        ),
        (Phase::Publishing, EventView::Published) => (
            moved(s, Phase::MergeSucceeded),
            ActionView::Finish {
                discard: None,
                response: merged(s.identifier, s.staged.len()),
            },
        ),
        (Phase::Publishing, EventView::IoFailed) => (
            moved(s, Phase::StorageFailed),
            ActionView::Finish { discard: Some(partial), response: storage_failed() },
        ),
        _ => (s, ActionView::Ignore),
    }
}

impl View for Upload {
    type V = UploadView;

    closed spec fn view(&self) -> UploadView {
        UploadView {
            workspace: self.workspace@,
            identifier: self.identifier@,
            staged: texts(self.staged@),
            phase: self.phase,
        }
    }
}

impl Upload {
    /// Begins an upload that stages in `workspace` and makes the artifact
    /// `identifier`. Refuses an `identifier` that has not the shape of one.
    pub fn begin_with(workspace: String, identifier: String) -> (r: Option<Upload>)
        ensures
            r is Some <==> is_identifier(identifier@),
            r matches Some(upload) ==> upload@ == initial(workspace@, identifier@),
    {
        if is_valid(identifier.as_str()) {
            let upload = Upload {
                workspace,
                identifier,
                staged: Vec::new(),
                phase: Phase::ReceivingParts,
            };
            assert(upload@.staged =~= Seq::empty());
            Some(upload)
        } else {
            None
        }
    }

    /// Begins an upload that stages in `workspace`, under a fresh identifier.
    pub fn begin(workspace: String) -> (r: Upload)
        ensures
            is_identifier(r@.identifier),
            r@ == initial(workspace@, r@.identifier),
    {
        let upload = Upload {
            workspace,
            identifier: fresh_uuid_text(),
            staged: Vec::new(),
            phase: Phase::ReceivingParts,
        };
        assert(upload@.staged =~= Seq::empty());
        upload
    }

    /// The phase that the upload is in.
    pub fn phase(&self) -> (r: Phase)
        ensures
            r == self@.phase,
    {
        self.phase
    }

    /// The identifier of the artifact that the upload makes.
    pub fn identifier(&self) -> (r: &str)
        ensures
            r@ == self@.identifier,
    {
        self.identifier.as_str()
    }

    /// The directory in which the upload stages its parts.
    pub fn workspace(&self) -> (r: &str)
        ensures
            r@ == self@.workspace,
    {
        self.workspace.as_str()
    }

    /// The paths of the parts staged so far, in the order received.
    pub fn staged(&self) -> (r: &Vec<String>)
        ensures
            texts(r@) == self@.staged,
    {
        &self.staged
    }

    /// Takes the upload one event further and says what to do next.
    pub fn step(&mut self, config: &Config, event: Event) -> (action: Action)
        ensures
            (final(self)@, action@) == next(config@, old(self)@, event@),
    {
        let ghost before = self@;
        match self.phase {
            Phase::ReceivingParts => match event {
                Event::PartOpened { name } => {
                    if is_accepted(config, name.as_str()) {
                        let path = staged_path_of(self.workspace.as_str(), name.as_str());
                        self.staged.push(path.clone());
                        assert(self@.staged =~= before.staged.push(path@));
                        Action::Stage { path }
                    } else {
                        Action::Skip
                    }
                },
                Event::BodyEnded => {
                    if self.staged.len() == 0 {
                        self.phase = Phase::NoValidFiles;
                        Action::Finish { discard: None, response: Response::no_valid_files() }
                    } else {
                        let partial = partial_path_of(config, self.identifier.as_str());
                        let arguments = arguments_of(&self.staged, partial.as_str());
                        self.phase = Phase::Invoking;
                        Action::Invoke { program: config.tool_path.clone(), arguments }
                    }
                },
                Event::IoFailed => {
                    self.phase = Phase::StorageFailed;
                    Action::Finish { discard: None, response: Response::storage_failed() }
                },
                _ => Action::Ignore,
            },
            Phase::Invoking => match event {
                Event::ToolEnded { exit } => {
                    let partial = partial_path_of(config, self.identifier.as_str());
                    match conclude(exit, self.identifier.as_str(), self.staged.len()) {
                        MergeResult::Merged { identifier, count: _ } => {
                            self.phase = Phase::Publishing;
                            let to = artifact_path_of(config, identifier.as_str());
                            Action::Publish { from: partial, to }
                        },
                        MergeResult::Failed { reason } => {
                            let response = Response::failed(reason);
                            match exit {
                                ToolExit::NotStarted => {
                                    self.phase = Phase::ProcessLaunchFailed;
                                    Action::Finish { discard: None, response }
                                },
                                _ => {
                                    self.phase = Phase::MergeFailed;
                                    Action::Finish { discard: Some(partial), response }
                                },
                            }
                        },
                    }
                },
                Event::IoFailed => {
                    self.phase = Phase::StorageFailed;
                    let partial = partial_path_of(config, self.identifier.as_str());
                    Action::Finish { discard: Some(partial), response: Response::storage_failed() }
                },
                _ => Action::Ignore,
            },
            Phase::Publishing => match event {
                Event::Published => {
                    self.phase = Phase::MergeSucceeded;
                    let response = Response::merged(self.identifier.as_str(), self.staged.len());
                    Action::Finish { discard: None, response }
                },
                Event::IoFailed => {
                    self.phase = Phase::StorageFailed;
                    let partial = partial_path_of(config, self.identifier.as_str());
                    Action::Finish { discard: Some(partial), response: Response::storage_failed() }
                },
                _ => Action::Ignore,
            },
            _ => Action::Ignore,
        }
    }
}

} // verus!
