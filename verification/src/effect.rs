//! The boundary between the decisions and the world: what the driver is
//! asked to do, and what it reports back.

use vstd::prelude::*;
use crate::command::{Command, CommandView};
use crate::messages::{Incoming, IncomingView, MessageKind, Outgoing, OutgoingView};

verus! {

/// How a run of the build tool ended. Only a successful run hands its
/// standard output on.
#[derive(Debug, PartialEq, Eq)]
pub enum BuildOutcome {
    /// The tool could not be started.
    NotStarted,
    /// The tool ran and exited with a nonzero status.
    Failed,
    /// The tool exited with status zero and wrote these bytes.
    Succeeded(Vec<u8>),
}

/// A `BuildOutcome` as contracts see it.
pub enum BuildOutcomeView {
    NotStarted,
    Failed,
    Succeeded(Seq<u8>),
}

impl View for BuildOutcome {
    type V = BuildOutcomeView;

    open spec fn view(&self) -> BuildOutcomeView {
        match self {
            BuildOutcome::NotStarted => BuildOutcomeView::NotStarted,
            BuildOutcome::Failed => BuildOutcomeView::Failed,
            BuildOutcome::Succeeded(out) => BuildOutcomeView::Succeeded(out@),
        }
    }
}

/// What came of reading the artifact file.
#[derive(Debug, PartialEq, Eq)]
pub enum Artifact {
    /// The file could not be opened.
    OpenFailed,
    /// The file was opened and reading it failed.
    ReadFailed,
    /// The whole content of the file.
    Loaded(Vec<u8>),
}

/// An `Artifact` as contracts see it.
pub enum ArtifactView {
    OpenFailed,
    ReadFailed,
    Loaded(Seq<u8>),
}

impl View for Artifact {
    type V = ArtifactView;

    open spec fn view(&self) -> ArtifactView {
        match self {
            Artifact::OpenFailed => ArtifactView::OpenFailed,
            Artifact::ReadFailed => ArtifactView::ReadFailed,
            Artifact::Loaded(bytes) => ArtifactView::Loaded(bytes@),
        }
    }
}

/// Why a session cannot go on.
#[derive(Clone, Copy, Debug, PartialEq, Eq, Structural)]
pub enum Fault {
    /// A frame did not decode as the message that was due.
    Malformed(MessageKind),
    /// The coordinator answered the registration with this nonzero code.
    Rejected(i32),
    /// The driver reported something that answers no outstanding action.
    Unexpected,
}

/// What the driver is to do next. It performs the action, then reports
/// the matching `Event`.
#[derive(Debug, PartialEq, Eq)]
pub enum Action {
    /// Encode the message and send it as one binary frame; report `Sent`.
    Send(Outgoing),
    /// Block until the next frame arrives; report `Frame` with its payload.
    Receive,
    /// Decode the payload as a message of this kind; report `Decoded`, or
    /// `Malformed`.
    Decode(MessageKind, Vec<u8>),
    /// Report `Status(true)` if the path is an existing directory.
    ProbeDir(String),
    /// Create the directory and its parents; report `Status(true)` if it
    /// is there afterwards.
    CreateDir(String),
    /// Run the command to its end; report `Status(true)` if it exited with
    /// status zero, and `Status(false)` if it did not or could not be
    /// started.
    Run(Command),
    /// Run the command, capturing its standard output; report `Built`.
    Build(Command),
    /// Read the whole file; report `Loaded`.
    ReadFile(String),
    /// The job is done; close the session.
    Stop,
    /// The session failed for good.
    Abort(Fault),
}

/// An `Action` as contracts see it.
pub enum ActionView {
    Send(OutgoingView),
    Receive,
    Decode(MessageKind, Seq<u8>),
    ProbeDir(Seq<char>),
    CreateDir(Seq<char>),
    Run(CommandView),
    Build(CommandView),
    ReadFile(Seq<char>),
    Stop,
    Abort(Fault),
}

impl View for Action {
    type V = ActionView;

    open spec fn view(&self) -> ActionView {
        match self {
            Action::Send(m) => ActionView::Send(m@),
            Action::Receive => ActionView::Receive,
            Action::Decode(kind, payload) => ActionView::Decode(*kind, payload@),
            Action::ProbeDir(path) => ActionView::ProbeDir(path@),
            Action::CreateDir(path) => ActionView::CreateDir(path@),
            Action::Run(command) => ActionView::Run(command@),
            Action::Build(command) => ActionView::Build(command@),
            Action::ReadFile(path) => ActionView::ReadFile(path@),
            Action::Stop => ActionView::Stop,
            Action::Abort(fault) => ActionView::Abort(*fault),
        }
    }
}

/// What the driver reports after an action.
#[derive(Debug, PartialEq, Eq)]
pub enum Event {
    /// The message of the last `Send` is on the channel.
    Sent,
    /// A frame arrived with this payload.
    Frame(Vec<u8>),
    /// The payload decoded as this message.
    Decoded(Incoming),
    /// The payload did not decode.
    Malformed,
    /// Whether a probe, a directory creation or a command succeeded.
    Status(bool),
    /// How the build tool ended.
    Built(BuildOutcome),
    /// What came of reading the artifact.
    Loaded(Artifact),
}

/// An `Event` as contracts see it.
pub enum EventView {
    Sent,
    Frame(Seq<u8>),
    Decoded(IncomingView),
    Malformed,
    Status(bool),
    Built(BuildOutcomeView),
    Loaded(ArtifactView),
}

impl View for Event {
    type V = EventView;

    open spec fn view(&self) -> EventView {
        match self {
            Event::Sent => EventView::Sent,
            Event::Frame(payload) => EventView::Frame(payload@),
            Event::Decoded(m) => EventView::Decoded(m@),
            Event::Malformed => EventView::Malformed,
            Event::Status(ok) => EventView::Status(*ok),
            Event::Built(outcome) => EventView::Built(outcome@),
            Event::Loaded(artifact) => EventView::Loaded(artifact@),
        }
    }
}

} // verus!
