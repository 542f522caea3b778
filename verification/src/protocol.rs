//! The words that the supervisor and its caller exchange.
//!
//! An operation opens with a [`Request`]. The supervisor replies with an
//! [`Action`]; the caller carries it out and hands back the matching
//! [`Answer`], and so on until the action is [`Action::Done`].

use crate::error::SupervisorError;
use vstd::prelude::*;

verus! {

/// On whose behalf a start runs.
#[derive(Clone, Copy, Debug, PartialEq, Eq, Structural)]
pub enum Mode {
    /// The user asked: every failure is reported.
    Explicit,
    /// The application's launch asked: the backend is started only if its
    /// file is there, and no failure is reported.
    Automatic,
}

/// What the caller asks of an idle supervisor.
#[derive(Clone, Copy, Debug, PartialEq, Eq, Structural)]
pub enum Request {
    /// Start the backend unless it runs.
    Start,
    /// Start the backend on launch, quietly.
    AutoStart,
    /// Stop the backend if it runs.
    Stop,
}

/// Where a stream that a child process writes to leads.
#[derive(Clone, Copy, Debug, PartialEq, Eq, Structural)]
pub enum Redirect {
    /// Into a pipe whose other end the parent owns.
    Piped,
    /// To wherever the parent's own stream leads.
    Inherited,
    /// Nowhere.
    Discarded,
}

/// What the supervisor wants done next. `H` is the caller's handle to a
/// running process.
#[derive(Debug, PartialEq, Eq)]
pub enum Action<H> {
    /// Ask the system for the path of the running executable.
    LocateExecutable,
    /// Look whether a file exists at this path.
    ProbeFile(String),
    /// Spawn the executable at `path` as a child process, its standard
    /// output and standard error led as said.
    Spawn { path: String, stdout: Redirect, stderr: Redirect },
    /// Kill this process at once, by force.
    Kill(H),
    /// The operation is over, with this result.
    Done(Result<(), SupervisorError>),
}

/// What came of an action. A failure carries the system's description.
#[derive(Debug, PartialEq, Eq)]
pub enum Answer<H> {
    /// To [`Action::LocateExecutable`]: the path of the running executable.
    ExecutableLocated(Result<String, String>),
    /// To [`Action::ProbeFile`]: whether the file exists.
    FileProbed(bool),
    /// To [`Action::Spawn`]: the handle of the new process.
    SpawnFinished(Result<H, String>),
    /// To [`Action::Kill`].
    KillFinished(Result<(), String>),
}

/// An [`Action`] with its paths as sequences of characters.
pub enum ActionView<H> {
    /// [`Action::LocateExecutable`].
    LocateExecutable,
    /// [`Action::ProbeFile`].
    ProbeFile(Seq<char>),
    /// [`Action::Spawn`].
    Spawn { path: Seq<char>, stdout: Redirect, stderr: Redirect },
    /// [`Action::Kill`].
    Kill(H),
    /// [`Action::Done`].
    Done(Result<(), SupervisorError>),
}

impl<H> View for Action<H> {
    type V = ActionView<H>;

    open spec fn view(&self) -> ActionView<H> {
        match *self {
            Action::LocateExecutable => ActionView::LocateExecutable,
            Action::ProbeFile(path) => ActionView::ProbeFile(path@),
            Action::Spawn { path, stdout, stderr } => ActionView::Spawn {
                path: path@,
                stdout,
                stderr,
            },
            Action::Kill(handle) => ActionView::Kill(handle),
            Action::Done(result) => ActionView::Done(result),
        }
    }
}

} // verus!
