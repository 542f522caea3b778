//! The supervisor: at most one backend process, started and stopped on
//! request.

use crate::error::SupervisorError;
use crate::model::{Phase, State};
use crate::path::resolve_backend_path;
use crate::platform::Platform;
use crate::protocol::{Action, Answer, Mode, Redirect, Request};
use vstd::prelude::*;

verus! {

/// The executable form of [`Phase`].
enum Stage {
    Idle,
    Locating(Mode),
    Probing(String),
    Spawning(Mode),
    Killing,
}

impl View for Stage {
    type V = Phase;

    closed spec fn view(&self) -> Phase {
        match *self {
            Stage::Idle => Phase::Idle,
            Stage::Locating(mode) => Phase::Locating(mode),
            Stage::Probing(path) => Phase::Probing(path@),
            Stage::Spawning(mode) => Phase::Spawning(mode),
            Stage::Killing => Phase::Killing,
        }
    }
}

/// Owns the handle of the backend process, if one runs. `H` is the caller's
/// handle type; the supervisor only keeps it and gives it back to be killed.
pub struct Supervisor<H> {
    held: Option<H>,
    stage: Stage,
    platform: Platform,
}

impl<H> View for Supervisor<H> {
    type V = State<H>;

    closed spec fn view(&self) -> State<H> {
        State { held: self.held, phase: self.stage@, platform: self.platform }
    }
}

impl<H> Supervisor<H> {
    #[verifier::type_invariant]
    spec fn inv(self) -> bool {
        self@.wf()
    }

    /// A supervisor for this platform, with no process.
    pub fn new(platform: Platform) -> (supervisor: Supervisor<H>)
        ensures
            supervisor@ == State::<H>::initial(platform),
    {
        Supervisor { held: None, stage: Stage::Idle, platform }
    }

    /// Whether a backend process is held.
    pub fn is_running(&self) -> (running: bool)
        ensures
            running == (self@.held is Some),
    {
        self.held.is_some()
    }

    /// Whether no operation is in progress, so that one may be requested.
    pub fn is_idle(&self) -> (idle: bool)
        ensures
            idle == (self@.phase is Idle),
    {
        match self.stage {
            Stage::Idle => true,
            _ => false,
        }
    }

    /// The platform that this supervisor resolves paths for.
    pub fn platform(&self) -> (platform: Platform)
        ensures
            platform == self@.platform,
    {
        self.platform
    }

    /// The handle of the backend process, if one is held.
    pub fn handle(&self) -> (held: Option<&H>)
        ensures
            match self@.held {
                Some(handle) => held == Some(&handle),
                None => held is None,
            },
    {
        self.held.as_ref()
    }

    /// Whether `answer` is the one that the operation in progress waits for.
    pub fn expects(&self, answer: &Answer<H>) -> (expected: bool)
        ensures
            expected == self@.expects(*answer),
    {
        match (&self.stage, answer) {
            (Stage::Locating(_), Answer::ExecutableLocated(_)) => true,
            (Stage::Probing(_), Answer::FileProbed(_)) => true,
            (Stage::Spawning(_), Answer::SpawnFinished(_)) => true,
            (Stage::Killing, Answer::KillFinished(_)) => true,
            _ => false,
        }
    }

    /// Begins a start on the user's behalf. While a process is held this
    /// is done at once, with success and without effect. Like every
    /// operation it begins on an idle supervisor: the caller sees each
    /// operation through before it asks for the next.
    pub fn start(&mut self) -> (action: Action<H>)
        requires
            old(self)@.phase is Idle,
        ensures
            (final(self)@, action@) == old(self)@.begin(Request::Start),
            final(self)@.wf(),
    {
        self.begin_start(Mode::Explicit)
    }

    /// Begins the quiet start that the application's launch asks for (see
    /// [`crate::launch`]). While a process is held this is done at once.
    /// Otherwise the backend is spawned only if its file is there, and the
    /// operation succeeds whatever happens.
    pub fn auto_start(&mut self) -> (action: Action<H>)
        requires
            old(self)@.phase is Idle,
        ensures
            (final(self)@, action@) == old(self)@.begin(Request::AutoStart),
            final(self)@.wf(),
    {
        self.begin_start(Mode::Automatic)
    }

    fn begin_start(&mut self, mode: Mode) -> (action: Action<H>)
        requires
            old(self)@.phase is Idle,
        ensures
            (final(self)@, action@) == old(self)@.begin_start(mode),
            final(self)@.wf(),
    {
        if self.held.is_some() {
            Action::Done(Ok(()))
        } else {
            self.stage = Stage::Locating(mode);
            Action::LocateExecutable
        }
    }

    /// Begins a stop. While no process is held this is done at once, with
    /// success; otherwise the handle leaves the supervisor to be killed.
    pub fn stop(&mut self) -> (action: Action<H>)
        requires
            old(self)@.phase is Idle,
        ensures
            (final(self)@, action@) == old(self)@.begin(Request::Stop),
            final(self)@.wf(),
    {
        let mut held: Option<H> = None;
        core::mem::swap(&mut self.held, &mut held);
        match held {
            None => Action::Done(Ok(())),
            Some(handle) => {
                self.stage = Stage::Killing;
                Action::Kill(handle)
            },
        }
    }

    /// Takes the answer to the action that the supervisor last asked for,
    /// and says what comes next. A start ends with the new handle stored,
    /// or with the failure of the step that failed; a stop ends with the
    /// supervisor empty, whether or not the kill succeeded.
    pub fn resume(&mut self, answer: Answer<H>) -> (action: Action<H>)
        requires
            old(self)@.expects(answer),
        ensures
            (final(self)@, action@) == old(self)@.resume(answer),
            final(self)@.wf(),
    {
        proof {
            use_type_invariant(&*self);
        }
        let mut stage = Stage::Idle;
        core::mem::swap(&mut self.stage, &mut stage);
        match (stage, answer) {
            (Stage::Locating(mode), Answer::ExecutableLocated(located)) => {
                match resolve_backend_path(located, self.platform) {
                    Err(failure) => Self::fail(mode, SupervisorError::PathResolution(failure)),
                    Ok(path) => match mode {
                        Mode::Explicit => {
                            self.stage = Stage::Spawning(mode);
                            Self::spawn(path)
                        },
                        Mode::Automatic => {
                            self.stage = Stage::Probing(path.clone());
                            Action::ProbeFile(path)
                        },
                    },
                }
            },
            (Stage::Probing(path), Answer::FileProbed(present)) => {
                if present {
                    self.stage = Stage::Spawning(Mode::Automatic);
                    Self::spawn(path)
                } else {
                    Action::Done(Ok(()))
                }
            },
            (Stage::Spawning(mode), Answer::SpawnFinished(spawned)) => match spawned {
                Ok(handle) => {
                    self.held = Some(handle);
                    Action::Done(Ok(()))
                },
                Err(cause) => Self::fail(mode, SupervisorError::Spawn(cause)),
            },
            (Stage::Killing, Answer::KillFinished(killed)) => match killed {
                Ok(_) => Action::Done(Ok(())),
                Err(cause) => Action::Done(Err(SupervisorError::Termination(cause))),
            },
            _ => Action::Done(Ok(())),
        }
    }

    /// The order to spawn the backend at `path`, its output in pipes.
    fn spawn(path: String) -> (action: Action<H>)
        ensures
            action@ == State::<H>::spawn(path@),
    {
        Action::Spawn { path, stdout: Redirect::Piped, stderr: Redirect::Piped }
    }

    /// Ends an operation of which a step has failed.
    fn fail(mode: Mode, error: SupervisorError) -> (action: Action<H>)
        ensures
            action@ == State::<H>::failure(mode, error),
    {
        match mode {
            Mode::Explicit => Action::Done(Err(error)),
            Mode::Automatic => Action::Done(Ok(())),
        }
    }
}

} // verus!
