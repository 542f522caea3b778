//! The supervisor as a state machine over mathematical values.
//!
//! [`State`] is what a [`crate::supervisor::Supervisor`] stands for.
//! [`State::begin`] and [`State::resume`] are its transitions.
//! [`perform`] plays a whole operation against given [`Surroundings`].

use crate::error::SupervisorError;
use crate::path::resolved;
use crate::platform::Platform;
use crate::protocol::{ActionView, Answer, Mode, Redirect, Request};
use vstd::prelude::*;

verus! {

/// How far the operation in progress has come.
pub enum Phase {
    /// No operation is in progress.
    Idle,
    /// A start waits for the path of the running executable.
    Locating(Mode),
    /// An automatic start waits to hear whether the backend's file, at this
    /// path, exists.
    Probing(Seq<char>),
    /// A start waits for the new process.
    Spawning(Mode),
    /// A stop waits for the kill.
    Killing,
}

/// The state of a supervisor.
pub struct State<H> {
    /// The handle of the backend process, while it is known to run.
    pub held: Option<H>,
    /// How far the operation in progress has come.
    pub phase: Phase,
    /// The platform whose paths the supervisor writes.
    pub platform: Platform,
}

impl<H> State<H> {
    /// A supervisor that was just made: nothing runs, nothing is in progress.
    pub open spec fn initial(platform: Platform) -> State<H> {
        State { held: None, phase: Phase::Idle, platform }
    }

    /// While an operation is in progress no handle is held: a start began
    /// with none, and a stop took the one there was.
    pub open spec fn wf(self) -> bool {
        self.phase is Idle || self.held is None
    }

    /// An idle supervisor with this handle.
    pub open spec fn settled(self, held: Option<H>) -> State<H> {
        State { held, phase: Phase::Idle, platform: self.platform }
    }

    /// A supervisor in this phase of an operation, holding nothing.
    pub open spec fn busy(self, phase: Phase) -> State<H> {
        State { held: None, phase, platform: self.platform }
    }

    /// The first step of an operation: the state it leads to, and what the
    /// supervisor wants done.
    ///
    /// A start of either mode does nothing while a handle is held. A stop
    /// does nothing while none is; otherwise it gives the handle up to be
    /// killed.
    pub open spec fn begin(self, request: Request) -> (State<H>, ActionView<H>) {
        match request {
            Request::Start => self.begin_start(Mode::Explicit),
            Request::AutoStart => self.begin_start(Mode::Automatic),
            Request::Stop => match self.held {
                None => (self, ActionView::Done(Ok(()))),
                Some(handle) => (self.busy(Phase::Killing), ActionView::Kill(handle)),
            },
        }
    }

    /// The first step of a start: nothing while a handle is held, else the
    /// question where the running executable is.
    pub open spec fn begin_start(self, mode: Mode) -> (State<H>, ActionView<H>) {
        if self.held is Some {
            (self, ActionView::Done(Ok(())))
        } else {
            (self.busy(Phase::Locating(mode)), ActionView::LocateExecutable)
        }
    }

    /// Whether `answer` is the one that the operation in progress waits for.
    pub open spec fn expects(self, answer: Answer<H>) -> bool {
        match self.phase {
            Phase::Idle => false,
            Phase::Locating(_) => answer is ExecutableLocated,
            Phase::Probing(_) => answer is FileProbed,
            Phase::Spawning(_) => answer is SpawnFinished,
            Phase::Killing => answer is KillFinished,
        }
    }

    /// The order to spawn the backend at `path`. Both streams of its output
    /// are captured in pipes: not inherited from the parent, not discarded.
    pub open spec fn spawn(path: Seq<char>) -> ActionView<H> {
        ActionView::Spawn { path, stdout: Redirect::Piped, stderr: Redirect::Piped }
    }

    /// What an operation ends with when a step of it has failed: the error
    /// for the user who asked, success for the quiet start on launch.
    pub open spec fn failure(mode: Mode, error: SupervisorError) -> ActionView<H> {
        match mode {
            Mode::Explicit => ActionView::Done(Err(error)),
            Mode::Automatic => ActionView::Done(Ok(())),
        }
    }

    /// A later step of an operation: the state that an expected answer leads
    /// to, and what the supervisor wants done next. An answer that is not
    /// expected changes nothing.
    pub open spec fn resume(self, answer: Answer<H>) -> (State<H>, ActionView<H>) {
        match (self.phase, answer) {
            (Phase::Locating(mode), Answer::ExecutableLocated(located)) => match resolved(
                located,
                self.platform,
            ) {
                Err(failure) => (
                    self.settled(None),
                    Self::failure(mode, SupervisorError::PathResolution(failure)),
                ),
                Ok(path) => match mode {
                    Mode::Explicit => (self.busy(Phase::Spawning(mode)), Self::spawn(path)),
                    Mode::Automatic => (
                        self.busy(Phase::Probing(path)),
                        ActionView::ProbeFile(path),
                    ),
                },
            },
            (Phase::Probing(path), Answer::FileProbed(present)) => if present {
                (self.busy(Phase::Spawning(Mode::Automatic)), Self::spawn(path))
            } else {
                (self.settled(None), ActionView::Done(Ok(())))
            },
            (Phase::Spawning(mode), Answer::SpawnFinished(spawned)) => match spawned {
                Ok(handle) => (self.settled(Some(handle)), ActionView::Done(Ok(()))),
                Err(cause) => (
                    self.settled(None),
                    Self::failure(mode, SupervisorError::Spawn(cause)),
                ),
            },
            (Phase::Killing, Answer::KillFinished(killed)) => match killed {
                Ok(_) => (self.settled(None), ActionView::Done(Ok(()))),
                Err(cause) => (
                    self.settled(None),
                    ActionView::Done(Err(SupervisorError::Termination(cause))),
                ),
            },
            _ => (self, ActionView::Done(Ok(()))),
        }
    }
}

/// What the system would answer in the course of one operation.
pub struct Surroundings<H> {
    /// The path of the running executable, or why there is none to give.
    pub located: Result<String, String>,
    /// Whether the backend's file exists.
    pub present: bool,
    /// The handle of the process that a spawn would create, or why it would
    /// not.
    pub spawned: Result<H, String>,
    /// Whether a kill would succeed, or why it would not.
    pub killed: Result<(), String>,
}

impl<H> Surroundings<H> {
    /// The answer to an action. (For [`ActionView::Done`] there is nothing
    /// to answer, and the value is of no account.)
    pub open spec fn answer(self, action: ActionView<H>) -> Answer<H> {
        match action {
            ActionView::LocateExecutable => Answer::ExecutableLocated(self.located),
            ActionView::Spawn { .. } => Answer::SpawnFinished(self.spawned),
            ActionView::Kill(_) => Answer::KillFinished(self.killed),
            _ => Answer::FileProbed(self.present),
        }
    }

    /// Whether a start on the user's behalf succeeds here: the backend's
    /// path can be resolved, and the backend can be spawned.
    pub open spec fn lets_start(self, platform: Platform) -> bool {
        &&& resolved(self.located, platform) is Ok
        &&& self.spawned is Ok
    }

    /// Whether a start of either mode spawns the backend here: a start on
    /// the user's behalf succeeds, and the backend's file is there.
    pub open spec fn obliging(self, platform: Platform) -> bool {
        &&& self.lets_start(platform)
        &&& self.present
    }
}

/// What an operation came to.
pub struct Outcome<H> {
    /// The supervisor's state after it.
    pub state: State<H>,
    /// Its result; `None` if the supervisor still wanted something done
    /// after as many answers as it was given.
    pub result: Option<Result<(), SupervisorError>>,
    /// How many processes it asked to spawn.
    pub spawns: nat,
    /// How many processes it asked to kill.
    pub kills: nat,
}

/// Carries out `action` and those that follow it, each answered by `env`,
/// until the supervisor is done or `answers` of them have been answered.
pub open spec fn settle<H>(
    state: State<H>,
    action: ActionView<H>,
    env: Surroundings<H>,
    answers: nat,
) -> Outcome<H>
    decreases answers,
{
    if let ActionView::Done(result) = action {
        Outcome { state, result: Some(result), spawns: 0, kills: 0 }
    } else if answers == 0 {
        Outcome { state, result: None, spawns: 0, kills: 0 }
    } else {
        let (next, then) = state.resume(env.answer(action));
        let rest = settle(next, then, env, (answers - 1) as nat);
        Outcome {
            state: rest.state,
            result: rest.result,
            spawns: rest.spawns + if action is Spawn { 1nat } else { 0nat },
            kills: rest.kills + if action is Kill { 1nat } else { 0nat },
        }
    }
}

/// One whole operation in the surroundings `env`. No operation asks for
/// more than three things.
pub open spec fn perform<H>(state: State<H>, request: Request, env: Surroundings<H>) -> Outcome<
    H,
> {
    let (next, action) = state.begin(request);
    settle(next, action, env, 3)
}

/// Where a series of operations has led.
pub struct Tally<H> {
    /// The supervisor's state after them.
    pub state: State<H>,
    /// How many processes they asked to spawn.
    pub spawns: nat,
    /// How many processes they asked to kill.
    pub kills: nat,
}

/// The first `n` of `requests`, one after the other, the `i`-th of them
/// in the surroundings `envs[i]`.
pub open spec fn perform_each<H>(
    state: State<H>,
    requests: Seq<Request>,
    envs: Seq<Surroundings<H>>,
    n: nat,
) -> Tally<H>
    decreases n,
{
    if n == 0 {
        Tally { state, spawns: 0, kills: 0 }
    } else {
        let before = perform_each(state, requests, envs, (n - 1) as nat);
        let last = perform(before.state, requests[n - 1], envs[n - 1]);
        Tally {
            state: last.state,
            spawns: before.spawns + last.spawns,
            kills: before.kills + last.kills,
        }
    }
}

} // verus!
