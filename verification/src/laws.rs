//! What holds of every supervisor, proved over the model of
//! [`crate::model`].

use crate::error::SupervisorError;
use crate::model::{perform, perform_each, settle, Outcome, State, Surroundings, Tally};
use crate::path::resolved;
use crate::platform::Platform;
use crate::protocol::{ActionView, Request};
use vstd::prelude::*;

verus! {

/// Every operation on an idle supervisor runs to completion and leaves the
/// supervisor idle. It asks for at most one spawn, and only when no process
/// is held; it asks for a kill exactly when it is a stop and a process is
/// held. The handle that is held changes only by a kill, which leaves none,
/// or by a spawn, which stores what it returned.
pub proof fn lemma_operation_completes<H>(state: State<H>, request: Request, env: Surroundings<H>)
    requires
        state.phase is Idle,
    ensures
        ({
            let outcome = perform(state, request, env);
            &&& outcome.result is Some
            &&& outcome.state.phase is Idle
            &&& outcome.state.platform == state.platform
            &&& outcome.spawns <= 1
            &&& outcome.spawns == 1 ==> state.held is None && request != Request::Stop
            &&& outcome.kills == if request == Request::Stop && state.held is Some {
                1nat
            } else {
                0nat
            }
            &&& outcome.state.held == state.held || outcome.state.held is None || (outcome.spawns
                == 1 && env.spawned == Ok::<H, String>(outcome.state.held->0))
        }),
{
    reveal_with_fuel(settle, 4);
}

/// A start of either mode on a supervisor that holds a process is done at
/// once: it succeeds, asks for nothing, and changes nothing.
pub proof fn lemma_start_while_running<H>(state: State<H>, env: Surroundings<H>)
    requires
        state.phase is Idle,
        state.held is Some,
    ensures
        perform(state, Request::Start, env) == (Outcome {
            state,
            result: Some(Ok(())),
            spawns: 0,
            kills: 0,
        }),
        perform(state, Request::AutoStart, env) == perform(state, Request::Start, env),
{
    reveal_with_fuel(settle, 4);
}

/// Two starts in a row leave one process. If the first succeeds, a process
/// is held after it; and whenever one is held after it, the second start
/// succeeds without a spawn and leaves the state as the first left it. On a
/// supervisor that held nothing, a first start that succeeded spawned once,
/// and holds what that spawn returned.
pub proof fn lemma_start_twice<H>(state: State<H>, first: Surroundings<H>, second: Surroundings<H>)
    requires
        state.phase is Idle,
    ensures
        ({
            let once = perform(state, Request::Start, first);
            let twice = perform(once.state, Request::Start, second);
            &&& once.result == Some(Ok::<(), SupervisorError>(())) ==> once.state.held is Some
            &&& once.state.held is Some ==> twice == (Outcome {
                state: once.state,
                result: Some(Ok(())),
                spawns: 0,
                kills: 0,
            })
            &&& state.held is None && once.state.held is Some ==> {
                &&& once.spawns == 1
                &&& first.spawned == Ok::<H, String>(once.state.held->0)
            }
        }),
{
    reveal_with_fuel(settle, 4);
}

/// A stop on a supervisor that holds no process is done at once: it
/// succeeds, asks for nothing, and changes nothing.
pub proof fn lemma_stop_while_stopped<H>(state: State<H>, env: Surroundings<H>)
    requires
        state.phase is Idle,
        state.held is None,
    ensures
        perform(state, Request::Stop, env) == (Outcome {
            state,
            result: Some(Ok(())),
            spawns: 0,
            kills: 0,
        }),
{
    reveal_with_fuel(settle, 4);
}

/// A stop on a supervisor that holds a process asks for one kill, of that
/// process, and leaves the supervisor empty whether or not the kill
/// succeeded; it fails exactly when the kill did, with the system's words.
pub proof fn lemma_stop_while_running<H>(state: State<H>, env: Surroundings<H>)
    requires
        state.phase is Idle,
        state.held is Some,
    ensures
        state.begin(Request::Stop).1 == ActionView::Kill(state.held->0),
        perform(state, Request::Stop, env) == (Outcome {
            state: State::<H>::initial(state.platform),
            result: Some(
                match env.killed {
                    Ok(_) => Ok(()),
                    Err(cause) => Err(SupervisorError::Termination(cause)),
                },
            ),
            spawns: 0,
            kills: 1,
        }),
{
    reveal_with_fuel(settle, 4);
}

/// However many starts, of either mode, a supervisor that began empty
/// serves one after the other, in surroundings where a start spawns:
/// exactly one process is spawned, by the first of them, and it is held.
/// This is what mutual exclusion comes to once each operation has the
/// supervisor to itself: whatever order the starts are served in, the count
/// is one.
pub proof fn lemma_serial_starts_spawn_once<H>(
    platform: Platform,
    requests: Seq<Request>,
    envs: Seq<Surroundings<H>>,
    n: nat,
)
    requires
        1 <= n <= requests.len(),
        requests.len() == envs.len(),
        forall|i: int| 0 <= i < n ==> requests[i] != Request::Stop,
        forall|i: int| 0 <= i < n ==> (#[trigger] envs[i]).obliging(platform),
    ensures
        perform_each(State::initial(platform), requests, envs, n) == (Tally {
            state: State::<H>::initial(platform).settled(Some(envs[0].spawned->Ok_0)),
            spawns: 1,
            kills: 0,
        }),
    decreases n,
{
    reveal_with_fuel(settle, 4);
    reveal_with_fuel(perform_each, 2);
    if n > 1 {
        lemma_serial_starts_spawn_once(platform, requests, envs, (n - 1) as nat);
    }
}

/// The start on launch never reports a failure.
pub proof fn lemma_auto_start_never_fails<H>(state: State<H>, env: Surroundings<H>)
    requires
        state.phase is Idle,
    ensures
        perform(state, Request::AutoStart, env).result == Some(Ok::<(), SupervisorError>(())),
{
    reveal_with_fuel(settle, 4);
}

/// Where no file exists at the backend's path, or the path cannot be
/// resolved, the start on launch succeeds without a spawn and changes
/// nothing: a supervisor that was empty stays empty.
pub proof fn lemma_missing_backend_is_skipped<H>(state: State<H>, env: Surroundings<H>)
    requires
        state.phase is Idle,
        !env.present || resolved(env.located, state.platform) is Err,
    ensures
        perform(state, Request::AutoStart, env) == (Outcome {
            state,
            result: Some(Ok(())),
            spawns: 0,
            kills: 0,
        }),
{
    reveal_with_fuel(settle, 4);
}

/// After a start and a stop the supervisor is empty, whatever came of
/// either, and the stop asked for a kill exactly if the start had left a
/// process. A start that follows, where it can succeed, spawns once and
/// holds the new process.
pub proof fn lemma_stop_then_start<H>(
    state: State<H>,
    first: Surroundings<H>,
    second: Surroundings<H>,
    third: Surroundings<H>,
)
    requires
        state.phase is Idle,
        third.lets_start(state.platform),
    ensures
        ({
            let started = perform(state, Request::Start, first);
            let stopped = perform(started.state, Request::Stop, second);
            let restarted = perform(stopped.state, Request::Start, third);
            &&& stopped.state == State::<H>::initial(state.platform)
            &&& stopped.kills == if started.state.held is Some {
                1nat
            } else {
                0nat
            }
            &&& restarted == (Outcome {
                state: State::<H>::initial(state.platform).settled(Some(third.spawned->Ok_0)),
                result: Some(Ok(())),
                spawns: 1,
                kills: 0,
            })
        }),
{
    reveal_with_fuel(settle, 4);
}

/// Start, start, stop, stop: on a supervisor that began empty, where a
/// start can succeed, the four together ask for one spawn and one kill,
/// and leave the supervisor empty.
pub proof fn lemma_start_start_stop_stop<H>(platform: Platform, envs: Seq<Surroundings<H>>)
    requires
        envs.len() == 4,
        envs[0].lets_start(platform),
    ensures
        perform_each(
            State::initial(platform),
            seq![Request::Start, Request::Start, Request::Stop, Request::Stop],
            envs,
            4,
        ) == (Tally { state: State::<H>::initial(platform), spawns: 1, kills: 1 }),
{
    reveal_with_fuel(settle, 4);
    reveal_with_fuel(perform_each, 5);
}

} // verus!
