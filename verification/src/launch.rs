//! What the application's launch does about the backend: it waits a
//! moment, so that the application can finish starting, and then asks the
//! supervisor once for a quiet start. Once begun, the wait is never cut
//! short and the start is never left out.

use vstd::prelude::*;

verus! {

/// How long the launch waits before it asks for the backend, in
/// milliseconds.
pub const WARM_UP_MILLIS: u64 = 1000;

/// One step of the launch.
#[derive(Clone, Copy, Debug, PartialEq, Eq, Structural)]
pub enum LaunchStep {
    /// Wait this many milliseconds.
    Wait(u64),
    /// Ask the supervisor for a start on launch
    /// ([`crate::supervisor::Supervisor::auto_start`]) and see it through.
    AutoStart,
    /// Nothing is left to do.
    Finished,
}

/// The step that follows when `taken` steps have been taken.
pub open spec fn launch_step(taken: nat) -> LaunchStep {
    if taken == 0 {
        LaunchStep::Wait(WARM_UP_MILLIS)
    } else if taken == 1 {
        LaunchStep::AutoStart
    } else {
        LaunchStep::Finished
    }
}

/// The launch's place in its steps.
pub struct Launch {
    taken: u8,
}

impl View for Launch {
    type V = nat;

    /// How many steps have been taken; once nothing is left to do, two.
    closed spec fn view(&self) -> nat {
        self.taken as nat
    }
}

impl Launch {
    #[verifier::type_invariant]
    spec fn inv(self) -> bool {
        self.taken <= 2
    }

    /// A launch of which no step has been taken.
    pub fn new() -> (launch: Launch)
        ensures
            launch@ == 0,
    {
        Launch { taken: 0 }
    }

    /// Takes the next step: first the wait, then the start, then nothing.
    pub fn advance(&mut self) -> (step: LaunchStep)
        ensures
            step == launch_step(old(self)@),
            final(self)@ == (if old(self)@ < 2 {
                old(self)@ + 1
            } else {
                2
            }),
            final(self)@ <= 2,
    {
        proof {
            use_type_invariant(&*self);
        }
        if self.taken == 0 {
            self.taken = 1;
            LaunchStep::Wait(WARM_UP_MILLIS)
        } else if self.taken == 1 {
            self.taken = 2;
            LaunchStep::AutoStart
        } else {
            LaunchStep::Finished
        }
    }
}

} // verus!
