//! The engine's process-wide state: initialised at most once, finalised at most
//! once, and every other call made in between.
use vstd::prelude::*;

use crate::error::Error;

verus! {

/// Where a process stands with the engine.
#[derive(Debug, Clone, Copy, PartialEq, Eq, Structural)]
pub enum Stage {
    /// Not initialised yet.
    Fresh,
    /// Initialised and not finalised: handles may be used.
    Live,
    /// Finalised: the engine cannot be used again in this process.
    Finalized,
}

/// The stage after a call, and whether the call was accepted: `true` asks to
/// initialise, `false` to finalise.
pub open spec fn lifecycle_step(s: Stage, initialize: bool) -> (Stage, bool) {
    if initialize {
        if s == Stage::Fresh {
            (Stage::Live, true)
        } else {
            (s, false)
        }
    } else {
        if s == Stage::Live {
            (Stage::Finalized, true)
        } else {
            (s, false)
        }
    }
}

/// The stage after a run of calls, and how many initialisations and
/// finalisations were accepted on the way.
pub open spec fn lifecycle_run(s: Stage, calls: Seq<bool>) -> (Stage, nat, nat)
    decreases calls.len(),
{
    if calls.len() == 0 {
        (s, 0, 0)
    } else {
        let step = lifecycle_step(s, calls[0]);
        let rest = lifecycle_run(step.0, calls.drop_first());
        let inits: nat = if calls[0] && step.1 { 1 } else { 0 };
        let finals: nat = if !calls[0] && step.1 { 1 } else { 0 };
        (rest.0, rest.1 + inits, rest.2 + finals)
    }
}

/// The number of accepted initialisations and finalisations still possible
/// from a stage.
pub open spec fn calls_left(s: Stage) -> (nat, nat) {
    match s {
        Stage::Fresh => (1, 1),
        Stage::Live => (0, 1),
        Stage::Finalized => (0, 0),
    }
}

/// Over any run of calls, the engine is initialised at most once and
/// finalised at most once, and once finalised it stays finalised.
pub proof fn lemma_at_most_once(s: Stage, calls: Seq<bool>)
    ensures
        lifecycle_run(s, calls).1 <= calls_left(s).0,
        lifecycle_run(s, calls).2 <= calls_left(s).1,
        s == Stage::Finalized ==> lifecycle_run(s, calls).0 == Stage::Finalized,
    decreases calls.len(),
{
    if calls.len() > 0 {
        lemma_at_most_once(lifecycle_step(s, calls[0]).0, calls.drop_first());
    }
}

/// The engine's state in a process. A process holds one of these.
pub struct Lifecycle {
    stage: Stage,
}

impl View for Lifecycle {
    type V = Stage;

    closed spec fn view(&self) -> Stage {
        self.stage
    }
}

impl Lifecycle {
    /// The state before the engine is initialised.
    pub fn new() -> (r: Lifecycle)
        ensures
            r@ == Stage::Fresh,
    {
        Lifecycle { stage: Stage::Fresh }
    }

    /// The stage the process is at.
    pub fn stage(&self) -> (r: Stage)
        ensures
            r == self@,
    {
        self.stage
    }

    /// Whether the engine is initialised and not finalised.
    pub fn is_live(&self) -> (r: bool)
        ensures
            r == (self@ == Stage::Live),
    {
        self.stage == Stage::Live
    }

    /// Records the initialisation; refused unless the engine was never
    /// initialised, and then nothing changes.
    pub fn initialize(&mut self) -> (r: Result<(), Error>)
        ensures
            old(self)@ == Stage::Fresh ==> r is Ok && final(self)@ == Stage::Live,
            old(self)@ != Stage::Fresh ==> r == Err::<(), Error>(Error::LifecycleError)
                && final(self)@ == old(self)@,
            (final(self)@, r is Ok) == lifecycle_step(old(self)@, true),
    {
        if self.stage == Stage::Fresh {
            self.stage = Stage::Live;
            Ok(())
        } else {
            Err(Error::LifecycleError)
        }
    }

    /// Records the finalisation; refused unless the engine is live, and then
    /// nothing changes.
    pub fn finalize(&mut self) -> (r: Result<(), Error>)
        ensures
            old(self)@ == Stage::Live ==> r is Ok && final(self)@ == Stage::Finalized,
            old(self)@ != Stage::Live ==> r == Err::<(), Error>(Error::LifecycleError)
                && final(self)@ == old(self)@,
            (final(self)@, r is Ok) == lifecycle_step(old(self)@, false),
    {
        if self.stage == Stage::Live {
            self.stage = Stage::Finalized;
            Ok(())
        } else {
            Err(Error::LifecycleError)
        }
    }
}

} // verus!
