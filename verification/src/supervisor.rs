use vstd::prelude::*;

verus! {

/// A stage of ending the driver process.
#[derive(Debug, Clone, Copy, PartialEq, Eq, Structural)]
pub enum Teardown {
    /// Send the process the signal to terminate.
    Kill,
    /// Wait until the process has exited.
    Wait,
    /// Nothing is left to do.
    Done,
}

/// The stage that follows `stage`, whatever became of it.
pub open spec fn spec_teardown_next(stage: Teardown) -> Teardown {
    match stage {
        Teardown::Kill => Teardown::Wait,
        Teardown::Wait => Teardown::Done,
        Teardown::Done => Teardown::Done,
    }
}

/// The first stage of ending the driver process.
pub fn teardown_start() -> (r: Teardown)
    ensures
        r == Teardown::Kill,
{
    Teardown::Kill
}

/// The stage that follows `stage`. Whether the stage succeeded makes no
/// difference: a failure to signal or to wait is dropped, and ending the
/// process goes on.
pub fn teardown_next(stage: Teardown, succeeded: bool) -> (r: Teardown)
    ensures
        r == spec_teardown_next(stage),
{
    match stage {
        Teardown::Kill => Teardown::Wait,
        Teardown::Wait => Teardown::Done,
        Teardown::Done => Teardown::Done,
    }
}

/// Ending the process always signals first, then waits, then is done,
/// whether or not either step succeeded.
pub proof fn lemma_teardown_completes()
    ensures
        spec_teardown_next(Teardown::Kill) == Teardown::Wait,
        spec_teardown_next(spec_teardown_next(Teardown::Kill)) == Teardown::Done,
        spec_teardown_next(Teardown::Done) == Teardown::Done,
{
}

} // verus!
