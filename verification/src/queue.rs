//! Queue-worker core: the supervisory state machine that turns lock, backlog
//! and build-step observations into the next state and action, and the rule
//! that picks stale temporary directories for reclamation.
//!
//! The loop that sleeps, queries the queue and runs builds is the surrounding
//! program's work; every decision it takes is a function here.

use vstd::prelude::*;

verus! {

/// What the worker most recently observed.
#[derive(Clone, Copy, Debug, PartialEq, Eq, Structural)]
pub enum BuilderState {
    /// The worker just started and has observed nothing yet.
    Fresh,
    /// The worker last saw an empty backlog.
    EmptyQueue,
    /// The worker last saw the cooperative lock held.
    Locked,
    /// The worker started (or just finished) a build attempt.
    QueueInProgress,
}

/// What one iteration does after its observations.
#[derive(Clone, Copy, Debug, PartialEq, Eq, Structural)]
pub enum IterationAction {
    /// Start the next iteration without building.
    Restart,
    /// Run one build attempt.
    StartBuild,
}

/// How one supervised build step ended.
#[derive(Clone, Copy, Debug, PartialEq, Eq, Structural)]
pub enum BuildStepOutcome {
    /// The step returned normally.
    Completed,
    /// The step returned an ordinary error, to be reported.
    Errored,
    /// The step terminated abnormally inside the crash boundary.
    Faulted,
}

/// The idle rule: every iteration sleeps before checking the queue, except
/// straight after a build attempt, so that a backlog drains without pauses.
pub fn should_sleep(state: &BuilderState) -> (r: bool)
    ensures
        r == !(state is QueueInProgress),
{
    !matches!(state, BuilderState::QueueInProgress)
}

/// The observation rule of one iteration: a held lock parks the worker in
/// `Locked`; a failed backlog query changes nothing; an empty backlog parks
/// it in `EmptyQueue`; a positive backlog starts a build. `pending` is the
/// backlog size, `None` when the query failed.
pub fn observe_queue(state: BuilderState, locked: bool, pending: Option<u64>) -> (r: (
    BuilderState,
    IterationAction,
))
    ensures
        locked ==> r.0 is Locked && r.1 is Restart,
        !locked && pending is None ==> r.0 == state && r.1 is Restart,
        !locked && pending == Some(0u64) ==> r.0 is EmptyQueue && r.1 is Restart,
        !locked && pending is Some && pending->0 > 0 ==> r.0 is QueueInProgress
            && r.1 is StartBuild,
{
    if locked {
        (BuilderState::Locked, IterationAction::Restart)
    } else {
        match pending {
            None => (state, IterationAction::Restart),
            Some(0) => (BuilderState::EmptyQueue, IterationAction::Restart),
            Some(_) => (BuilderState::QueueInProgress, IterationAction::StartBuild),
        }
    }
}

/// The escalation rule: only an abnormal termination of the build step — not
/// an ordinary error — engages the cooperative lock, so that no further
/// builds start until an operator intervenes.
pub fn engages_lock(outcome: &BuildStepOutcome) -> (r: bool)
    ensures
        r == (outcome is Faulted),
{
    matches!(outcome, BuildStepOutcome::Faulted)
}

/// `prefix` is the beginning of `s`.
pub open spec fn spec_is_prefix(prefix: Seq<char>, s: Seq<char>) -> bool {
    prefix.len() <= s.len() && s.subrange(0, prefix.len() as int) == prefix
}

/// Whether `s` starts with `prefix`, exactly [`spec_is_prefix`].
pub fn str_starts_with(s: &str, prefix: &str) -> (r: bool)
    ensures
        r == spec_is_prefix(prefix@, s@),
{
    let n = s.unicode_len();
    let p = prefix.unicode_len();
    if p > n {
        return false;
    }
    let mut i: usize = 0;
    while i < p
        invariant
            i <= p <= n,
            n == s@.len(),
            p == prefix@.len(),
            forall|k: int| 0 <= k < i ==> s@[k] == prefix@[k],
        decreases p - i,
    {
        if s.get_char(i) != prefix.get_char(i) {
            assert(s@.subrange(0, p as int)[i as int] != prefix@[i as int]);
            return false;
        }
        i = i + 1;
    }
    proof {
        assert(s@.subrange(0, p as int) =~= prefix@);
    }
    true
}

/// The stem every temporary build directory's name begins with.
pub fn tempdir_prefix() -> (r: &'static str)
    ensures
        r@ == "docsrs-docs"@,
{
    "docsrs-docs"
}

/// The reclamation rule for one entry of the temporary-file root: removed
/// exactly when it is a directory whose name starts with the temporary-build
/// stem; plain files and other directories stay.
pub fn tempdir_should_be_removed(is_directory: bool, name: &str) -> (r: bool)
    ensures
        r == (is_directory && spec_is_prefix("docsrs-docs"@, name@)),
{
    is_directory && str_starts_with(name, tempdir_prefix())
}

} // verus!
