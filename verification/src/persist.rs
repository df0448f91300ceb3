//! Writing the persisted set so that a failed run leaves the earlier
//! artifact whole.
//!
//! The set is serialized, written to a scratch file beside the artifact,
//! and only then put in the artifact's place in one move. The steps are
//! decided here; the caller performs them and reports how each went. A
//! failure is always handed back to the caller.

use vstd::prelude::*;

verus! {

/// The step at which persisting failed.
#[derive(Debug, Clone, Copy, PartialEq, Eq, Structural)]
pub enum PersistError {
    /// The set could not be serialized.
    Serialize,
    /// The scratch file could not be written.
    WriteScratch,
    /// The scratch file could not be put in the artifact's place.
    Replace,
}

/// What is to be done next, or how persisting ended.
#[derive(Debug, Clone, Copy, PartialEq, Eq, Structural)]
pub enum PersistStep {
    /// Serialize the set.
    Serialize,
    /// Write the serialized set to the scratch file.
    WriteScratch,
    /// Put the scratch file in the artifact's place.
    Replace,
    /// The artifact holds the new set.
    Succeeded,
    /// Persisting failed; the artifact is as it was.
    Failed(PersistError),
}

/// The step that follows `current`, given whether `current` went well.
/// An ended run stays as it ended.
pub open spec fn step_after(current: PersistStep, went_well: bool) -> PersistStep {
    match current {
        PersistStep::Serialize => if went_well {
            PersistStep::WriteScratch
        } else {
            PersistStep::Failed(PersistError::Serialize)
        },
        PersistStep::WriteScratch => if went_well {
            PersistStep::Replace
        } else {
            PersistStep::Failed(PersistError::WriteScratch)
        },
        PersistStep::Replace => if went_well {
            PersistStep::Succeeded
        } else {
            PersistStep::Failed(PersistError::Replace)
        },
        ended => ended,
    }
}

/// The step that a run has reached after the first `n` of its reports.
pub open spec fn step_reached(reports: Seq<bool>, n: int) -> PersistStep
    decreases n,
{
    if n <= 0 {
        PersistStep::Serialize
    } else {
        step_after(step_reached(reports, n - 1), reports[n - 1])
    }
}

/// The step that persisting begins with.
pub fn first_step() -> (step: PersistStep)
    ensures
        step == PersistStep::Serialize,
{
    PersistStep::Serialize
}

/// Decides the step that follows `current`.
pub fn next_step(current: PersistStep, went_well: bool) -> (step: PersistStep)
    ensures
        step == step_after(current, went_well),
{
    match current {
        PersistStep::Serialize => if went_well {
            PersistStep::WriteScratch
        } else {
            PersistStep::Failed(PersistError::Serialize)
        },
        PersistStep::WriteScratch => if went_well {
            PersistStep::Replace
        } else {
            PersistStep::Failed(PersistError::WriteScratch)
        },
        PersistStep::Replace => if went_well {
            PersistStep::Succeeded
        } else {
            PersistStep::Failed(PersistError::Replace)
        },
        ended => ended,
    }
}

/// How an ended run is reported to the caller; a run that has not ended
/// has no result yet.
pub fn result_of(step: PersistStep) -> (result: Option<Result<(), PersistError>>)
    ensures
        result == match step {
            PersistStep::Succeeded => Some(Ok::<(), PersistError>(())),
            PersistStep::Failed(error) => Some(Err::<(), PersistError>(error)),
            _ => None::<Result<(), PersistError>>,
        },
{
    match step {
        PersistStep::Succeeded => Some(Ok(())),
        PersistStep::Failed(error) => Some(Err(error)),
        _ => None,
    }
}

/// The artifact is touched only by a run that serialized the set and
/// wrote the scratch file, and only once.
///
/// Whatever the reports are, the one step that touches the artifact is
/// asked for at no other time than after exactly two reports, both good.
/// So a run that fails before leaves the earlier artifact as it was.
pub proof fn artifact_is_replaced_last(reports: Seq<bool>, n: int)
    requires
        0 <= n <= reports.len(),
        step_reached(reports, n) == PersistStep::Replace,
    ensures
        n == 2,
        reports[0],
        reports[1],
    decreases n,
{
    reveal_with_fuel(step_reached, 4);
    if n > 3 {
        ended_runs_stay(reports, 3, n);
    }
}

/// A run that has ended stays as it ended, whatever is reported to it.
pub proof fn ended_runs_stay(reports: Seq<bool>, n: int, m: int)
    requires
        0 <= n <= m,
        step_reached(reports, n) is Succeeded || step_reached(reports, n) is Failed,
    ensures
        step_reached(reports, m) == step_reached(reports, n),
    decreases m - n,
{
    if n < m {
        ended_runs_stay(reports, n, m - 1);
    }
}

/// Every failure is handed back: a run in which some step among the
/// three went badly ends as failed, at the first such step.
pub proof fn failure_is_reported(reports: Seq<bool>)
    requires
        reports.len() >= 3,
        !(reports[0] && reports[1] && reports[2]),
    ensures
        step_reached(reports, 3) == PersistStep::Failed(
            if !reports[0] {
                PersistError::Serialize
            } else if !reports[1] {
                PersistError::WriteScratch
            } else {
                PersistError::Replace
            },
        ),
{
    reveal_with_fuel(step_reached, 4);
}

} // verus!
