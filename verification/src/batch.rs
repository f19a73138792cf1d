//! The batch driver.
//!
//! Slides are processed strictly in their given order, one at a time.  The
//! first hard failure aborts the whole batch: the failing slide's error is
//! reported and no later slide is attempted.  The caller asks [`batch_next`]
//! what to do, runs the per-slide orchestration for the named slide, and
//! hands the slide's result to [`batch_record`].

use vstd::prelude::*;

use crate::ErrorKind;
use crate::GenerationError;
use crate::Outcome;

verus! {

/// Progress of one batch run.
pub struct BatchState {
    /// How many slides the batch has.
    pub total: usize,
    /// The index of the next slide to attempt.
    pub next_slide: usize,
    /// The failure that aborted the batch, if one occurred.
    pub failed: Option<ErrorKind>,
}

/// What the caller must do next for the batch.
pub enum BatchAction {
    /// Run the per-slide orchestration for this slide index.
    RunSlide { idx: usize },
    /// The batch has aborted on a hard failure; stop.
    Abort { kind: ErrorKind },
    /// Every slide completed; the batch is done.
    Finished,
}

/// A batch over `total` slides, none attempted yet.
pub fn batch_start(total: usize) -> (b: BatchState)
    ensures
        b.total == total,
        b.next_slide == 0,
        b.failed is None,
{
    BatchState { total, next_slide: 0, failed: None }
}

/// The next thing to do: abort if a slide failed, run the next slide if one
/// is left, otherwise finish.
pub fn batch_next(b: &BatchState) -> (a: BatchAction)
    ensures
        b.failed matches Some(kind) ==> a == (BatchAction::Abort { kind }),
        b.failed is None && b.next_slide < b.total ==> a == (BatchAction::RunSlide {
            idx: b.next_slide,
        }),
        b.failed is None && b.next_slide >= b.total ==> a == BatchAction::Finished,
{
    match b.failed {
        Some(kind) => BatchAction::Abort { kind },
        None => {
            if b.next_slide < b.total {
                BatchAction::RunSlide { idx: b.next_slide }
            } else {
                BatchAction::Finished
            }
        },
    }
}

/// Records the result of the slide that was just attempted: on success the
/// batch advances to the next slide, on failure it aborts.
pub fn batch_record(b: BatchState, result: &Result<Outcome, GenerationError>) -> (r: BatchState)
    requires
        b.failed is None,
        b.next_slide < b.total,
    ensures
        r.total == b.total,
        result is Ok ==> r.next_slide == b.next_slide + 1 && r.failed is None,
        result matches Err(e) ==> r.next_slide == b.next_slide && r.failed == Some(e.kind),
{
    match result {
        Ok(_) => BatchState { next_slide: b.next_slide + 1, ..b },
        Err(e) => BatchState { failed: Some(e.kind), ..b },
    }
}

/// How many slides a batch attempts, given each slide's result in order:
/// every slide up to and including the first failing one, and no further.
pub open spec fn spec_attempts(results: Seq<Result<Outcome, ErrorKind>>) -> nat
    decreases results.len(),
{
    if results.len() == 0 {
        0
    } else if results[0] is Err {
        1
    } else {
        1 + spec_attempts(results.drop_first())
    }
}

/// The batch's outcome: the first failure, or success if there is none.
pub open spec fn spec_batch_outcome(results: Seq<Result<Outcome, ErrorKind>>) -> Result<
    (),
    ErrorKind,
>
    decreases results.len(),
{
    if results.len() == 0 {
        Ok(())
    } else {
        match results[0] {
            Err(kind) => Err(kind),
            Ok(_) => spec_batch_outcome(results.drop_first()),
        }
    }
}

/// Law: a failure on one slide is fatal to the whole batch.  If the slide at
/// position `j` is the first to fail, every earlier slide was attempted (in
/// order), the failing slide was attempted, no later slide is ever
/// attempted, and the batch's outcome is that slide's error.
pub proof fn law_batch_abort_propagation(
    results: Seq<Result<Outcome, ErrorKind>>,
    j: int,
    kind: ErrorKind,
)
    requires
        0 <= j < results.len(),
        results[j] == Err::<Outcome, ErrorKind>(kind),
        forall|i: int| 0 <= i < j ==> results[i] is Ok,
    ensures
        spec_attempts(results) == j + 1,
        spec_batch_outcome(results) == Err::<(), ErrorKind>(kind),
    decreases j,
{
    if j == 0 {
    } else {
        assert(results[0] is Ok);
        assert(forall|i: int| 0 <= i < j - 1 ==> results.drop_first()[i] == results[i + 1]);
        law_batch_abort_propagation(results.drop_first(), j - 1, kind);
    }
}

/// Law: a batch with no failing slide attempts every slide and succeeds.
pub proof fn law_batch_completes(results: Seq<Result<Outcome, ErrorKind>>)
    requires
        forall|i: int| 0 <= i < results.len() ==> results[i] is Ok,
    ensures
        spec_attempts(results) == results.len(),
        spec_batch_outcome(results) == Ok::<(), ErrorKind>(()),
    decreases results.len(),
{
    if results.len() > 0 {
        assert(forall|i: int| 0 <= i < results.len() - 1 ==> results.drop_first()[i] == results[i
            + 1]);
        law_batch_completes(results.drop_first());
    }
}

} // verus!
