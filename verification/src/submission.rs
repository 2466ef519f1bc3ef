//! The submission of planned operations to the ledger, one at a time: the
//! owner of the agent submits the next operation and reports the ledger's
//! answer; what happens after an answer is decided here.

use vstd::prelude::*;
use crate::errors::ScopeError;
use crate::scope_client::{RefreshPriceList, UpdateMapping};

verus! {

/// Where a sweep over the chunks of a refresh stands.
pub struct CycleState {
    /// Number of chunks of the sweep.
    pub total: nat,
    /// The chunk that is submitted next; `total` once the sweep is complete.
    pub next: nat,
    /// The chunks that failed, in the order in which they were submitted.
    pub failed: Seq<usize>,
}

/// The state of a sweep after the ledger's answer to the chunk that was
/// submitted: the sweep moves on to the next chunk whatever the answer was,
/// and a failure is noted. A complete sweep stays as it is.
pub open spec fn after_answer(state: CycleState, succeeded: bool) -> CycleState {
    if state.next >= state.total {
        state
    } else {
        CycleState {
            total: state.total,
            next: state.next + 1,
            failed: if succeeded {
                state.failed
            } else {
                state.failed.push(state.next as usize)
            },
        }
    }
}

/// The state of a sweep after the first `n` of the answers `answers`.
pub open spec fn after_answers(state: CycleState, answers: Seq<bool>, n: nat) -> CycleState
    decreases n,
{
    if n == 0 {
        state
    } else {
        after_answer(after_answers(state, answers, (n - 1) as nat), answers[n - 1])
    }
}

/// The places below `n` at which `answers` holds a failure, in ascending
/// order.
pub open spec fn failures_upto(answers: Seq<bool>, n: nat) -> Seq<usize>
    decreases n,
{
    if n == 0 {
        Seq::empty()
    } else if answers[n - 1] {
        failures_upto(answers, (n - 1) as nat)
    } else {
        failures_upto(answers, (n - 1) as nat).push((n - 1) as usize)
    }
}

/// One sweep of refreshes over all configured slots, chunk by chunk.
///
/// The owner of the agent submits `next_operation` and reports the ledger's
/// answer with `record`, until no operation is left.
#[derive(Clone, Debug)]
pub struct RefreshCycle {
    /// The refresh of each chunk.
    pub operations: Vec<RefreshPriceList>,
    /// The chunk that is submitted next.
    pub next: usize,
    /// The chunks that failed.
    pub failed: Vec<usize>,
}

impl View for RefreshCycle {
    type V = CycleState;

    open spec fn view(&self) -> CycleState {
        CycleState { total: self.operations@.len(), next: self.next as nat, failed: self.failed@ }
    }
}

impl RefreshCycle {
    /// A sweep never stands beyond its last chunk.
    pub open spec fn wf(&self) -> bool {
        self.next <= self.operations@.len()
    }

    /// The operation to submit next; none once every chunk has been
    /// submitted.
    pub fn next_operation(&self) -> (op: Option<&RefreshPriceList>)
        requires
            self.wf(),
        ensures
            self@.next < self@.total ==> op == Some(&self.operations@[self.next as int]),
            self@.next >= self@.total ==> op is None,
    {
        if self.next < self.operations.len() {
            Some(&self.operations[self.next])
        } else {
            None
        }
    }

    /// Takes note of the ledger's answer to the operation that was submitted
    /// and moves on to the next chunk: a failure is noted and is no reason to
    /// stop or to try again.
    pub fn record(&mut self, succeeded: bool)
        requires
            old(self).wf(),
        ensures
            final(self).wf(),
            final(self)@ == after_answer(old(self)@, succeeded),
            final(self).operations == old(self).operations,
    {
        if self.next < self.operations.len() {
            if !succeeded {
                self.failed.push(self.next);
            }
            self.next = self.next + 1;
        }
    }

    /// Whether every chunk has been submitted.
    pub fn is_complete(&self) -> (done: bool)
        ensures
            done <==> self@.next >= self@.total,
    {
        self.next >= self.operations.len()
    }
}

/// A sweep submits every chunk once, in order, whatever the ledger answers:
/// after `n` answers it stands at chunk `n`, and has noted the chunks whose
/// answer was a failure, and no other. With the last answer it is complete.
pub proof fn lemma_sweep_visits_every_chunk(start: CycleState, answers: Seq<bool>, n: nat)
    requires
        start.next == 0,
        start.failed == Seq::<usize>::empty(),
        n <= start.total,
        n <= answers.len(),
    ensures
        after_answers(start, answers, n).total == start.total,
        after_answers(start, answers, n).next == n,
        after_answers(start, answers, n).failed == failures_upto(answers, n),
    decreases n,
{
    if n > 0 {
        lemma_sweep_visits_every_chunk(start, answers, (n - 1) as nat);
    }
}

/// Where the submission of the updates of a mapping stands.
pub struct UploadState {
    /// Number of updates.
    pub total: nat,
    /// The update that is submitted next.
    pub next: nat,
    /// Whether an update failed, which ends the submission.
    pub aborted: bool,
}

/// The state of a submission after the ledger's answer to the update that
/// was submitted: it moves on after a success and ends with a failure. A
/// submission that has ended stays as it is.
pub open spec fn after_update_answer(state: UploadState, succeeded: bool) -> UploadState {
    if state.aborted || state.next >= state.total {
        state
    } else if succeeded {
        UploadState { total: state.total, next: state.next + 1, aborted: false }
    } else {
        UploadState { total: state.total, next: state.next, aborted: true }
    }
}

/// The state of a submission after the first `n` of the answers `answers`.
pub open spec fn after_update_answers(state: UploadState, answers: Seq<bool>, n: nat) -> UploadState
    decreases n,
{
    if n == 0 {
        state
    } else {
        after_update_answer(
            after_update_answers(state, answers, (n - 1) as nat),
            answers[n - 1],
        )
    }
}

/// The place of the first failure among the first `n` answers; `n` where
/// there is none.
pub open spec fn first_failure(answers: Seq<bool>, n: nat) -> nat
    decreases n,
{
    if n == 0 {
        0
    } else if first_failure(answers, (n - 1) as nat) < n - 1 {
        first_failure(answers, (n - 1) as nat)
    } else if answers[n - 1] {
        n
    } else {
        (n - 1) as nat
    }
}

/// The updates of a mapping on their way to the ledger, one call for each.
///
/// The owner of the agent submits `next_operation` and reports the ledger's
/// answer with `record`, until no operation is left or one has failed.
#[derive(Clone, Debug)]
pub struct MappingUpload {
    /// The updates, in the order in which they are submitted.
    pub updates: Vec<UpdateMapping>,
    /// The update that is submitted next.
    pub next: usize,
    /// Whether an update failed.
    pub aborted: bool,
}

impl View for MappingUpload {
    type V = UploadState;

    open spec fn view(&self) -> UploadState {
        UploadState { total: self.updates@.len(), next: self.next as nat, aborted: self.aborted }
    }
}

impl MappingUpload {
    /// A submission never stands beyond its last update.
    pub open spec fn wf(&self) -> bool {
        self.next <= self.updates@.len()
    }

    /// The submission of `updates`, of which none has been submitted yet.
    pub fn new(updates: Vec<UpdateMapping>) -> (upload: Self)
        ensures
            upload.wf(),
            upload.updates == updates,
            upload.next == 0,
            !upload.aborted,
    {
        MappingUpload { updates, next: 0, aborted: false }
    }

    /// The update to submit next; none once all were accepted or one has
    /// failed.
    pub fn next_operation(&self) -> (op: Option<UpdateMapping>)
        requires
            self.wf(),
        ensures
            op == (if !self.aborted && self.next < self.updates@.len() {
                Some(self.updates@[self.next as int])
            } else {
                None
            }),
    {
        if !self.aborted && self.next < self.updates.len() {
            Some(self.updates[self.next])
        } else {
            None
        }
    }

    /// Takes note of the ledger's answer to the update that was submitted.
    ///
    /// A failure ends the submission with `SubmissionError`: the updates
    /// behind it are not submitted.
    pub fn record(&mut self, succeeded: bool) -> (res: Result<(), ScopeError>)
        requires
            old(self).wf(),
        ensures
            final(self).wf(),
            final(self)@ == after_update_answer(old(self)@, succeeded),
            final(self).updates == old(self).updates,
            res == (if !old(self).aborted && old(self).next < old(self).updates@.len()
                && !succeeded {
                Err::<(), ScopeError>(ScopeError::SubmissionError)
            } else {
                Ok::<(), ScopeError>(())
            }),
    {
        if self.aborted || self.next >= self.updates.len() {
            return Ok(());
        }
        if succeeded {
            self.next = self.next + 1;
            Ok(())
        } else {
            self.aborted = true;
            Err(ScopeError::SubmissionError)
        }
    }

    /// Whether every update was accepted.
    pub fn is_complete(&self) -> (done: bool)
        ensures
            done <==> !self@.aborted && self@.next >= self@.total,
    {
        !self.aborted && self.next >= self.updates.len()
    }
}

/// The updates of a mapping are submitted in order up to the first that
/// fails: after `n` answers the submission stands at the first failure among
/// them, and has ended there, or it stands at update `n`.
pub proof fn lemma_upload_stops_at_first_failure(start: UploadState, answers: Seq<bool>, n: nat)
    requires
        start.next == 0,
        !start.aborted,
        n <= start.total,
        n <= answers.len(),
    ensures
        after_update_answers(start, answers, n).total == start.total,
        after_update_answers(start, answers, n).next == first_failure(answers, n),
        after_update_answers(start, answers, n).aborted <==> first_failure(answers, n) < n,
        first_failure(answers, n) <= n,
        forall|i: int| 0 <= i < first_failure(answers, n) ==> answers[i],
        first_failure(answers, n) < n ==> !answers[first_failure(answers, n) as int],
    decreases n,
{
    if n > 0 {
        lemma_upload_stops_at_first_failure(start, answers, (n - 1) as nat);
    }
}

} // verus!
