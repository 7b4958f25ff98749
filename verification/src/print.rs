//! One print batch: a number of identical jobs, sent one after the other until one fails.
//!
//! The batch owns no device. The shell asks whether a job is wanted, sends it, and
//! records how it ended; the batch keeps count and stops at the first failure.

use vstd::prelude::*;

verus! {

/// The progress of a batch.
#[derive(Debug)]
pub struct PrintBatch {
    copies: u8,
    printed: u8,
    failure: Option<String>,
}

/// A [`PrintBatch`] as numbers: jobs asked for, jobs that succeeded, and the message of
/// the job that failed, if one did.
pub struct BatchView {
    pub copies: nat,
    pub printed: nat,
    pub failure: Option<Seq<char>>,
}

/// The view of how one job ended.
pub open spec fn outcome_view(outcome: Result<(), String>) -> Result<(), Seq<char>> {
    match outcome {
        Ok(_) => Ok(()),
        Err(error) => Err(error@),
    }
}

impl BatchView {
    /// A batch of `copies` jobs of which none was sent yet.
    pub open spec fn start(copies: nat) -> Self {
        BatchView { copies, printed: 0, failure: None }
    }

    /// No more jobs succeeded than were asked for.
    pub open spec fn wf(self) -> bool {
        self.printed <= self.copies
    }

    /// Whether the next job is to be sent: none has failed and some are left.
    pub open spec fn wants_job(self) -> bool {
        self.failure is None && self.printed < self.copies
    }

    /// Whether every job that was asked for succeeded.
    pub open spec fn succeeded(self) -> bool {
        self.failure is None && self.printed == self.copies
    }

    /// The batch after the job that it wanted ended with `outcome`.
    pub open spec fn recorded(self, outcome: Result<(), Seq<char>>) -> Self {
        match outcome {
            Ok(_) => BatchView { printed: self.printed + 1, ..self },
            Err(error) => BatchView { failure: Some(error), ..self },
        }
    }

    /// The batch after it was run against a device that answers its jobs with `outcomes`,
    /// in this order: a job is sent only while one is wanted and an answer is left.
    pub open spec fn run(self, outcomes: Seq<Result<(), Seq<char>>>) -> Self
        decreases outcomes.len(),
    {
        if outcomes.len() == 0 || !self.wants_job() {
            self
        } else {
            self.recorded(outcomes[0]).run(outcomes.drop_first())
        }
    }

    /// How many jobs that run sends to the device.
    pub open spec fn sent(self, outcomes: Seq<Result<(), Seq<char>>>) -> nat
        decreases outcomes.len(),
    {
        if outcomes.len() == 0 || !self.wants_job() {
            0
        } else {
            1 + self.recorded(outcomes[0]).sent(outcomes.drop_first())
        }
    }
}

impl View for PrintBatch {
    type V = BatchView;

    closed spec fn view(&self) -> BatchView {
        BatchView {
            copies: self.copies as nat,
            printed: self.printed as nat,
            failure: match self.failure {
                Some(error) => Some(error@),
                None => None,
            },
        }
    }
}

/// What a batch came to: how many jobs were asked for, how many succeeded, and the
/// message of the failure that ended it early, if there was one.
#[derive(Debug, Clone)]
pub struct BatchReport {
    /// How many jobs were asked for.
    pub copies: u8,
    /// How many jobs succeeded.
    pub printed: u8,
    /// The message of the job that failed, if one did.
    pub failure: Option<String>,
}

impl View for BatchReport {
    type V = BatchView;

    open spec fn view(&self) -> BatchView {
        BatchView {
            copies: self.copies as nat,
            printed: self.printed as nat,
            failure: match self.failure {
                Some(error) => Some(error@),
                None => None,
            },
        }
    }
}

impl BatchReport {
    /// Whether every job that was asked for succeeded.
    pub fn succeeded(&self) -> (yes: bool)
        ensures
            yes == self@.succeeded(),
    {
        self.failure.is_none() && self.printed == self.copies
    }
}

impl PrintBatch {
    /// What holds of every batch: no more jobs succeeded than were asked for.
    #[verifier::type_invariant]
    closed spec fn inv(self) -> bool {
        self.printed <= self.copies
    }

    /// A batch of `copies` jobs, none of them sent yet.
    pub fn new(copies: u8) -> (batch: Self)
        ensures
            batch@ == BatchView::start(copies as nat),
            batch@.wf(),
    {
        PrintBatch { copies, printed: 0, failure: None }
    }

    /// Whether the shell is to send the next job.
    pub fn wants_job(&self) -> (wanted: bool)
        ensures
            wanted == self@.wants_job(),
    {
        self.failure.is_none() && self.printed < self.copies
    }

    /// Takes in how the job that was wanted ended: one more job has succeeded, or the
    /// batch has failed with the job's message and wants no further job.
    pub fn record(&mut self, outcome: Result<(), String>)
        requires
            old(self)@.wants_job(),
        ensures
            final(self)@ == old(self)@.recorded(outcome_view(outcome)),
            final(self)@.wf(),
    {
        match outcome {
            Ok(_) => {
                self.printed = self.printed + 1;
            },
            Err(error) => {
                self.failure = Some(error);
            },
        }
    }

    /// The batch as it stands.
    pub fn report(&self) -> (report: BatchReport)
        ensures
            report@ == self@,
            report@.wf(),
    {
        proof {
            use_type_invariant(self);
        }
        BatchReport {
            copies: self.copies,
            printed: self.printed,
            failure: self.failure.clone(),
        }
    }
}

/// Outcomes from the start of `outcomes` up to `k`, all of them successes.
pub open spec fn all_ok_before(outcomes: Seq<Result<(), Seq<char>>>, k: int) -> bool {
    forall|i: int| 0 <= i < k ==> (#[trigger] outcomes[i]) is Ok
}

proof fn lemma_run_through_successes(
    batch: BatchView,
    outcomes: Seq<Result<(), Seq<char>>>,
    k: int,
)
    requires
        batch.failure is None,
        0 <= k <= outcomes.len(),
        batch.printed + k <= batch.copies,
        all_ok_before(outcomes, k),
    ensures
        batch.run(outcomes) == (BatchView { printed: batch.printed + k as nat, ..batch }).run(
            outcomes.skip(k),
        ),
        batch.sent(outcomes) == k + (BatchView { printed: batch.printed + k as nat, ..batch }).sent(
            outcomes.skip(k),
        ),
    decreases k,
{
    if k == 0 {
        assert(outcomes.skip(0) =~= outcomes);
    } else {
        let first = outcomes[0];
        assert(first is Ok);
        let next = batch.recorded(first);
        let rest = outcomes.drop_first();
        assert(all_ok_before(rest, k - 1)) by {
            assert forall|i: int| 0 <= i < k - 1 implies (#[trigger] rest[i]) is Ok by {
                assert(rest[i] == outcomes[i + 1]);
            }
        }
        lemma_run_through_successes(next, rest, k - 1);
        assert(rest.skip(k - 1) =~= outcomes.skip(k));
    }
}

/// A batch of no copies wants no job: whatever the device would answer, nothing is sent
/// to it and the batch has succeeded.
pub proof fn law_empty_batch_sends_nothing(outcomes: Seq<Result<(), Seq<char>>>)
    ensures
        !BatchView::start(0).wants_job(),
        BatchView::start(0).succeeded(),
        BatchView::start(0).run(outcomes) == BatchView::start(0),
        BatchView::start(0).sent(outcomes) == 0,
{
}

/// A batch stops at the first job that fails. If the device answers the first `k` jobs
/// with success and the next one with a failure, and more than `k` copies were asked for,
/// then exactly `k` jobs have succeeded, the batch carries that failure's message, wants
/// no further job, and `k + 1` jobs were sent in all, however many answers follow.
pub proof fn law_batch_stops_at_first_failure(
    copies: nat,
    outcomes: Seq<Result<(), Seq<char>>>,
    k: int,
)
    requires
        0 <= k < outcomes.len(),
        k < copies,
        all_ok_before(outcomes, k),
        outcomes[k] is Err,
    ensures
        BatchView::start(copies).run(outcomes) == (BatchView {
            copies,
            printed: k as nat,
            failure: Some(outcomes[k]->Err_0),
        }),
        !BatchView::start(copies).run(outcomes).wants_job(),
        BatchView::start(copies).sent(outcomes) == k + 1,
{
    let begun = BatchView::start(copies);
    lemma_run_through_successes(begun, outcomes, k);
    let reached = BatchView { printed: k as nat, ..begun };
    let rest = outcomes.skip(k);
    assert(rest[0] == outcomes[k]);
    let failed = reached.recorded(rest[0]);
    assert(reached.run(rest) == failed.run(rest.drop_first()));
    assert(reached.sent(rest) == 1 + failed.sent(rest.drop_first()));
}

/// A batch whose jobs all succeed sends exactly as many jobs as were asked for: if the
/// device answers the first `copies` jobs with success, that many have succeeded, none
/// has failed, and no job beyond them is sent.
pub proof fn law_batch_without_failure_prints_all(
    copies: nat,
    outcomes: Seq<Result<(), Seq<char>>>,
)
    requires
        copies <= outcomes.len(),
        all_ok_before(outcomes, copies as int),
    ensures
        BatchView::start(copies).run(outcomes) == (BatchView {
            copies,
            printed: copies,
            failure: None,
        }),
        BatchView::start(copies).run(outcomes).succeeded(),
        BatchView::start(copies).sent(outcomes) == copies,
{
    lemma_run_through_successes(BatchView::start(copies), outcomes, copies as int);
}

} // verus!
