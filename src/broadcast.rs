//! The broadcast-retry engine: decides, after each submission of the signed
//! carrier transaction, whether to stop or to submit the same bytes again.
//! The caller performs the submissions and the pauses between them.

use vstd::prelude::*;

verus! {

/// What the error classifier made of a failed submission.
pub enum Classification {
    /// The fault is believed transient: submit again after a pause.
    Retry,
    /// The fault is terminal, with its reason.
    Fatal(String),
}

/// The classifier's rule for a failed submission: a timeout leaves the
/// transaction's fate open, so it is retried; any other error is final, with
/// its text as the reason.
pub fn classify(timed_out: bool, detail: String) -> (r: Classification)
    ensures
        timed_out ==> r is Retry,
        !timed_out ==> r == Classification::Fatal(detail),
{
    if timed_out {
        Classification::Retry
    } else {
        Classification::Fatal(detail)
    }
}

/// The result of one submission of the signed carrier transaction.
pub enum Attempt {
    /// The ledger committed the transaction.
    Committed { status: String, logs: Vec<String> },
    /// The submission failed and the classifier judged the error.
    Failed(Classification),
}

/// How a broadcast ended.
pub enum BroadcastOutcome {
    /// Committed, with the ledger's status and the execution log lines.
    Committed { status: String, logs: Vec<String> },
    /// Failed, with the reason.
    Failed { reason: String },
}

/// What the engine asks of its caller next.
pub enum Step {
    /// Submit these bytes now.
    Submit(Vec<u8>),
    /// Pause for the backoff interval, then submit these bytes.
    SubmitAfterBackoff(Vec<u8>),
    /// The broadcast is over.
    Finish(BroadcastOutcome),
}

/// The reason given when the attempt bound is reached.
pub open spec fn retry_limit_reason() -> Seq<char> {
    "retry limit reached"@
}

/// The bytes that a step submits, if it submits any.
pub open spec fn submitted(s: Step) -> Option<Seq<u8>> {
    match s {
        Step::Submit(p) => Some(p@),
        Step::SubmitAfterBackoff(p) => Some(p@),
        Step::Finish(_) => None,
    }
}

/// The engine for one request. The signed payload is fixed when the engine is
/// made and never changes: every submission sends exactly these bytes.
pub struct BroadcastEngine {
    pub payload: Vec<u8>,
    /// Submissions asked for so far.
    pub submissions: u64,
    /// An upper bound on submissions, or `None` to retry while the classifier
    /// says so.
    pub max_attempts: Option<u64>,
    pub finished: bool,
}

impl BroadcastEngine {
    pub open spec fn wf(&self) -> bool {
        self.max_attempts matches Some(m) ==> self.submissions <= m
    }

    /// No further submission may be asked for.
    pub open spec fn exhausted(&self) -> bool {
        ||| self.submissions == u64::MAX
        ||| (self.max_attempts matches Some(m) && self.submissions >= m)
    }

    /// `next` and `step` are what one call of `on_result` with `a` makes of `self`.
    pub open spec fn follows(self, a: Attempt, next: BroadcastEngine, step: Step) -> bool {
        &&& next.payload@ == self.payload@
        &&& next.max_attempts == self.max_attempts
        &&& match a {
            Attempt::Committed { status, logs } => {
                &&& next.submissions == self.submissions
                &&& next.finished
                &&& step == Step::Finish(BroadcastOutcome::Committed { status, logs })
            },
            Attempt::Failed(Classification::Fatal(reason)) => {
                &&& next.submissions == self.submissions
                &&& next.finished
                &&& step == Step::Finish(BroadcastOutcome::Failed { reason })
            },
            Attempt::Failed(Classification::Retry) => if self.exhausted() {
                &&& next.submissions == self.submissions
                &&& next.finished
                &&& step matches Step::Finish(BroadcastOutcome::Failed { reason })
                &&& reason@ == retry_limit_reason()
            } else {
                &&& next.submissions == self.submissions + 1
                &&& !next.finished
                &&& step matches Step::SubmitAfterBackoff(p)
                &&& p@ == self.payload@
            },
        }
    }

    /// `next` and `step` are what `start` makes of a fresh engine `self`.
    pub open spec fn starts(self, next: BroadcastEngine, step: Step) -> bool {
        &&& next.payload@ == self.payload@
        &&& next.max_attempts == self.max_attempts
        &&& if self.exhausted() {
            &&& next.submissions == 0
            &&& next.finished
            &&& step matches Step::Finish(BroadcastOutcome::Failed { reason })
            &&& reason@ == retry_limit_reason()
        } else {
            &&& next.submissions == 1
            &&& !next.finished
            &&& step matches Step::Submit(p)
            &&& p@ == self.payload@
        }
    }

    /// An engine that will submit `payload`, at most `max_attempts` times if a
    /// bound is given.
    pub fn new(payload: Vec<u8>, max_attempts: Option<u64>) -> (r: BroadcastEngine)
        ensures
            r.wf(),
            r.payload@ == payload@,
            r.max_attempts == max_attempts,
            r.submissions == 0,
            !r.finished,
    {
        BroadcastEngine { payload, submissions: 0, max_attempts, finished: false }
    }

    fn exhausted_exec(&self) -> (r: bool)
        ensures
            r == self.exhausted(),
    {
        if self.submissions == u64::MAX {
            return true;
        }
        match self.max_attempts {
            Some(m) => self.submissions >= m,
            None => false,
        }
    }

    fn payload_copy(&self) -> (r: Vec<u8>)
        ensures
            r@ == self.payload@,
    {
        let mut r: Vec<u8> = Vec::new();
        let mut i: usize = 0;
        while i < self.payload.len()
            invariant
                i <= self.payload@.len(),
                r@ == self.payload@.subrange(0, i as int),
            decreases self.payload@.len() - i,
        {
            r.push(self.payload[i]);
            i = i + 1;
            assert(r@ =~= self.payload@.subrange(0, i as int));
        }
        assert(r@ =~= self.payload@);
        r
    }

    /// The first submission.
    pub fn start(&mut self) -> (r: Step)
        requires
            old(self).wf(),
            old(self).submissions == 0,
            !old(self).finished,
        ensures
            final(self).wf(),
            old(self).starts(*final(self), r),
    {
        if self.exhausted_exec() {
            self.finished = true;
            return Step::Finish(BroadcastOutcome::Failed { reason: "retry limit reached".to_owned() });
        }
        self.submissions = 1;
        Step::Submit(self.payload_copy())
    }

    /// Takes the result of the last submission and says what comes next.
    pub fn on_result(&mut self, a: Attempt) -> (r: Step)
        requires
            old(self).wf(),
            old(self).submissions >= 1,
            !old(self).finished,
        ensures
            final(self).wf(),
            old(self).follows(a, *final(self), r),
    {
        match a {
            Attempt::Committed { status, logs } => {
                self.finished = true;
                Step::Finish(BroadcastOutcome::Committed { status, logs })
            },
            Attempt::Failed(Classification::Fatal(reason)) => {
                self.finished = true;
                Step::Finish(BroadcastOutcome::Failed { reason })
            },
            Attempt::Failed(Classification::Retry) => {
                if self.exhausted_exec() {
                    self.finished = true;
                    Step::Finish(BroadcastOutcome::Failed { reason: "retry limit reached".to_owned() })
                } else {
                    self.submissions = self.submissions + 1;
                    Step::SubmitAfterBackoff(self.payload_copy())
                }
            },
        }
    }
}

/// If the first submission is made and the classifier calls its failure fatal,
/// the broadcast has made exactly one submission and ends failed, with the
/// classifier's reason.
pub proof fn fatal_first_attempt_ends_after_one_submission(
    fresh: BroadcastEngine,
    started: BroadcastEngine,
    first: Step,
    reason: String,
    ended: BroadcastEngine,
    last: Step,
)
    requires
        fresh.submissions == 0,
        fresh.starts(started, first),
        first matches Step::Submit(_),
        started.follows(Attempt::Failed(Classification::Fatal(reason)), ended, last),
    ensures
        ended.submissions == 1,
        ended.finished,
        last == Step::Finish(BroadcastOutcome::Failed { reason }),
{
}

proof fn payload_kept(engines: Seq<BroadcastEngine>, attempts: Seq<Attempt>, steps: Seq<Step>, k: int)
    requires
        engines.len() == attempts.len() + 2,
        steps.len() == attempts.len(),
        engines[1].payload@ == engines[0].payload@,
        forall|i: int|
            0 <= i < attempts.len() ==> #[trigger] engines[i + 1].follows(
                attempts[i],
                engines[i + 2],
                steps[i],
            ),
        1 <= k < engines.len(),
    ensures
        engines[k].payload@ == engines[0].payload@,
    decreases k,
{
    if k > 1 {
        payload_kept(engines, attempts, steps, k - 1);
        assert(engines[(k - 2) + 1].follows(attempts[k - 2], engines[(k - 2) + 2], steps[k - 2]));
    }
}

/// Across all the submissions of one broadcast, first and retries alike, the
/// bytes submitted are those the engine was made with: nothing is signed again.
pub proof fn every_submission_sends_the_same_bytes(
    engines: Seq<BroadcastEngine>,
    first: Step,
    attempts: Seq<Attempt>,
    steps: Seq<Step>,
)
    requires
        engines.len() == attempts.len() + 2,
        steps.len() == attempts.len(),
        engines[0].submissions == 0,
        engines[0].starts(engines[1], first),
        forall|i: int|
            0 <= i < attempts.len() ==> #[trigger] engines[i + 1].follows(
                attempts[i],
                engines[i + 2],
                steps[i],
            ),
    ensures
        submitted(first) matches Some(p) ==> p == engines[0].payload@,
        forall|i: int|
            0 <= i < steps.len() ==> (#[trigger] submitted(steps[i]) matches Some(p) ==> p
                == engines[0].payload@),
{
    assert forall|i: int| 0 <= i < steps.len() implies (#[trigger] submitted(steps[i]) matches Some(
        p,
    ) ==> p == engines[0].payload@) by {
        payload_kept(engines, attempts, steps, i + 1);
        assert(engines[i + 1].follows(attempts[i], engines[i + 2], steps[i]));
    }
}

} // verus!
