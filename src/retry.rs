use vstd::prelude::*;

verus! {

/// How many times an operation is attempted before the executor gives up.
pub const MAX_RETRIES: u8 = 4;

/// The pause between two attempts, in milliseconds.
pub const RETRY_DELAY_MS: u64 = 500;

/// What the executor does after one attempt of its operation.
pub enum RetryStep<T> {
    /// The attempt succeeded: its value is handed back and no attempt follows.
    Done(T),
    /// The attempt failed and attempts remain: pause `RETRY_DELAY_MS`, then retry.
    Backoff,
    /// The last allowed attempt failed: report it and hand back no value.
    GiveUp,
}

/// The shape of a `RetryStep`, without the value it may carry.
pub enum StepKind {
    Done,
    Backoff,
    GiveUp,
}

impl<T> RetryStep<T> {
    pub open spec fn kind(&self) -> StepKind {
        match self {
            RetryStep::Done(_) => StepKind::Done,
            RetryStep::Backoff => StepKind::Backoff,
            RetryStep::GiveUp => StepKind::GiveUp,
        }
    }
}

/// The step that follows an attempt, when `made` attempts came before it.
/// Failures are all alike: only whether the attempt succeeded counts.
pub open spec fn next_step(made: nat, succeeded: bool) -> StepKind {
    if succeeded {
        StepKind::Done
    } else if made + 1 < MAX_RETRIES {
        StepKind::Backoff
    } else {
        StepKind::GiveUp
    }
}

/// The state of one run of the backoff retry executor: the number of
/// attempts made so far.
pub struct Retry {
    pub attempts: u8,
}

impl Retry {
    /// Another attempt may still be made.
    pub open spec fn may_attempt(&self) -> bool {
        self.attempts < MAX_RETRIES
    }

    /// A run in which nothing has been attempted yet.
    pub fn new() -> (r: Retry)
        ensures
            r.attempts == 0,
            r.may_attempt(),
    {
        Retry { attempts: 0 }
    }

    /// Takes in the outcome of one more attempt and says what comes next.
    /// The error is never inspected: every failure is retried alike.
    pub fn record<T, E>(&mut self, outcome: Result<T, E>) -> (r: RetryStep<T>)
        requires
            old(self).may_attempt(),
        ensures
            final(self).attempts == old(self).attempts + 1,
            r.kind() == next_step(old(self).attempts as nat, outcome is Ok),
            outcome matches Ok(v) ==> r == RetryStep::<T>::Done(v),
            r is Backoff <==> final(self).may_attempt() && outcome is Err,
    {
        self.attempts = self.attempts + 1;
        match outcome {
            Ok(v) => RetryStep::Done(v),
            Err(_) => {
                if self.attempts < MAX_RETRIES {
                    RetryStep::Backoff
                } else {
                    RetryStep::GiveUp
                }
            },
        }
    }
}

/// What a whole run of the executor amounts to.
pub struct RetryRun {
    /// Attempts made.
    pub attempts: nat,
    /// Pauses taken between attempts.
    pub delays: nat,
    /// Whether a value was handed back.
    pub delivered: bool,
}

/// The run of the executor, from `made` attempts on, when attempt `made + i`
/// succeeds exactly when `outcomes[i]` holds.
pub open spec fn retry_run(made: nat, outcomes: Seq<bool>) -> RetryRun
    decreases outcomes.len(),
{
    if outcomes.len() == 0 {
        RetryRun { attempts: made, delays: 0, delivered: false }
    } else {
        match next_step(made, outcomes[0]) {
            StepKind::Done => RetryRun { attempts: made + 1, delays: 0, delivered: true },
            StepKind::GiveUp => RetryRun { attempts: made + 1, delays: 0, delivered: false },
            StepKind::Backoff => {
                let rest = retry_run(made + 1, outcomes.drop_first());
                RetryRun { attempts: rest.attempts, delays: rest.delays + 1, delivered: rest.delivered }
            },
        }
    }
}

proof fn lemma_succeeds_after_failures(made: nat, k: nat, outcomes: Seq<bool>)
    requires
        made <= k < MAX_RETRIES,
        outcomes.len() > k - made,
        forall|i: int| 0 <= i < k - made ==> !outcomes[i],
        outcomes[k - made],
    ensures
        retry_run(made, outcomes) == (RetryRun { attempts: k + 1, delays: (k - made) as nat, delivered: true }),
    decreases k - made,
{
    if made < k {
        assert(!outcomes[0]);
        let rest = outcomes.drop_first();
        assert forall|i: int| 0 <= i < k - (made + 1) implies !rest[i] by {
            assert(rest[i] == outcomes[i + 1]);
        }
        assert(rest[k - (made + 1)] == outcomes[k - made]);
        lemma_succeeds_after_failures(made + 1, k, rest);
    }
}

proof fn lemma_fails_throughout(made: nat, outcomes: Seq<bool>)
    requires
        made < MAX_RETRIES,
        outcomes.len() >= MAX_RETRIES - made,
        forall|i: int| 0 <= i < MAX_RETRIES - made ==> !outcomes[i],
    ensures
        retry_run(made, outcomes) == (RetryRun {
            attempts: MAX_RETRIES as nat,
            delays: (MAX_RETRIES - 1 - made) as nat,
            delivered: false,
        }),
    decreases MAX_RETRIES - made,
{
    assert(!outcomes[0]);
    if made + 1 < MAX_RETRIES {
        let rest = outcomes.drop_first();
        assert forall|i: int| 0 <= i < MAX_RETRIES - (made + 1) implies !rest[i] by {
            assert(rest[i] == outcomes[i + 1]);
        }
        lemma_fails_throughout(made + 1, rest);
    }
}

/// An operation that fails `k < MAX_RETRIES` times and then succeeds is
/// attempted exactly `k + 1` times, with `k` pauses, and its value is handed
/// back: no attempt follows the success.
pub proof fn law_success_stops_retrying(k: nat, outcomes: Seq<bool>)
    requires
        k < MAX_RETRIES,
        outcomes.len() > k,
        forall|i: int| 0 <= i < k ==> !outcomes[i],
        outcomes[k as int],
    ensures
        retry_run(0, outcomes) == (RetryRun { attempts: k + 1, delays: k, delivered: true }),
{
    lemma_succeeds_after_failures(0, k, outcomes);
}

/// An operation that fails on every one of its `MAX_RETRIES` attempts gets
/// no value handed back, and the executor pauses `MAX_RETRIES - 1` times.
pub proof fn law_exhaustion_gives_nothing(outcomes: Seq<bool>)
    requires
        outcomes.len() >= MAX_RETRIES,
        forall|i: int| 0 <= i < MAX_RETRIES ==> !outcomes[i],
    ensures
        retry_run(0, outcomes) == (RetryRun {
            attempts: MAX_RETRIES as nat,
            delays: (MAX_RETRIES - 1) as nat,
            delivered: false,
        }),
{
    lemma_fails_throughout(0, outcomes);
}

} // verus!
