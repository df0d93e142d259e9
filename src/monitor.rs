use vstd::prelude::*;

verus! {

/// Seconds to wait before opening the input device again.
pub const BACKOFF_SECS: u64 = 5;

/// How the input monitor retries a failed or ended monitoring attempt.
#[derive(Clone, Copy, Debug, PartialEq, Eq, Structural)]
pub struct RetryPolicy {
    /// Fixed delay before each new attempt, in seconds.
    pub backoff_secs: u64,
    /// The most attempts to make in all, or `None` for no limit.
    pub max_attempts: Option<u64>,
}

/// How a monitoring attempt went, as reported by the device side.
#[derive(Clone, Copy, Debug, PartialEq, Eq, Structural)]
pub enum AttemptOutcome {
    /// Opening the device failed.
    OpenFailed,
    /// The device is open; events are being read.
    Opened,
    /// A read or forwarding error ended an attempt that had opened the device.
    Ended,
}

/// What the input monitor does next.
#[derive(Clone, Copy, Debug, PartialEq, Eq, Structural)]
pub enum MonitorAction {
    /// Read and translate events from the open device.
    ReadEvents,
    /// Wait this many seconds, then open the device again.
    RetryAfter(u64),
    /// The policy allows no more attempts.
    GiveUp,
}

impl RetryPolicy {
    /// Whether another attempt may follow `attempts` attempts.
    pub open spec fn allows(&self, attempts: u64) -> bool {
        match self.max_attempts {
            None => true,
            Some(m) => attempts < m,
        }
    }

    /// Retry indefinitely, waiting the fixed backoff before each new attempt.
    pub fn fixed_backoff() -> (r: RetryPolicy)
        ensures
            r.backoff_secs == BACKOFF_SECS,
            r.max_attempts is None,
    {
        RetryPolicy { backoff_secs: BACKOFF_SECS, max_attempts: None }
    }
}

/// The count of open attempts after an outcome is reported.
pub open spec fn attempts_after(attempts: u64, outcome: AttemptOutcome) -> u64 {
    match outcome {
        AttemptOutcome::Ended => attempts,
        _ => if attempts < u64::MAX {
            (attempts + 1) as u64
        } else {
            attempts
        },
    }
}

/// The action for an outcome, given the count of attempts including it.
pub open spec fn action_for(policy: RetryPolicy, attempts: u64, outcome: AttemptOutcome) -> MonitorAction {
    match outcome {
        AttemptOutcome::Opened => MonitorAction::ReadEvents,
        _ => if policy.allows(attempts) {
            MonitorAction::RetryAfter(policy.backoff_secs)
        } else {
            MonitorAction::GiveUp
        },
    }
}

/// The actions taken for a run of outcomes, starting after `attempts` attempts.
pub open spec fn actions_for(policy: RetryPolicy, attempts: u64, outcomes: Seq<AttemptOutcome>) -> Seq<
    MonitorAction,
>
    decreases outcomes.len(),
{
    if outcomes.len() == 0 {
        Seq::empty()
    } else {
        let next = attempts_after(attempts, outcomes[0]);
        seq![action_for(policy, next, outcomes[0])] + actions_for(policy, next, outcomes.skip(1))
    }
}

/// The device opens made by a monitor whose actions were `actions`: the
/// first open, then one after each wait.
pub open spec fn opens_made(actions: Seq<MonitorAction>) -> nat
    decreases actions.len(),
{
    if actions.len() == 0 {
        1
    } else {
        opens_made(actions.drop_last()) + if actions.last() is RetryAfter {
            1nat
        } else {
            0nat
        }
    }
}

/// `k` failed opens followed by a successful one.
pub open spec fn fail_then_open(k: nat) -> Seq<AttemptOutcome> {
    Seq::new(k, |i: int| AttemptOutcome::OpenFailed).push(AttemptOutcome::Opened)
}

proof fn lemma_retry_run(policy: RetryPolicy, attempts: u64, k: nat)
    requires
        policy.max_attempts is None,
    ensures
        actions_for(policy, attempts, fail_then_open(k)) == Seq::new(
            k,
            |i: int| MonitorAction::RetryAfter(policy.backoff_secs),
        ).push(MonitorAction::ReadEvents),
    decreases k,
{
    let outcomes = fail_then_open(k);
    let next = attempts_after(attempts, outcomes[0]);
    if k == 0 {
        assert(outcomes.skip(1) =~= Seq::<AttemptOutcome>::empty());
        assert(actions_for(policy, next, outcomes.skip(1)) =~= Seq::<MonitorAction>::empty());
        assert(actions_for(policy, attempts, outcomes) =~= seq![MonitorAction::ReadEvents]);
        assert(Seq::new(0, |i: int| MonitorAction::RetryAfter(policy.backoff_secs)).push(
            MonitorAction::ReadEvents,
        ) =~= seq![MonitorAction::ReadEvents]);
    } else {
        assert(outcomes.skip(1) =~= fail_then_open((k - 1) as nat));
        lemma_retry_run(policy, next, (k - 1) as nat);
        assert(actions_for(policy, attempts, outcomes) =~= Seq::new(
            k,
            |i: int| MonitorAction::RetryAfter(policy.backoff_secs),
        ).push(MonitorAction::ReadEvents));
    }
}

proof fn lemma_opens_of_retries(b: u64, k: nat)
    ensures
        opens_made(Seq::new(k, |i: int| MonitorAction::RetryAfter(b))) == k + 1,
        opens_made(Seq::new(k, |i: int| MonitorAction::RetryAfter(b)).push(MonitorAction::ReadEvents))
            == k + 1,
    decreases k,
{
    let s = Seq::new(k, |i: int| MonitorAction::RetryAfter(b));
    let u = s.push(MonitorAction::ReadEvents);
    assert(u.drop_last() =~= s);
    assert(u.len() > 0 && !(u.last() is RetryAfter));
    assert(opens_made(u) == opens_made(u.drop_last()));
    if k > 0 {
        lemma_opens_of_retries(b, (k - 1) as nat);
        let t = Seq::new((k - 1) as nat, |i: int| MonitorAction::RetryAfter(b));
        assert(s.drop_last() =~= t);
    } else {
        assert(s =~= Seq::<MonitorAction>::empty());
    }
}

/// With no limit on attempts, a device that fails to open `k` times and then
/// opens is answered by `k` waits of the fixed backoff, each followed by a
/// new open, and then by reading events: `k + 1` opens in all, with no restart.
pub proof fn lemma_resilient_reopen(policy: RetryPolicy, k: nat)
    requires
        policy.max_attempts is None,
    ensures
        actions_for(policy, 0, fail_then_open(k)) == Seq::new(
            k,
            |i: int| MonitorAction::RetryAfter(policy.backoff_secs),
        ).push(MonitorAction::ReadEvents),
        opens_made(actions_for(policy, 0, fail_then_open(k))) == k + 1,
{
    lemma_retry_run(policy, 0, k);
    lemma_opens_of_retries(policy.backoff_secs, k);
}

/// The retry state of the input monitor: its policy and the open attempts
/// made so far.
pub struct InputMonitor {
    pub policy: RetryPolicy,
    pub attempts: u64,
}

impl InputMonitor {
    /// A monitor that has made no attempt yet.
    pub fn new(policy: RetryPolicy) -> (r: InputMonitor)
        ensures
            r.policy == policy,
            r.attempts == 0,
    {
        InputMonitor { policy, attempts: 0 }
    }

    /// Takes the outcome of the current attempt and says what to do next.
    pub fn on_outcome(&mut self, outcome: AttemptOutcome) -> (r: MonitorAction)
        ensures
            final(self).policy == old(self).policy,
            final(self).attempts == attempts_after(old(self).attempts, outcome),
            r == action_for(old(self).policy, final(self).attempts, outcome),
    {
        match outcome {
            AttemptOutcome::Ended => {},
            _ => {
                if self.attempts < u64::MAX {
                    self.attempts = self.attempts + 1;
                }
            },
        }
        match outcome {
            AttemptOutcome::Opened => MonitorAction::ReadEvents,
            _ => {
                let allowed = match self.policy.max_attempts {
                    None => true,
                    Some(m) => self.attempts < m,
                };
                if allowed {
                    MonitorAction::RetryAfter(self.policy.backoff_secs)
                } else {
                    MonitorAction::GiveUp
                }
            },
        }
    }
}

} // verus!
