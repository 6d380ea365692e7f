use vstd::prelude::*;

verus! {

/// A bounded retry policy: at most `max_attempts` tries of one operation,
/// waiting `delay_ms` after each failed try that is followed by another.
#[derive(Clone, Copy, Debug, PartialEq, Eq)]
pub struct RetryPolicy {
    pub max_attempts: u32,
    pub delay_ms: u64,
}

/// Connecting: three tries, 500 ms apart.
pub fn connect_policy() -> (r: RetryPolicy)
    ensures
        r.max_attempts == 3,
        r.delay_ms == 500,
{
    RetryPolicy { max_attempts: 3, delay_ms: 500 }
}

/// Writing one packet: three tries, 100 ms apart.
pub fn write_policy() -> (r: RetryPolicy)
    ensures
        r.max_attempts == 3,
        r.delay_ms == 100,
{
    RetryPolicy { max_attempts: 3, delay_ms: 100 }
}

/// What to do after one try of a retried operation.
#[derive(Clone, Debug, PartialEq, Eq)]
pub enum Attempt {
    /// The try succeeded.
    Succeeded,
    /// The try failed; wait this long, then try again.
    RetryAfter(u64),
    /// The last allowed try failed, with this error.
    GaveUp(String),
}

/// Counts the failed tries of one operation under a policy.
#[derive(Clone, Copy, Debug, PartialEq, Eq)]
pub struct Retrier {
    pub policy: RetryPolicy,
    pub failures: u32,
}

impl Retrier {
    /// Another try is still allowed.
    pub open spec fn may_try(self) -> bool {
        self.failures < self.policy.max_attempts
    }

    pub fn new(policy: RetryPolicy) -> (r: Retrier)
        ensures
            r.policy == policy,
            r.failures == 0,
    {
        Retrier { policy, failures: 0 }
    }

    /// Records the outcome of one try. A success clears the count; a failure
    /// asks for another try while the policy allows one, and otherwise gives
    /// up with that failure's error.
    pub fn record(&mut self, result: Result<(), String>) -> (r: Attempt)
        requires
            old(self).may_try(),
        ensures
            final(self).policy == old(self).policy,
            match result {
                Ok(()) => r == Attempt::Succeeded && final(self).failures == 0,
                Err(e) => {
                    &&& final(self).failures == old(self).failures + 1
                    &&& final(self).failures < old(self).policy.max_attempts ==> r
                        == Attempt::RetryAfter(old(self).policy.delay_ms)
                    &&& final(self).failures >= old(self).policy.max_attempts ==> (r matches Attempt::GaveUp(g) && g@ == e@)
                },
            },
    {
        match result {
            Ok(()) => {
                self.failures = 0;
                Attempt::Succeeded
            },
            Err(e) => {
                self.failures = self.failures + 1;
                if self.failures < self.policy.max_attempts {
                    Attempt::RetryAfter(self.policy.delay_ms)
                } else {
                    Attempt::GaveUp(e)
                }
            },
        }
    }
}

} // verus!
