//! The retry state machine.
//!
//! One machine drives one logical request.  The driver performs each network
//! attempt, feeds the observed outcome back through [`RetryMachine::observe`],
//! and sleeps for exactly the delay the machine hands out.  Retries within
//! one machine are strictly sequential; the machine never retries a permanent
//! fault and never gives up while the fault is retryable and budget remains.

use vstd::prelude::*;
use crate::backoff::{BackoffPolicy, lemma_delay_bounds};
use crate::classify::{Attempt, Classification, classify, spec_classify};
use crate::error::Error;

verus! {

/// Where one retry loop currently stands.
pub enum MachineState<T> {
    /// The loop has not started.
    Idle,
    /// An attempt is in flight: the driver is performing admission control
    /// and the network call.
    Attempting,
    /// A retryable fault was observed and budget remains; the driver must
    /// sleep `delay_ms` milliseconds before the next attempt.
    Waiting { delay_ms: u64 },
    /// A terminal outcome was reached; only this is returned to the caller.
    Resolved(Result<T, Error>),
}

/// What the driver must do after feeding an outcome to the machine.
pub enum Step {
    /// Sleep this many milliseconds, call [`RetryMachine::resume`], and
    /// attempt again.
    RetryAfter(u64),
    /// The machine is resolved; collect the result.
    Finished,
}

/// The retry loop's state, its attempt count, and the delay schedule it has
/// reached.
pub struct RetryMachine<T> {
    /// The immutable retry budget for this loop.
    pub policy: BackoffPolicy,
    /// The current state.
    pub state: MachineState<T>,
    /// How many attempts have been observed so far.
    pub attempts: u32,
    /// The delay the next wait will use, in milliseconds.
    pub next_delay_ms: u64,
}

impl<T> RetryMachine<T> {
    /// The machine's internal invariant: the attempt count never passes the
    /// budget, the pending delay always sits at the policy's schedule for the
    /// current attempt count, and a machine that still attempts or waits has
    /// budget left.
    pub open spec fn wf(self) -> bool {
        &&& self.policy.wf()
        &&& self.attempts <= self.policy.max_attempts
        &&& (!(self.state is Resolved) ==> self.next_delay_ms == self.policy.spec_delay(
            self.attempts as nat,
        ))
        &&& (self.state is Idle ==> self.attempts == 0)
        &&& (self.state is Attempting ==> self.attempts < self.policy.max_attempts)
        &&& (self.state is Waiting ==> self.attempts < self.policy.max_attempts)
    }

    /// A fresh machine in the `Idle` state.
    pub fn new(policy: BackoffPolicy) -> (m: Self)
        requires
            policy.wf(),
        ensures
            m.wf(),
            m.policy == policy,
            m.state is Idle,
            m.attempts == 0,
    {
        let next_delay_ms = policy.first_delay();
        RetryMachine { policy, state: MachineState::Idle, attempts: 0, next_delay_ms }
    }

    /// Starts the loop: the first attempt is issued immediately, with no
    /// initial delay.
    pub fn begin(&mut self)
        requires
            old(self).wf(),
            old(self).state is Idle,
        ensures
            final(self).wf(),
            *final(self) == (RetryMachine { state: MachineState::<T>::Attempting, ..*old(self) }),
    {
        self.state = MachineState::Attempting;
    }

    /// After the waited delay has elapsed, re-enters the attempting state;
    /// the driver re-consults admission control before every attempt.
    pub fn resume(&mut self)
        requires
            old(self).wf(),
            old(self).state is Waiting,
        ensures
            final(self).wf(),
            *final(self) == (RetryMachine { state: MachineState::<T>::Attempting, ..*old(self) }),
    {
        self.state = MachineState::Attempting;
    }

    /// Feeds one attempt's observed outcome to the machine.
    ///
    /// A success or a permanent fault resolves the machine at once.  A
    /// retryable fault moves it to `Waiting` while budget remains, with a
    /// delay that follows the policy's schedule, and resolves it to the
    /// exhaustion error carrying the last retryable cause once the budget is
    /// spent.
    pub fn observe(&mut self, a: Attempt<T>) -> (step: Step)
        requires
            old(self).wf(),
            old(self).state is Attempting,
        ensures
            final(self).wf(),
            final(self).policy == old(self).policy,
            final(self).attempts == old(self).attempts + 1,
            match spec_classify(a) {
                Classification::Success(v) => {
                    &&& final(self).state == MachineState::Resolved(Result::<T, Error>::Ok(v))
                    &&& step is Finished
                },
                Classification::Permanent(e) => {
                    &&& final(self).state == MachineState::Resolved(Result::<T, Error>::Err(e))
                    &&& step is Finished
                },
                Classification::Retryable(e) => {
                    if old(self).attempts + 1 < old(self).policy.max_attempts {
                        &&& final(self).state == MachineState::<T>::Waiting {
                            delay_ms: old(self).next_delay_ms,
                        }
                        &&& step == Step::RetryAfter(old(self).next_delay_ms)
                    } else {
                        &&& final(self).state == MachineState::Resolved(
                            Result::<T, Error>::Err(Error::Exhausted(Box::new(e))),
                        )
                        &&& step is Finished
                    }
                },
            },
    {
        let c = classify(a);
        self.attempts = self.attempts + 1;
        match c {
            Classification::Success(v) => {
                self.state = MachineState::Resolved(Ok(v));
                Step::Finished
            },
            Classification::Permanent(e) => {
                self.state = MachineState::Resolved(Err(e));
                Step::Finished
            },
            Classification::Retryable(e) => {
                if self.attempts < self.policy.max_attempts {
                    let d = self.next_delay_ms;
                    proof {
                        lemma_delay_bounds(self.policy, (self.attempts - 1) as nat);
                    }
                    self.next_delay_ms = self.policy.next_delay(d);
                    self.state = MachineState::Waiting { delay_ms: d };
                    Step::RetryAfter(d)
                } else {
                    self.state = MachineState::Resolved(Err(Error::Exhausted(Box::new(e))));
                    Step::Finished
                }
            },
        }
    }

    /// Whether the machine has reached a terminal state.
    pub fn is_resolved(&self) -> (b: bool)
        ensures
            b == (self.state is Resolved),
    {
        match &self.state {
            MachineState::Resolved(_) => true,
            _ => false,
        }
    }

    /// Hands out the terminal outcome.
    pub fn into_result(self) -> (r: Result<T, Error>)
        requires
            self.state is Resolved,
        ensures
            self.state == MachineState::Resolved(r),
    {
        match self.state {
            MachineState::Resolved(r) => r,
            _ => unreached(),
        }
    }
}

} // verus!
