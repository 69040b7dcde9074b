//! Orchestration of one request: precondition check, then a full retry
//! cycle.
//!
//! A request may only execute once its query string is built; executing an
//! unbuilt request is a caller bug that is reported immediately, before any
//! admission control or network attempt.  The retry cycle itself is the
//! machine of [`crate::retry`]; [`execute_scripted`] runs it to resolution
//! against a pre-recorded sequence of attempt outcomes, which is also the
//! loop a live driver replays attempt by attempt.

use vstd::prelude::*;
use crate::backoff::BackoffPolicy;
use crate::category::{ApiCategory, request_categories};
use crate::classify::{Attempt, Classification, spec_classify};
use crate::error::Error;
use crate::retry::{RetryMachine, Step};

verus! {

/// One service request: the query string once built, and the quota category
/// the request consumes.
pub struct Request {
    /// The built query string, `None` until query-building completes.
    pub query: Option<String>,
    /// The service-specific quota bucket this request consumes.
    pub category: ApiCategory,
}

impl Request {
    /// A fresh request with no query string built.
    pub fn new(category: ApiCategory) -> (r: Self)
        ensures
            r.query is None,
            r.category == category,
    {
        Request { query: None, category }
    }

    /// Installs the built query string.
    pub fn with_query(self, query: String) -> (r: Self)
        ensures
            r.query == Some(query),
            r.category == self.category,
    {
        Request { query: Some(query), ..self }
    }

    /// Whether the request is ready to execute.
    pub fn ready(&self) -> (b: bool)
        ensures
            b == (self.query is Some),
    {
        self.query.is_some()
    }

    /// The categories this request consumes: its own and the wildcard.
    pub fn categories(&self) -> (v: Vec<ApiCategory>)
        ensures
            v@ == seq![ApiCategory::All, self.category],
    {
        request_categories(self.category)
    }
}

/// How a scripted run ended.
pub enum ScriptedRun<T> {
    /// The retry cycle resolved; `attempts` network attempts were made.
    Completed { result: Result<T, Error>, attempts: u32 },
    /// The script ran out before the cycle resolved; every scripted outcome
    /// was consumed by one attempt.
    ScriptExhausted { attempts: u32 },
}

/// The resolution the retry cycle reaches from attempt `i` onward, given the
/// outcome each attempt will observe: the terminal result and the number of
/// attempts made, or `None` when the script ends before resolution.
pub open spec fn spec_resolution<T>(
    p: BackoffPolicy,
    script: Seq<Attempt<T>>,
    i: nat,
) -> Option<(Result<T, Error>, nat)>
    decreases script.len() - i,
{
    if i >= script.len() {
        None
    } else {
        match spec_classify(script[i as int]) {
            Classification::Success(v) => Some((Result::<T, Error>::Ok(v), (i + 1) as nat)),
            Classification::Permanent(e) => Some((Result::<T, Error>::Err(e), (i + 1) as nat)),
            Classification::Retryable(e) => {
                if i + 1 < p.max_attempts {
                    spec_resolution(p, script, (i + 1) as nat)
                } else {
                    Some((Result::<T, Error>::Err(Error::Exhausted(Box::new(e))), (i + 1) as nat))
                }
            },
        }
    }
}

/// Runs one full retry cycle against a pre-recorded script of attempt
/// outcomes, one script entry per attempt.
///
/// An unbuilt query fails immediately with [`Error::QueryNotBuilt`] and makes
/// zero attempts.  Otherwise the run resolves exactly as
/// [`spec_resolution`] says, and never makes more attempts than the policy's
/// budget.
pub fn execute_scripted<T>(req: &Request, policy: &BackoffPolicy, script: Vec<Attempt<T>>) -> (r:
    ScriptedRun<T>)
    requires
        policy.wf(),
        script@.len() <= u32::MAX,
    ensures
        req.query is None ==> r == (ScriptedRun::Completed {
            result: Result::<T, Error>::Err(Error::QueryNotBuilt),
            attempts: 0u32,
        }),
        req.query is Some ==> (match spec_resolution(*policy, script@, 0) {
            None => r == (ScriptedRun::<T>::ScriptExhausted { attempts: script@.len() as u32 }),
            Some((res, n)) => r == (ScriptedRun::Completed { result: res, attempts: n as u32 }),
        }),
        (match r {
            ScriptedRun::Completed { attempts, .. } => attempts <= policy.max_attempts,
            ScriptedRun::ScriptExhausted { attempts } => attempts <= policy.max_attempts,
        }),
{
    if !req.ready() {
        return ScriptedRun::Completed { result: Err(Error::QueryNotBuilt), attempts: 0 };
    }
    let ghost orig = script@;
    let mut rest = script;
    let mut m = RetryMachine::<T>::new(*policy);
    m.begin();
    let mut i: usize = 0;
    loop
        invariant
            req.query is Some,
            m.wf(),
            m.state is Attempting,
            m.policy == *policy,
            m.attempts == i,
            i <= orig.len() <= u32::MAX,
            rest@ == orig.subrange(i as int, orig.len() as int),
            orig == script@,
            spec_resolution(*policy, orig, i as nat) == spec_resolution(*policy, orig, 0),
        decreases orig.len() - i,
    {
        if rest.len() == 0 {
            proof {
                assert(orig.len() - i == rest@.len());
            }
            return ScriptedRun::ScriptExhausted { attempts: i as u32 };
        }
        let a = rest.remove(0);
        proof {
            assert(a == orig[i as int]);
            assert(rest@ =~= orig.subrange(i as int + 1, orig.len() as int));
        }
        let step = m.observe(a);
        match step {
            Step::Finished => {
                let attempts = m.attempts;
                let result = m.into_result();
                proof {
                    assert(spec_resolution(*policy, orig, i as nat) == Some(
                        (result, (i + 1) as nat),
                    ));
                }
                return ScriptedRun::Completed { result, attempts };
            },
            Step::RetryAfter(_) => {
                m.resume();
                i = i + 1;
            },
        }
    }
}

} // verus!
