use vstd::prelude::*;

verus! {

/// Why a call to the registry failed.
#[derive(Clone, Copy, Debug, PartialEq, Eq, Structural)]
pub enum FetchError {
    /// The connection failed or was reset.
    Network,
    /// The call did not finish within its timeout.
    Timeout,
    /// The registry refused the credentials (401 or 403).
    Unauthorized,
    /// The response could not be understood.
    MalformedResponse,
    /// The registry answered with another non-success status.
    ServerRejected(u16),
}

/// How a failure is handled: retried in place, or surfaced.
#[derive(Clone, Copy, Debug, PartialEq, Eq, Structural)]
pub enum FailureClass {
    NetworkTransient,
    NetworkFatal,
}

/// What an HTTP status from the registry means for a conditional fetch.
#[derive(Clone, Copy, Debug, PartialEq, Eq, Structural)]
pub enum StatusClass {
    Success,
    NotModified,
    Failure(FetchError),
}

pub open spec fn is_transient(e: FetchError) -> bool {
    match e {
        FetchError::Network | FetchError::Timeout => true,
        FetchError::ServerRejected(code) => code >= 500,
        _ => false,
    }
}

impl FetchError {
    /// Transient failures (timeouts, dropped connections, 5xx) are retried;
    /// authentication and validation failures are not.
    pub fn is_retryable(&self) -> (r: bool)
        ensures
            r == is_transient(*self),
    {
        match self {
            FetchError::Network | FetchError::Timeout => true,
            FetchError::ServerRejected(code) => *code >= 500,
            _ => false,
        }
    }

    pub fn class(&self) -> (r: FailureClass)
        ensures
            r == (if is_transient(*self) {
                FailureClass::NetworkTransient
            } else {
                FailureClass::NetworkFatal
            }),
    {
        if self.is_retryable() {
            FailureClass::NetworkTransient
        } else {
            FailureClass::NetworkFatal
        }
    }
}

pub open spec fn status_class(status: u16) -> StatusClass {
    if 200 <= status <= 299 {
        StatusClass::Success
    } else if status == 304 {
        StatusClass::NotModified
    } else if status == 401 || status == 403 {
        StatusClass::Failure(FetchError::Unauthorized)
    } else {
        StatusClass::Failure(FetchError::ServerRejected(status))
    }
}

/// Reads the status of a conditional fetch.
pub fn classify_status(status: u16) -> (r: StatusClass)
    ensures
        r == status_class(status),
{
    if 200 <= status && status <= 299 {
        StatusClass::Success
    } else if status == 304 {
        StatusClass::NotModified
    } else if status == 401 || status == 403 {
        StatusClass::Failure(FetchError::Unauthorized)
    } else {
        StatusClass::Failure(FetchError::ServerRejected(status))
    }
}

/// The exponential delay before retry number `attempt` (counting from 0):
/// `base * 2^attempt`, never above `cap`.
pub open spec fn capped_backoff(base: nat, attempt: nat, cap: nat) -> nat
    decreases attempt,
{
    if attempt == 0 {
        if base <= cap { base } else { cap }
    } else {
        let prev = capped_backoff(base, (attempt - 1) as nat, cap);
        if 2 * prev <= cap { 2 * prev } else { cap }
    }
}

proof fn lemma_capped_backoff_bounded(base: nat, attempt: nat, cap: nat)
    ensures
        capped_backoff(base, attempt, cap) <= cap,
    decreases attempt,
{
    if attempt > 0 {
        lemma_capped_backoff_bounded(base, (attempt - 1) as nat, cap);
    }
}

/// What to do after a failed call.
#[derive(Clone, Copy, Debug, PartialEq, Eq, Structural)]
pub enum RetryDecision {
    RetryAfter(u64),
    GiveUp(FetchError),
}

/// Bounded retries with capped exponential backoff and jitter.
#[derive(Clone, Copy, Debug, PartialEq, Eq, Structural)]
pub struct RetryPolicy {
    /// Calls made in all, the first one included.
    pub max_attempts: u32,
    pub base_delay_ms: u64,
    pub max_delay_ms: u64,
}

/// The delay actually waited: half of the capped backoff, plus a jitter of
/// at most the other half.
pub open spec fn jittered(backoff: nat, jitter: nat) -> nat {
    (backoff / 2 + jitter % ((backoff - backoff / 2 + 1) as nat)) as nat
}

impl RetryPolicy {
    pub open spec fn decision(&self, attempts_made: u32, err: FetchError, jitter: u64) -> RetryDecision {
        if is_transient(err) && attempts_made < self.max_attempts {
            RetryDecision::RetryAfter(
                jittered(
                    capped_backoff(self.base_delay_ms as nat, (attempts_made - 1) as nat, self.max_delay_ms as nat),
                    jitter as nat,
                ) as u64,
            )
        } else {
            RetryDecision::GiveUp(err)
        }
    }

    /// The capped backoff before retry number `attempt`.
    pub fn backoff(&self, attempt: u32) -> (r: u64)
        ensures
            r == capped_backoff(self.base_delay_ms as nat, attempt as nat, self.max_delay_ms as nat),
    {
        let mut d: u64 = if self.base_delay_ms <= self.max_delay_ms {
            self.base_delay_ms
        } else {
            self.max_delay_ms
        };
        let mut i: u32 = 0;
        while i < attempt
            invariant
                i <= attempt,
                d == capped_backoff(self.base_delay_ms as nat, i as nat, self.max_delay_ms as nat),
            decreases attempt - i,
        {
            proof {
                lemma_capped_backoff_bounded(self.base_delay_ms as nat, i as nat, self.max_delay_ms as nat);
            }
            if d <= self.max_delay_ms / 2 {
                d = 2 * d;
            } else {
                d = self.max_delay_ms;
            }
            i = i + 1;
        }
        d
    }

    /// Decides, after `attempts_made` calls of which the last failed with
    /// `err`, whether to call again and after how long. `jitter` is a random
    /// draw supplied by the caller.
    pub fn decide(&self, attempts_made: u32, err: FetchError, jitter: u64) -> (r: RetryDecision)
        requires
            attempts_made >= 1,
        ensures
            r == self.decision(attempts_made, err, jitter),
    {
        if err.is_retryable() && attempts_made < self.max_attempts {
            let b = self.backoff(attempts_made - 1);
            let half = b / 2;
            let delay = half + jitter % (b - half + 1);
            RetryDecision::RetryAfter(delay)
        } else {
            RetryDecision::GiveUp(err)
        }
    }
}

} // verus!
