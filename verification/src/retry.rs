//! Retry decisions for requests sent over an HTTP transport: which errors are
//! retried under a policy, how long to wait before the next attempt, and the
//! step that a retry loop takes after each attempt.

use crate::duration::{Duration, NANOS_PER_MILLI, NANOS_PER_SEC};
use vstd::arithmetic::power2::{lemma_pow2_strictly_increases, lemma_pow2_unfold, pow2};
use vstd::prelude::*;

verus! {

/// The longest single wait between two attempts, in seconds.
pub const MAX_RETRY_DELAY_SECS: u64 = 600;

/// The number of equal steps in which the jitter factor is drawn between
/// 0.9 and 1.1.
pub const JITTER_STEPS: u128 = 1_000_000_000_000;

/// The HTTP status code "429 Too Many Requests".
pub const TOO_MANY_REQUESTS: u16 = 429;

/// The longest single wait between two attempts, in nanoseconds.
pub open spec fn max_retry_delay_nanos() -> nat {
    (MAX_RETRY_DELAY_SECS * NANOS_PER_SEC) as nat
}

/// The longest single wait between two attempts.
pub fn max_retry_delay() -> (d: Duration)
    ensures
        d@ == max_retry_delay_nanos(),
{
    Duration::from_secs(MAX_RETRY_DELAY_SECS)
}

/// An error of the transport that carries requests.
#[derive(Debug)]
pub enum TransportError {
    /// The server answered with a status that is not a success.
    Http {
        status: u16,
        url: Option<String>,
        headers: Option<Vec<(String, String)>>,
        body: Option<String>,
    },
    /// The retry budget was used up.
    RetryLimit,
    /// The request timed out.
    Timeout,
    /// The connection failed.
    Network(String),
    /// The request could not be built.
    Build(String),
}

/// Which classes of error a policy retries.
#[derive(Debug, Clone, Copy, PartialEq, Eq, Structural)]
pub struct RetryOn {
    pub retry_429: bool,
    pub retry_5xx: bool,
    pub retry_transport: bool,
}

/// How often and how patiently a request is retried.
#[derive(Debug, Clone)]
pub struct RetryPolicy {
    pub max_attempts: u64,
    pub base_delay: Duration,
    pub retry_on: RetryOn,
}

/// Whether an HTTP status is a server error (500 to 599).
pub open spec fn is_server_error(status: u16) -> bool {
    500 <= status <= 599
}

impl RetryOn {
    /// Whether the class of `err` is one that this configuration retries,
    /// whatever the attempt.
    pub open spec fn retries_class(self, err: TransportError) -> bool {
        match err {
            TransportError::Http { status, .. } => (status == TOO_MANY_REQUESTS && self.retry_429)
                || (is_server_error(status) && self.retry_5xx),
            TransportError::Timeout | TransportError::Network(_) => self.retry_transport,
            TransportError::Build(_) | TransportError::RetryLimit => false,
        }
    }

    /// Whether `err`, met at `attempt`, is retried when at most
    /// `max_attempts` retries are allowed.
    pub open spec fn retries(self, err: TransportError, attempt: int, max_attempts: int) -> bool {
        attempt < max_attempts && self.retries_class(err)
    }

    /// Decides whether the transport error `err` should be retried under this
    /// configuration.
    pub fn should_retry(&self, err: &TransportError, attempt: u64, max_attempts: u64) -> (b: bool)
        ensures
            b == self.retries(*err, attempt as int, max_attempts as int),
            attempt >= max_attempts ==> !b,
            (*err) is Http ==> (b <==> (attempt < max_attempts && (((*err)->status == 429
                && self.retry_429) || (500 <= (*err)->status <= 599 && self.retry_5xx)))),
            ((*err) is Timeout || (*err) is Network) ==> (b <==> (attempt < max_attempts
                && self.retry_transport)),
            ((*err) is Build || (*err) is RetryLimit) ==> !b,
    {
        if attempt >= max_attempts {
            return false;
        }
        match err {
            TransportError::Http { status, .. } => {
                (*status == TOO_MANY_REQUESTS && self.retry_429) || (500 <= *status && *status
                    <= 599 && self.retry_5xx)
            },
            TransportError::Timeout | TransportError::Network(_) => self.retry_transport,
            TransportError::Build(_) | TransportError::RetryLimit => false,
        }
    }
}

// ---------------------------------------------------------------------------
// Backoff
// ---------------------------------------------------------------------------

/// `x`, or `u64::MAX` where `x` is larger.
pub open spec fn saturate(x: int) -> int {
    if x > u64::MAX {
        u64::MAX as int
    } else {
        x
    }
}

/// The factor by which the base delay grows before attempt `attempt`
/// (attempt 1 waits the base delay once), saturating at `u64::MAX`.
pub open spec fn backoff_factor(attempt: nat) -> int {
    saturate(pow2((attempt - 1) as nat) as int)
}

/// The whole milliseconds of `base`, kept to their low 64 bits.
pub open spec fn base_millis(base: Duration) -> int {
    (base@ / (NANOS_PER_MILLI as nat)) as int % 0x1_0000_0000_0000_0000
}

/// The exponential delay in milliseconds before attempt `attempt`, before
/// jitter: the base delay times `2^(attempt - 1)`, saturating at `u64::MAX`.
pub open spec fn raw_backoff_millis(base: Duration, attempt: nat) -> int {
    saturate(base_millis(base) * backoff_factor(attempt))
}

/// The lowest jittered delay, in milliseconds, for a raw delay `raw`: 90%
/// of it, rounded down.
pub open spec fn jitter_low(raw: int) -> int {
    raw * 9 / 10
}

/// One past the highest jittered delay, in milliseconds, for a raw delay
/// `raw`: 110% of it, rounded up.
pub open spec fn jitter_high(raw: int) -> int {
    (raw * 11 + 9) / 10
}

/// The highest delay, in milliseconds, that jitter can make of the raw
/// delay `raw`.
pub open spec fn jitter_top(raw: int) -> int {
    if raw == 0 {
        0
    } else {
        jitter_high(raw) - 1
    }
}

/// Whether `jittered` is a delay in milliseconds that jitter can make of the
/// raw delay `raw`: one in `[90%, 110%)` of it; only 0 where `raw` is 0.
pub open spec fn is_jittered(raw: int, jittered: int) -> bool {
    if raw == 0 {
        jittered == 0
    } else {
        jitter_low(raw) <= jittered < jitter_high(raw)
    }
}

/// The wait, in nanoseconds, for a jittered delay of `jittered`
/// milliseconds: at most `u64::MAX` milliseconds, and never more than the
/// longest single wait.
pub open spec fn capped_delay_nanos(jittered: int) -> nat {
    let nanos = saturate(jittered) * NANOS_PER_MILLI;
    if nanos <= max_retry_delay_nanos() {
        nanos as nat
    } else {
        max_retry_delay_nanos()
    }
}

/// The jittered delay, in milliseconds, for the raw delay `raw` and the
/// draw `draw` (from 0 to `JITTER_STEPS - 1`): `raw` times the factor
/// `0.9 + 0.2 * draw / JITTER_STEPS`, rounded down.
pub open spec fn jitter_draw_millis(raw: int, draw: int) -> int {
    raw * (9 * JITTER_STEPS + 2 * draw) / (10 * JITTER_STEPS)
}

/// Whether `delay` (in nanoseconds) is a wait that `backoff` can give for
/// `base` and `attempt`: from attempt 1 on, the wait for the raw delay under
/// some draw of the jitter factor.
pub open spec fn is_backoff_delay(base: Duration, attempt: nat, delay: nat) -> bool {
    if attempt == 0 {
        delay == if base@ <= max_retry_delay_nanos() {
            base@
        } else {
            max_retry_delay_nanos()
        }
    } else {
        exists|draw: int|
            0 <= draw < JITTER_STEPS && delay == #[trigger] capped_delay_nanos(
                jitter_draw_millis(raw_backoff_millis(base, attempt), draw),
            )
    }
}

/// `ms` milliseconds in nanoseconds.
pub open spec fn millis_in_nanos(ms: int) -> int {
    ms * NANOS_PER_MILLI
}

/// Whether `delay` (in nanoseconds) is `min(j ms, 600 s)` for some whole
/// number of milliseconds `j` in `[90%, 110%)` of the raw delay `raw`
/// (`j` = 0 where `raw` is 0).
pub open spec fn wait_within_jitter(raw: int, delay: int) -> bool {
    exists|j: int|
        ((raw == 0 && j == 0) || (raw * 9 / 10 <= j && 10 * j < 11 * raw)) && delay == if #[trigger] millis_in_nanos(j)
            <= MAX_RETRY_DELAY_SECS * NANOS_PER_SEC {
            millis_in_nanos(j)
        } else {
            MAX_RETRY_DELAY_SECS * NANOS_PER_SEC
        }
}

proof fn lemma_below_ceil(j: int, raw: int)
    requires
        raw > 0,
        j < (raw * 11 + 9) / 10,
    ensures
        10 * j < 11 * raw,
{
    let c = (raw * 11 + 9) / 10;
    assert(10 * c <= raw * 11 + 9) by (nonlinear_arith)
        requires
            c == (raw * 11 + 9) / 10,
            raw > 0,
    ;
}

/// From attempt 1 on, every wait that `backoff` gives is `min(j ms, 600 s)`
/// for a jittered delay `j` in `[90%, 110%)` of the raw delay; where the raw
/// delay is not 0 and 110% of it is below 600 s, the wait is below 110% and
/// at least 90% (rounded down) of the raw delay.
pub proof fn lemma_backoff_wait_within_jitter(base: Duration, attempt: nat, delay: nat)
    requires
        attempt >= 1,
        is_backoff_delay(base, attempt, delay),
    ensures
        wait_within_jitter(raw_backoff_millis(base, attempt), delay as int),
        0 < raw_backoff_millis(base, attempt) && 11 * raw_backoff_millis(base, attempt)
            * NANOS_PER_MILLI < 10 * MAX_RETRY_DELAY_SECS * NANOS_PER_SEC ==> {
            let raw = raw_backoff_millis(base, attempt);
            &&& 10 * delay < 11 * raw * NANOS_PER_MILLI
            &&& (raw * 9 / 10) * NANOS_PER_MILLI <= delay
        },
{
    let raw = raw_backoff_millis(base, attempt);
    let draw = choose|draw: int|
        0 <= draw < JITTER_STEPS && delay == #[trigger] capped_delay_nanos(
            jitter_draw_millis(raw, draw),
        );
    assert(0 <= raw) by {
        vstd::arithmetic::power2::lemma_pow2_pos((attempt - 1) as nat);
        let m = base_millis(base);
        let f = backoff_factor(attempt);
        assert(0 <= m * f) by (nonlinear_arith)
            requires
                0 <= m,
                0 <= f,
        ;
    }
    let j = jitter_draw_millis(raw, draw);
    lemma_jitter_draw_in_range(raw, draw);
    if raw > 0 {
        lemma_below_ceil(j, raw);
    }
    assert(delay == if millis_in_nanos(j) <= MAX_RETRY_DELAY_SECS * NANOS_PER_SEC {
        millis_in_nanos(j)
    } else {
        MAX_RETRY_DELAY_SECS * NANOS_PER_SEC
    });
    if 11 * raw * NANOS_PER_MILLI < 10 * MAX_RETRY_DELAY_SECS * NANOS_PER_SEC && raw > 0 {
        assert(10 * millis_in_nanos(j) < 11 * raw * NANOS_PER_MILLI);
        assert(millis_in_nanos(j) <= MAX_RETRY_DELAY_SECS * NANOS_PER_SEC);
        assert(delay == millis_in_nanos(j));
        assert((raw * 9 / 10) * NANOS_PER_MILLI <= millis_in_nanos(j));
    }
}

proof fn lemma_div_lower(q: int, x: int, m: int)
    requires
        m > 0,
        q * m <= x,
    ensures
        q <= x / m,
{
    assert(q <= x / m) by (nonlinear_arith)
        requires
            m > 0,
            q * m <= x,
    ;
}

/// Every draw of the jitter factor gives a delay in `[90%, 110%)` of the raw
/// delay (0 where the raw delay is 0).
pub proof fn lemma_jitter_draw_in_range(raw: int, draw: int)
    requires
        0 <= raw,
        0 <= draw < JITTER_STEPS,
    ensures
        is_jittered(raw, jitter_draw_millis(raw, draw)),
{
    let s = JITTER_STEPS as int;
    let k = 9 * s + 2 * draw;
    let m = 10 * s;
    let x = raw * k;
    let j = x / m;
    assert(0 <= x) by (nonlinear_arith)
        requires
            0 <= raw,
            0 <= k,
            x == raw * k,
    ;
    assert(j * m <= x && x < j * m + m) by (nonlinear_arith)
        requires
            m > 0,
            j == x / m,
    ;
    if raw == 0 {
        assert(x == 0);
        assert(j == 0);
    } else {
        let q = raw * 9 / 10;
        assert(q * 10 <= raw * 9);
        assert(q * m <= x) by (nonlinear_arith)
            requires
                q * 10 <= raw * 9,
                m == 10 * s,
                s > 0,
                x == raw * k,
                k >= 9 * s,
                raw >= 0,
        ;
        lemma_div_lower(q, x, m);
        assert(x < raw * 11 * s) by (nonlinear_arith)
            requires
                x == raw * k,
                k < 11 * s,
                raw > 0,
        ;
        assert(j * 10 < raw * 11) by (nonlinear_arith)
            requires
                j * m <= x,
                x < raw * 11 * s,
                m == 10 * s,
                s > 0,
        ;
        assert(j < (raw * 11 + 9) / 10);
    }
}

/// `2^e`, saturating at `u64::MAX`.
fn pow2_saturating(e: u64) -> (r: u64)
    ensures
        r == saturate(pow2(e as nat) as int),
{
    let mut r: u64 = 1;
    let mut i: u64 = 0;
    proof {
        reveal_with_fuel(vstd::arithmetic::power::pow, 1);
        assert(pow2(0) == 1) by {
            vstd::arithmetic::power2::lemma2_to64();
        }
    }
    while i < e
        invariant
            i <= e,
            r == pow2(i as nat),
        decreases e - i,
    {
        proof {
            lemma_pow2_unfold((i + 1) as nat);
        }
        match r.checked_mul(2) {
            Some(x) => {
                r = x;
            },
            None => {
                proof {
                    if i + 1 < e {
                        lemma_pow2_strictly_increases((i + 1) as nat, e as nat);
                    }
                }
                return u64::MAX;
            },
        }
        i += 1;
    }
    r
}

/// `rand::random_range` over `lo..hi`: a number drawn at random from the
/// thread's generator, at least `lo` and below `hi`. Nothing is stated of
/// which number it is; the range must not be empty, where the crate panics.
#[verifier::external_body]
fn random_in_range(lo: u128, hi: u128) -> (r: u128)
    requires
        lo < hi,
    ensures
        lo <= r < hi,
{
    rand::random_range(lo..hi)
}

/// The exponential delay, in milliseconds, before attempt `attempt`, before
/// jitter.
pub fn raw_backoff(base: Duration, attempt: u64) -> (r: u64)
    requires
        attempt > 0,
    ensures
        r == raw_backoff_millis(base, attempt as nat),
{
    let e = attempt - 1;
    let exp = pow2_saturating(e);
    let m = base.as_millis();
    let millis = #[verifier::truncate] (m as u64);
    assert(#[verifier::truncate] (m as u64) == m % 0x1_0000_0000_0000_0000) by (bit_vector);
    match millis.checked_mul(exp) {
        Some(x) => x,
        None => u64::MAX,
    }
}

/// The wait for a jittered delay of `jittered` milliseconds, capped at the
/// longest single wait.
pub fn capped_delay(jittered: u128) -> (d: Duration)
    ensures
        d@ == capped_delay_nanos(jittered as int),
        d@ == if jittered * NANOS_PER_MILLI <= MAX_RETRY_DELAY_SECS * NANOS_PER_SEC {
            jittered * NANOS_PER_MILLI
        } else {
            MAX_RETRY_DELAY_SECS * NANOS_PER_SEC
        },
{
    let millis: u64 = if jittered > u64::MAX as u128 {
        u64::MAX
    } else {
        jittered as u64
    };
    Duration::from_millis(millis).min(max_retry_delay())
}

/// The exponential backoff before attempt `attempt`: the base delay times
/// `2^(attempt - 1)` in whole milliseconds, with a random jitter of -10% to
/// +10%, and never longer than the longest single wait. Attempt 0 waits the
/// base delay, capped the same way.
pub fn backoff(base: Duration, attempt: u64) -> (d: Duration)
    ensures
        is_backoff_delay(base, attempt as nat, d@),
        attempt > 0 ==> exists|j: int|
            is_jittered(raw_backoff_millis(base, attempt as nat), j) && d@
                == #[trigger] capped_delay_nanos(j),
        attempt > 0 ==> wait_within_jitter(raw_backoff_millis(base, attempt as nat), d@ as int),
        attempt > 0 && 0 < raw_backoff_millis(base, attempt as nat) && 11 * raw_backoff_millis(
            base,
            attempt as nat,
        ) * NANOS_PER_MILLI < 10 * MAX_RETRY_DELAY_SECS * NANOS_PER_SEC ==> {
            let raw = raw_backoff_millis(base, attempt as nat);
            &&& 10 * d@ < 11 * raw * NANOS_PER_MILLI
            &&& (raw * 9 / 10) * NANOS_PER_MILLI <= d@
        },
        d@ <= max_retry_delay_nanos(),
{
    if attempt == 0 {
        return base.min(max_retry_delay());
    }
    let raw = raw_backoff(base, attempt);
    let draw = random_in_range(0, JITTER_STEPS);
    let d = jittered_delay(raw, draw);
    proof {
        let j = jitter_draw_millis(raw as int, draw as int);
        lemma_jitter_draw_in_range(raw as int, draw as int);
        assert(d@ == capped_delay_nanos(j));
        lemma_backoff_wait_within_jitter(base, attempt as nat, d@);
    }
    d
}

/// The wait for the raw delay `raw` (in milliseconds) under the draw `draw`
/// of the jitter factor, capped at the longest single wait.
pub fn jittered_delay(raw: u64, draw: u128) -> (d: Duration)
    requires
        draw < JITTER_STEPS,
    ensures
        d@ == capped_delay_nanos(jitter_draw_millis(raw as int, draw as int)),
{
    assert((raw as u128) * (9 * JITTER_STEPS + 2 * draw) <= u64::MAX as u128 * (11 * JITTER_STEPS))
        by (nonlinear_arith)
        requires
            draw < JITTER_STEPS,
    ;
    let jittered = (raw as u128) * (9 * JITTER_STEPS + 2 * draw) / (10 * JITTER_STEPS);
    capped_delay(jittered)
}

// ---------------------------------------------------------------------------
// The retry loop
// ---------------------------------------------------------------------------

/// What a retry loop does after an attempt.
pub enum RetryAction<T> {
    /// Stop and hand this result to the caller.
    Finish(Result<T, TransportError>),
    /// Wait `delay`, then make attempt `next_attempt`.
    Wait { delay: Duration, next_attempt: u64 },
}

/// The error that an attempt ended with, or `None` for a success.
pub open spec fn outcome_error<T>(outcome: Result<T, TransportError>) -> Option<TransportError> {
    match outcome {
        Ok(_) => None,
        Err(e) => Some(e),
    }
}

/// The attempt that the retry loop makes after attempt `attempt` ended with
/// `error` (`None` for a success), or `None` where the loop stops there: a
/// success stops it, and so does an error that the policy does not retry.
pub open spec fn next_attempt_after(policy: RetryPolicy, attempt: int, error: Option<TransportError>) -> Option<int> {
    match error {
        Some(e) => if policy.retry_on.retries(e, attempt, policy.max_attempts as int) {
            Some(attempt + 1)
        } else {
            None
        },
        None => None,
    }
}

/// The step of the retry loop after attempt `attempt` ended with `outcome`:
/// where `next_attempt_after` gives the next attempt, the loop waits a
/// backoff for it and tries again; otherwise it hands `outcome` back as it
/// came.
pub fn retry_action<T>(policy: &RetryPolicy, attempt: u64, outcome: Result<T, TransportError>) -> (a:
    RetryAction<T>)
    ensures
        match next_attempt_after(*policy, attempt as int, outcome_error(outcome)) {
            Some(n) => {
                &&& a matches RetryAction::Wait { delay, next_attempt }
                &&& a->next_attempt == n
                &&& is_backoff_delay(policy.base_delay, n as nat, a->delay@)
            },
            None => a == RetryAction::<T>::Finish(outcome),
        },
        outcome is Ok ==> a == RetryAction::<T>::Finish(outcome),
        a is Wait ==> {
            &&& outcome matches Err(e)
            &&& policy.retry_on.retries_class(e)
            &&& attempt < policy.max_attempts
            &&& a->next_attempt == attempt + 1
        },
{
    match outcome {
        Ok(v) => RetryAction::Finish(Ok(v)),
        Err(err) => {
            if policy.retry_on.should_retry(&err, attempt, policy.max_attempts) {
                let next_attempt = attempt.saturating_add(1);
                let delay = backoff(policy.base_delay, next_attempt);
                RetryAction::Wait { delay, next_attempt }
            } else {
                RetryAction::Finish(Err(err))
            }
        },
    }
}

/// A policy that retries every retryable class of error up to
/// `max_attempts` times, without waiting between attempts.
pub fn retry_policy(max_attempts: u64) -> (p: RetryPolicy)
    ensures
        p.max_attempts == max_attempts,
        p.base_delay@ == 0,
        p.retry_on == (RetryOn { retry_429: true, retry_5xx: true, retry_transport: true }),
{
    RetryPolicy {
        max_attempts,
        base_delay: Duration::zero(),
        retry_on: RetryOn { retry_429: true, retry_5xx: true, retry_transport: true },
    }
}

// ---------------------------------------------------------------------------
// Laws of the retry loop
// ---------------------------------------------------------------------------

/// The number of times a retry loop that starts at attempt `attempt` calls
/// the operation, when its calls end in turn with `outcomes` (`None` for a
/// success, `Some(e)` for the error `e`), each step going where
/// `next_attempt_after` (the step `retry_action` takes) leads. Counting stops
/// where the outcomes run out.
pub open spec fn calls_made(policy: RetryPolicy, attempt: int, outcomes: Seq<Option<TransportError>>) -> nat
    decreases outcomes.len(),
{
    if outcomes.len() == 0 {
        0
    } else {
        match next_attempt_after(policy, attempt, outcomes[0]) {
            Some(n) => 1 + calls_made(policy, n, outcomes.drop_first()),
            None => 1,
        }
    }
}

proof fn lemma_calls_bounded_from(policy: RetryPolicy, attempt: int, outcomes: Seq<Option<TransportError>>)
    requires
        0 <= attempt,
    ensures
        calls_made(policy, attempt, outcomes) <= if attempt <= policy.max_attempts {
            policy.max_attempts - attempt + 1
        } else {
            1
        },
    decreases outcomes.len(),
{
    if outcomes.len() > 0 {
        lemma_calls_bounded_from(policy, attempt + 1, outcomes.drop_first());
    }
}

/// A retry loop calls the operation at most `max_attempts + 1` times, however
/// the calls end.
pub proof fn lemma_retry_calls_bounded(policy: RetryPolicy, outcomes: Seq<Option<TransportError>>)
    ensures
        calls_made(policy, 0, outcomes) <= policy.max_attempts + 1,
{
    lemma_calls_bounded_from(policy, 0, outcomes);
}

proof fn lemma_retryable_from(policy: RetryPolicy, attempt: int, outcomes: Seq<Option<TransportError>>)
    requires
        0 <= attempt <= policy.max_attempts,
        outcomes.len() > policy.max_attempts - attempt,
        forall|k: int|
            0 <= k < outcomes.len() ==> (#[trigger] outcomes[k] matches Some(e)
                && policy.retry_on.retries_class(e)),
    ensures
        calls_made(policy, attempt, outcomes) == policy.max_attempts - attempt + 1,
    decreases outcomes.len(),
{
    assert(outcomes[0] matches Some(e) && policy.retry_on.retries_class(e));
    if attempt < policy.max_attempts {
        let rest = outcomes.drop_first();
        assert forall|k: int| 0 <= k < rest.len() implies (#[trigger] rest[k] matches Some(e)
            && policy.retry_on.retries_class(e)) by {
            assert(rest[k] == outcomes[k + 1]);
        }
        lemma_retryable_from(policy, attempt + 1, rest);
    }
}

/// When every call fails with an error of a class that the policy retries,
/// the loop calls the operation exactly `max_attempts + 1` times.
pub proof fn lemma_retryable_errors_use_every_attempt(
    policy: RetryPolicy,
    outcomes: Seq<Option<TransportError>>,
)
    requires
        outcomes.len() > policy.max_attempts,
        forall|k: int|
            0 <= k < outcomes.len() ==> (#[trigger] outcomes[k] matches Some(e)
                && policy.retry_on.retries_class(e)),
    ensures
        calls_made(policy, 0, outcomes) == policy.max_attempts + 1,
{
    lemma_retryable_from(policy, 0, outcomes);
}

/// An error of a class that the policy does not retry ends the loop after
/// the call that gave it.
pub proof fn lemma_unretried_error_stops(
    policy: RetryPolicy,
    attempt: int,
    outcomes: Seq<Option<TransportError>>,
)
    requires
        outcomes.len() > 0,
        outcomes[0] matches Some(e) && !policy.retry_on.retries_class(e),
    ensures
        calls_made(policy, attempt, outcomes) == 1,
{
}

/// Before jitter, the backoff never shrinks from one attempt to a later one.
pub proof fn lemma_raw_backoff_grows(base: Duration, a1: nat, a2: nat)
    requires
        1 <= a1 <= a2,
    ensures
        raw_backoff_millis(base, a1) <= raw_backoff_millis(base, a2),
{
    if a1 < a2 {
        lemma_pow2_strictly_increases((a1 - 1) as nat, (a2 - 1) as nat);
    }
    let f1 = backoff_factor(a1);
    let f2 = backoff_factor(a2);
    let m = base_millis(base);
    assert(0 <= m);
    assert(f1 <= f2);
    assert(m * f1 <= m * f2) by (nonlinear_arith)
        requires
            0 <= m,
            f1 <= f2,
    ;
}

/// Before jitter, a longer base delay never gives a shorter backoff at the
/// same attempt, as long as the longer base's whole milliseconds fit in 64
/// bits (beyond that they wrap).
pub proof fn lemma_raw_backoff_grows_with_base(b1: Duration, b2: Duration, attempt: nat)
    requires
        1 <= attempt,
        b1@ <= b2@,
        b2@ / (NANOS_PER_MILLI as nat) <= u64::MAX,
    ensures
        raw_backoff_millis(b1, attempt) <= raw_backoff_millis(b2, attempt),
{
    let x1 = b1@ as int;
    let x2 = b2@ as int;
    assert(x1 / 1_000_000 <= x2 / 1_000_000) by (nonlinear_arith)
        requires
            0 <= x1 <= x2,
    ;
    let m1 = base_millis(b1);
    let m2 = base_millis(b2);
    assert(m1 == x1 / 1_000_000);
    assert(m2 == x2 / 1_000_000);
    let f = backoff_factor(attempt);
    assert(f >= 0) by {
        vstd::arithmetic::power2::lemma_pow2_pos((attempt - 1) as nat);
    }
    assert(m1 * f <= m2 * f) by (nonlinear_arith)
        requires
            0 <= m1 <= m2,
            0 <= f,
    ;
}

/// The lowest and the highest jittered delay never shrink as the raw delay
/// grows.
pub proof fn lemma_jitter_bounds_grow(r1: int, r2: int)
    requires
        0 <= r1 <= r2,
    ensures
        jitter_low(r1) <= jitter_low(r2),
        jitter_high(r1) <= jitter_high(r2),
{
    assert(r1 * 9 / 10 <= r2 * 9 / 10) by (nonlinear_arith)
        requires
            0 <= r1 <= r2,
    ;
    assert((r1 * 11 + 9) / 10 <= (r2 * 11 + 9) / 10) by (nonlinear_arith)
        requires
            0 <= r1 <= r2,
    ;
}

/// A longer jittered delay never gives a shorter wait.
pub proof fn lemma_capped_delay_grows(x1: int, x2: int)
    requires
        0 <= x1 <= x2,
    ensures
        capped_delay_nanos(x1) <= capped_delay_nanos(x2),
{
}

/// For attempts from 1 on, the shortest and the longest wait that `backoff`
/// can give never shrink as the attempt or the base delay grows (as long as
/// the larger base's whole milliseconds fit in 64 bits).
pub proof fn lemma_backoff_range_grows(b1: Duration, b2: Duration, a1: nat, a2: nat)
    requires
        1 <= a1 <= a2,
        b1@ <= b2@,
        b2@ / (NANOS_PER_MILLI as nat) <= u64::MAX,
    ensures
        capped_delay_nanos(jitter_low(raw_backoff_millis(b1, a1))) <= capped_delay_nanos(
            jitter_low(raw_backoff_millis(b2, a2)),
        ),
        capped_delay_nanos(jitter_top(raw_backoff_millis(b1, a1))) <= capped_delay_nanos(
            jitter_top(raw_backoff_millis(b2, a2)),
        ),
{
    lemma_raw_backoff_grows_with_base(b1, b2, a1);
    lemma_raw_backoff_grows(b2, a1, a2);
    let r1 = raw_backoff_millis(b1, a1);
    let r2 = raw_backoff_millis(b2, a2);
    assert(0 <= r1) by {
        vstd::arithmetic::power2::lemma_pow2_pos((a1 - 1) as nat);
        let m = base_millis(b1);
        let f = backoff_factor(a1);
        assert(0 <= m * f) by (nonlinear_arith)
            requires
                0 <= m,
                0 <= f,
        ;
    }
    lemma_jitter_bounds_grow(r1, r2);
    assert(0 <= jitter_low(r1)) by (nonlinear_arith)
        requires
            0 <= r1,
    ;
    lemma_capped_delay_grows(jitter_low(r1), jitter_low(r2));
    if r1 > 0 {
        assert(jitter_high(r1) >= 1) by (nonlinear_arith)
            requires
                r1 >= 1,
        ;
    }
    lemma_capped_delay_grows(jitter_top(r1), jitter_top(r2));
}

/// With the same draw of the jitter factor, the wait never shrinks as the
/// base delay or the attempt grows, for attempts from 1 on (as long as the
/// larger base's whole milliseconds fit in 64 bits).
pub proof fn lemma_backoff_grows_for_same_draw(
    b1: Duration,
    b2: Duration,
    a1: nat,
    a2: nat,
    draw: int,
)
    requires
        1 <= a1 <= a2,
        b1@ <= b2@,
        b2@ / (NANOS_PER_MILLI as nat) <= u64::MAX,
        0 <= draw < JITTER_STEPS,
    ensures
        capped_delay_nanos(jitter_draw_millis(raw_backoff_millis(b1, a1), draw))
            <= capped_delay_nanos(jitter_draw_millis(raw_backoff_millis(b2, a1), draw)),
        capped_delay_nanos(jitter_draw_millis(raw_backoff_millis(b2, a1), draw))
            <= capped_delay_nanos(jitter_draw_millis(raw_backoff_millis(b2, a2), draw)),
{
    lemma_raw_backoff_grows_with_base(b1, b2, a1);
    lemma_raw_backoff_grows(b2, a1, a2);
    let r1 = raw_backoff_millis(b1, a1);
    let r2 = raw_backoff_millis(b2, a1);
    let r3 = raw_backoff_millis(b2, a2);
    assert(0 <= r1) by {
        vstd::arithmetic::power2::lemma_pow2_pos((a1 - 1) as nat);
        let m = base_millis(b1);
        let f = backoff_factor(a1);
        assert(0 <= m * f) by (nonlinear_arith)
            requires
                0 <= m,
                0 <= f,
        ;
    }
    lemma_jitter_draw_grows(r1, r2, draw);
    lemma_jitter_draw_grows(r2, r3, draw);
    lemma_jitter_draw_in_range(r1, draw);
    lemma_capped_delay_grows(jitter_draw_millis(r1, draw), jitter_draw_millis(r2, draw));
    lemma_jitter_draw_in_range(r2, draw);
    lemma_capped_delay_grows(jitter_draw_millis(r2, draw), jitter_draw_millis(r3, draw));
}

/// With the same draw of the jitter factor, a longer raw delay never gives
/// a shorter jittered delay.
pub proof fn lemma_jitter_draw_grows(r1: int, r2: int, draw: int)
    requires
        0 <= r1 <= r2,
        0 <= draw < JITTER_STEPS,
    ensures
        jitter_draw_millis(r1, draw) <= jitter_draw_millis(r2, draw),
{
    let s = JITTER_STEPS as int;
    let k = 9 * s + 2 * draw;
    let m = 10 * s;
    assert(r1 * k / m <= r2 * k / m) by (nonlinear_arith)
        requires
            0 <= r1 <= r2,
            0 <= k,
            m > 0,
    ;
}

/// Each class of transport error is retried exactly under its own flag,
/// while attempts remain: 429 under `retry_429`, every status from 500 to
/// 599 under `retry_5xx`, timeouts and network failures under
/// `retry_transport`; other statuses, build errors and the retry limit never
/// are, and nothing is once the attempts run out.
pub proof fn lemma_retry_classes(
    r: RetryOn,
    status: u16,
    url: Option<String>,
    headers: Option<Vec<(String, String)>>,
    body: Option<String>,
    message: String,
    attempt: int,
    max_attempts: int,
)
    ensures
        attempt < max_attempts && 500 <= status <= 599 ==> (r.retries(
            TransportError::Http { status, url, headers, body },
            attempt,
            max_attempts,
        ) <==> r.retry_5xx || (status == 429 && r.retry_429)),
        attempt < max_attempts ==> (r.retries(
            TransportError::Http { status: 429, url, headers, body },
            attempt,
            max_attempts,
        ) <==> r.retry_429),
        status != 429 && !(500 <= status <= 599) ==> !r.retries(
            TransportError::Http { status, url, headers, body },
            attempt,
            max_attempts,
        ),
        attempt < max_attempts ==> (r.retries(TransportError::Timeout, attempt, max_attempts)
            <==> r.retry_transport),
        attempt < max_attempts ==> (r.retries(
            TransportError::Network(message),
            attempt,
            max_attempts,
        ) <==> r.retry_transport),
        !r.retries(TransportError::Build(message), attempt, max_attempts),
        !r.retries(TransportError::RetryLimit, attempt, max_attempts),
        attempt >= max_attempts ==> !r.retries(
            TransportError::Http { status, url, headers, body },
            attempt,
            max_attempts,
        ) && !r.retries(TransportError::Timeout, attempt, max_attempts) && !r.retries(
            TransportError::Network(message),
            attempt,
            max_attempts,
        ),
{
}

/// A success ends the loop at every attempt: the loop goes to no further
/// attempt after it, and a run whose next call succeeds makes that one call.
pub proof fn lemma_success_ends_loop(
    policy: RetryPolicy,
    attempt: int,
    outcomes: Seq<Option<TransportError>>,
)
    requires
        outcomes.len() > 0,
        outcomes[0] is None,
    ensures
        next_attempt_after(policy, attempt, None) is None,
        calls_made(policy, attempt, outcomes) == 1,
{
}

} // verus!
