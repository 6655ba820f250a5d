use vstd::prelude::*;

use crate::error::RustWireError;

verus! {

/// An error-rate ceiling: the exact fraction `num / den`, in [0, 1].
///
/// The latency driver compares the observed error rate
/// `error_count / num_requests` strictly against this fraction; keeping
/// the fraction as a pair of integers makes the comparison exact:
/// `error_count / num_requests > num / den` holds exactly when
/// `error_count * den > num * num_requests`.
#[derive(Clone, Copy, Debug)]
pub struct ErrorThreshold {
    pub num: u64,
    pub den: u64,
}

impl ErrorThreshold {
    /// A fraction in [0, 1]: positive denominator, numerator at most
    /// the denominator.
    pub open spec fn wf(self) -> bool {
        self.den > 0 && self.num <= self.den
    }

    /// Builds the ceiling `num / den`, a fraction in [0, 1].
    pub fn new(num: u64, den: u64) -> (r: Self)
        requires
            den > 0,
            num <= den,
        ensures
            r.wf(),
            r.num == num,
            r.den == den,
    {
        Self { num, den }
    }
}

impl Default for ErrorThreshold {
    /// The ceiling applied when a caller supplies none: nine tenths.
    fn default() -> (r: Self)
        ensures
            r.wf(),
            r == default_threshold(),
    {
        Self { num: 9, den: 10 }
    }
}

/// The default error-rate ceiling, nine tenths.
pub open spec fn default_threshold() -> ErrorThreshold {
    ErrorThreshold { num: 9, den: 10 }
}

/// The ceiling a run applies: the one supplied, or the default.
pub open spec fn applied_threshold(t: Option<ErrorThreshold>) -> ErrorThreshold {
    match t {
        Some(t) => t,
        None => default_threshold(),
    }
}

/// Number of failed outcomes in a batch.
pub open spec fn error_count_of(outcomes: Seq<Result<u128, RustWireError>>) -> nat
    decreases outcomes.len(),
{
    if outcomes.len() == 0 {
        0
    } else {
        error_count_of(outcomes.drop_last()) + (if outcomes.last() is Err {
            1nat
        } else {
            0nat
        })
    }
}

/// Sum of the recorded durations of the successful outcomes.
pub open spec fn total_duration_of(outcomes: Seq<Result<u128, RustWireError>>) -> int
    decreases outcomes.len(),
{
    if outcomes.len() == 0 {
        0
    } else {
        total_duration_of(outcomes.drop_last()) + (match outcomes.last() {
            Ok(d) => d as int,
            Err(_) => 0,
        })
    }
}

/// The threshold policy's decision: whether `error_count / num_requests`
/// is strictly greater than the ceiling fraction.
pub open spec fn exceeds_threshold(
    error_count: nat,
    num_requests: nat,
    threshold: ErrorThreshold,
) -> bool {
    error_count * threshold.den > threshold.num * num_requests
}

/// What aggregating a batch under a ceiling yields: the
/// `ThresholdExceeded` error carrying the observed counts when the
/// error rate exceeds the ceiling; otherwise the pair of the average
/// latency — the summed success durations divided by the full request
/// count, not by the success count — and the error count.
pub open spec fn aggregate_spec(
    outcomes: Seq<Result<u128, RustWireError>>,
    threshold: ErrorThreshold,
) -> Result<(u128, usize), RustWireError>
    recommends
        outcomes.len() > 0,
{
    let e = error_count_of(outcomes);
    let n = outcomes.len();
    if exceeds_threshold(e, n, threshold) {
        Err(RustWireError::ThresholdExceeded { error_count: e as usize, num_requests: n as usize })
    } else {
        Ok(((total_duration_of(outcomes) / n as int) as u128, e as usize))
    }
}

/// The summed durations of a batch are never negative.
proof fn lemma_duration_nonneg(outcomes: Seq<Result<u128, RustWireError>>)
    ensures
        total_duration_of(outcomes) >= 0,
    decreases outcomes.len(),
{
    if outcomes.len() > 0 {
        lemma_duration_nonneg(outcomes.drop_last());
    }
}

/// A prefix of a batch never sums to more than the whole batch: the
/// durations are non-negative.
proof fn lemma_prefix_duration(outcomes: Seq<Result<u128, RustWireError>>, j: int)
    requires
        0 <= j <= outcomes.len(),
    ensures
        total_duration_of(outcomes.take(j)) <= total_duration_of(outcomes),
        total_duration_of(outcomes.take(j)) >= 0,
    decreases outcomes.len() - j,
{
    lemma_duration_nonneg(outcomes.take(j));
    if j == outcomes.len() {
        assert(outcomes.take(j) =~= outcomes);
    } else {
        lemma_prefix_duration(outcomes, j + 1);
        assert(outcomes.take(j + 1).drop_last() =~= outcomes.take(j));
    }
}

/// Aggregates one batch of per-request outcomes under the supplied
/// ceiling, or the default of nine tenths when none is supplied.
///
/// Every outcome weighs the same: a failed request, for whatever
/// reason, counts as one error. When the observed error rate stays at
/// or below the ceiling the call returns the numeric pair — average
/// latency and error count — even when some requests failed; above the
/// ceiling it returns the `ThresholdExceeded` error carrying the
/// observed counts, and no partial result.
pub fn aggregate(
    outcomes: &Vec<Result<u128, RustWireError>>,
    error_threshold: Option<ErrorThreshold>,
) -> (r: Result<(u128, usize), RustWireError>)
    requires
        outcomes@.len() >= 1,
        total_duration_of(outcomes@) <= u128::MAX,
        error_threshold matches Some(t) ==> t.wf(),
    ensures
        r == aggregate_spec(outcomes@, applied_threshold(error_threshold)),
{
    let threshold: ErrorThreshold = match error_threshold {
        Some(t) => t,
        None => ErrorThreshold::default(),
    };
    let n = outcomes.len();
    let mut total: u128 = 0;
    let mut errors: usize = 0;
    let mut i: usize = 0;
    while i < n
        invariant
            i <= n,
            n == outcomes@.len(),
            total == total_duration_of(outcomes@.take(i as int)),
            errors == error_count_of(outcomes@.take(i as int)),
            errors <= i,
            total_duration_of(outcomes@) <= u128::MAX,
        decreases n - i,
    {
        proof {
            assert(outcomes@.take(i + 1).drop_last() =~= outcomes@.take(i as int));
            lemma_prefix_duration(outcomes@, i + 1);
        }
        match &outcomes[i] {
            Ok(d) => {
                total = total + *d;
            },
            Err(_) => {
                errors = errors + 1;
            },
        }
        i = i + 1;
    }
    proof {
        assert(outcomes@.take(n as int) =~= outcomes@);
        assert((errors as int) * (threshold.den as int) <= (u64::MAX as int) * (u64::MAX as int))
            by (nonlinear_arith)
            requires
                0 <= errors as int <= u64::MAX as int,
                0 <= threshold.den as int <= u64::MAX as int,
        ;
        assert((threshold.num as int) * (n as int) <= (u64::MAX as int) * (u64::MAX as int))
            by (nonlinear_arith)
            requires
                0 <= threshold.num as int <= u64::MAX as int,
                0 <= n as int <= u64::MAX as int,
        ;
    }
    let observed: u128 = (errors as u128) * (threshold.den as u128);
    let ceiling: u128 = (threshold.num as u128) * (n as u128);
    if observed > ceiling {
        return Err(RustWireError::ThresholdExceeded { error_count: errors, num_requests: n });
    }
    Ok((total / (n as u128), errors))
}

/// A batch with no failed outcome aggregates, under any ceiling in
/// [0, 1], to zero errors and the average latency
/// `total duration / request count`.
pub proof fn lemma_all_success(
    outcomes: Seq<Result<u128, RustWireError>>,
    threshold: ErrorThreshold,
)
    requires
        outcomes.len() >= 1,
        threshold.wf(),
        forall|i: int| 0 <= i < outcomes.len() ==> outcomes[i] is Ok,
    ensures
        error_count_of(outcomes) == 0,
        aggregate_spec(outcomes, threshold) == Ok::<(u128, usize), RustWireError>(
            ((total_duration_of(outcomes) / outcomes.len() as int) as u128, 0usize),
        ),
{
    lemma_error_count_all_ok(outcomes);
    assert(threshold.num * outcomes.len() >= 0) by (nonlinear_arith);
}

/// In a batch of successes alone, the error count is zero.
proof fn lemma_error_count_all_ok(outcomes: Seq<Result<u128, RustWireError>>)
    requires
        forall|i: int| 0 <= i < outcomes.len() ==> outcomes[i] is Ok,
    ensures
        error_count_of(outcomes) == 0,
    decreases outcomes.len(),
{
    if outcomes.len() > 0 {
        lemma_error_count_all_ok(outcomes.drop_last());
    }
}

/// The threshold policy, both ways: a batch whose error rate strictly
/// exceeds the ceiling aggregates to the `ThresholdExceeded` error
/// carrying the observed counts; one whose rate stays at or below the
/// ceiling aggregates to the numeric pair of average latency and error
/// count.
pub proof fn lemma_threshold_policy(
    outcomes: Seq<Result<u128, RustWireError>>,
    threshold: ErrorThreshold,
)
    requires
        outcomes.len() >= 1,
        threshold.wf(),
    ensures
        exceeds_threshold(error_count_of(outcomes), outcomes.len(), threshold)
            ==> aggregate_spec(outcomes, threshold) == Err::<(u128, usize), RustWireError>(
            RustWireError::ThresholdExceeded {
                error_count: error_count_of(outcomes) as usize,
                num_requests: outcomes.len() as usize,
            },
        ),
        !exceeds_threshold(error_count_of(outcomes), outcomes.len(), threshold)
            ==> aggregate_spec(outcomes, threshold) == Ok::<(u128, usize), RustWireError>(
            (
                (total_duration_of(outcomes) / outcomes.len() as int) as u128,
                error_count_of(outcomes) as usize,
            ),
        ),
{
}

/// The default ceiling of nine tenths: with no explicit threshold, a
/// batch with `error_count / num_requests` at most 9/10 aggregates to
/// the numeric pair, and one above 9/10 to the `ThresholdExceeded`
/// error.
pub proof fn lemma_default_threshold(outcomes: Seq<Result<u128, RustWireError>>)
    requires
        outcomes.len() >= 1,
    ensures
        10 * error_count_of(outcomes) <= 9 * outcomes.len()
            ==> aggregate_spec(outcomes, applied_threshold(None)) is Ok,
        10 * error_count_of(outcomes) > 9 * outcomes.len()
            ==> (aggregate_spec(outcomes, applied_threshold(None)) matches Err(
            RustWireError::ThresholdExceeded { error_count: e, num_requests: n },
        ) && e == error_count_of(outcomes) as usize && n == outcomes.len() as usize),
{
    let e = error_count_of(outcomes);
    let n = outcomes.len();
    assert(e * (10u64 as int) == 10 * e) by (nonlinear_arith);
    assert((9u64 as int) * n == 9 * n) by (nonlinear_arith);
}

/// Classifies an HTTP status code: success is any status in the 2xx
/// range, exactly as the underlying transport reports it.
pub fn is_success_status(status: u16) -> (r: bool)
    ensures
        r == (200 <= status && status < 300),
{
    200 <= status && status < 300
}

} // verus!
