//! Per-probe results and the summary of a run.
use vstd::prelude::*;

verus! {

/// The outcome of one probe. A dropped probe still records how long it
/// waited.
#[derive(Clone, Copy, Debug, PartialEq, Eq, Structural)]
pub struct PingResult {
    pub dropped: bool,
    pub latency_ms: u64,
}

/// Counts and latencies (in milliseconds) over all probes of a run.
#[derive(Clone, Copy, Debug, PartialEq, Eq, Structural)]
pub struct PingRunResult {
    pub total: u64,
    pub succeeded: u64,
    pub failed: u64,
    pub max_latency: u64,
    pub min_latency: u64,
    pub average_latency: u64,
}

/// Number of dropped probes in `s`.
pub open spec fn dropped_count(s: Seq<PingResult>) -> nat
    decreases s.len(),
{
    if s.len() == 0 {
        0
    } else {
        dropped_count(s.drop_last()) + if s.last().dropped {
            1nat
        } else {
            0nat
        }
    }
}

/// Sum of the latencies of all probes in `s`, dropped ones included.
pub open spec fn latency_total(s: Seq<PingResult>) -> nat
    decreases s.len(),
{
    if s.len() == 0 {
        0
    } else {
        latency_total(s.drop_last()) + s.last().latency_ms as nat
    }
}

/// `m` is the largest latency in `s`.
pub open spec fn is_max_latency(s: Seq<PingResult>, m: u64) -> bool {
    &&& forall|i: int| 0 <= i < s.len() ==> #[trigger] s[i].latency_ms <= m
    &&& exists|i: int| 0 <= i < s.len() && #[trigger] s[i].latency_ms == m
}

/// `m` is the smallest positive latency in `s`, or 0 when no latency in `s`
/// is positive: a zero latency counts as no measurement.
pub open spec fn is_min_positive_latency(s: Seq<PingResult>, m: u64) -> bool {
    if m == 0 {
        forall|i: int| 0 <= i < s.len() ==> #[trigger] s[i].latency_ms == 0
    } else {
        &&& forall|i: int| 0 <= i < s.len() && #[trigger] s[i].latency_ms > 0 ==> m <= s[i].latency_ms
        &&& exists|i: int| 0 <= i < s.len() && #[trigger] s[i].latency_ms == m
    }
}

/// `r` is the summary of the non-empty sequence of results `s`: counts of
/// all, succeeded and dropped probes, the largest latency, the smallest
/// positive latency, and the mean latency over all probes rounded down.
pub open spec fn summarizes(s: Seq<PingResult>, r: PingRunResult) -> bool {
    &&& r.total == s.len()
    &&& r.failed == dropped_count(s)
    &&& r.succeeded + r.failed == r.total
    &&& is_max_latency(s, r.max_latency)
    &&& is_min_positive_latency(s, r.min_latency)
    &&& r.average_latency == latency_total(s) / s.len()
}

/// Summarises the results of a run in one left-to-right pass.
pub fn average(responses: &Vec<PingResult>) -> (r: PingRunResult)
    requires
        responses@.len() > 0,
    ensures
        summarizes(responses@, r),
{
    let ghost s = responses@;
    let mut result = PingRunResult {
        total: 0,
        succeeded: 0,
        failed: 0,
        max_latency: 0,
        min_latency: 0,
        average_latency: 0,
    };
    let mut sum: u128 = 0;
    let n = responses.len();
    let mut i: usize = 0;
    while i < n
        invariant
            n == s.len(),
            s == responses@,
            i <= n,
            result.total == i,
            result.failed == dropped_count(s.take(i as int)),
            result.succeeded + result.failed == i,
            i == 0 ==> result.max_latency == 0,
            i > 0 ==> is_max_latency(s.take(i as int), result.max_latency),
            is_min_positive_latency(s.take(i as int), result.min_latency),
            sum == latency_total(s.take(i as int)),
            sum <= i * 0xffff_ffff_ffff_ffffnat,
        decreases n - i,
    {
        let response = responses[i];
        let ghost prev = s.take(i as int);
        let ghost next = s.take(i + 1);
        assert(next.drop_last() =~= prev);
        assert(next.last() == response);
        let ghost old_result = result;
        result.total += 1;
        if response.dropped {
            result.failed += 1;
        } else {
            result.succeeded += 1;
        }
        if response.latency_ms > result.max_latency {
            result.max_latency = response.latency_ms;
        }
        if response.latency_ms < result.min_latency || result.min_latency == 0 {
            if response.latency_ms > 0 {
                result.min_latency = response.latency_ms;
            }
        }
        sum = sum + response.latency_ms as u128;
        assert(is_max_latency(next, result.max_latency)) by {
            assert(next[i as int] == response);
            assert forall|j: int| 0 <= j < next.len() implies #[trigger] next[j].latency_ms
                <= result.max_latency by {
                if j < i {
                    assert(next[j] == prev[j]);
                }
            }
            if result.max_latency != response.latency_ms {
                assert(i > 0 && result.max_latency == old_result.max_latency);
                let w = choose|w: int| 0 <= w < prev.len() && #[trigger] prev[w].latency_ms
                    == result.max_latency;
                assert(next[w] == prev[w]);
            }
        }
        assert(is_min_positive_latency(next, result.min_latency)) by {
            assert(next[i as int] == response);
            assert forall|j: int| 0 <= j < i implies #[trigger] next[j] == prev[j] by {}
            if result.min_latency != 0 && result.min_latency != response.latency_ms {
                assert(result.min_latency == old_result.min_latency);
                let w = choose|w: int| 0 <= w < prev.len() && #[trigger] prev[w].latency_ms
                    == result.min_latency;
                assert(next[w] == prev[w]);
            }
        }
        i = i + 1;
    }
    assert(s.take(n as int) =~= s);
    let total = result.total as u128;
    assert(sum / total <= 0xffff_ffff_ffff_ffff) by (nonlinear_arith)
        requires
            sum <= total * 0xffff_ffff_ffff_ffff,
            total > 0,
    ;
    result.average_latency = (sum / total) as u64;
    result
}

} // verus!
