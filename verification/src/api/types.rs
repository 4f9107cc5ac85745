//! OpenAI-compatible API types and the streaming metrics state.

use vstd::prelude::*;
use vstd::relations::{sorted_by, total_ordering};

verus! {

/// A chat message.
#[derive(Debug, Clone)]
pub struct Message {
    pub role: String,
    pub content: String,
}

/// The response to a non-streaming chat completion request.
#[derive(Debug)]
pub struct ChatCompletionResponse {
    pub id: String,
    pub object: String,
    pub created: u64,
    pub model: String,
    pub choices: Vec<Choice>,
    pub usage: Usage,
}

/// One completion choice.
#[derive(Debug)]
pub struct Choice {
    pub index: usize,
    pub message: Message,
    pub finish_reason: String,
}

/// Token accounting of a completion.
#[derive(Debug)]
pub struct Usage {
    pub prompt_tokens: usize,
    pub completion_tokens: usize,
    pub total_tokens: usize,
}

/// One event of a streamed chat completion.
#[derive(Debug)]
pub struct StreamChunk {
    pub id: String,
    pub object: String,
    pub created: u64,
    pub model: String,
    pub choices: Vec<StreamChoice>,
}

/// One choice of a streamed chunk.
#[derive(Debug)]
pub struct StreamChoice {
    pub index: usize,
    pub delta: Delta,
    pub finish_reason: Option<String>,
}

/// The increment a streamed chunk carries.
#[derive(Debug)]
pub struct Delta {
    pub role: Option<String>,
    pub content: Option<String>,
}

/// The list of served models.
#[derive(Debug)]
pub struct ModelsResponse {
    pub object: String,
    pub data: Vec<ModelInfo>,
}

/// One served model.
#[derive(Debug)]
pub struct ModelInfo {
    pub id: String,
    pub object: String,
    pub created: u64,
    pub owned_by: String,
}

/// The ordering by which latencies are ranked.
pub open spec fn latency_leq() -> spec_fn(u64, u64) -> bool {
    |a: u64, b: u64| a <= b
}

/// The latencies in ascending order.
pub open spec fn ascending(s: Seq<u64>) -> Seq<u64> {
    s.sort_by(latency_leq())
}

/// The rank that the `percent`-th percentile of `len` samples takes in
/// ascending order: `floor(len * percent / 100)`, at most the last rank.
pub open spec fn percentile_rank(len: nat, percent: nat) -> int {
    let r: nat = (len * percent) / 100;
    if r < len {
        r as int
    } else {
        len - 1
    }
}

/// The `percent`-th percentile of the samples, 0 when there are none.
pub open spec fn percentile(s: Seq<u64>, percent: nat) -> u64 {
    if s.len() == 0 {
        0
    } else {
        ascending(s)[percentile_rank(s.len(), percent)]
    }
}

/// The sum of the samples.
pub open spec fn latency_total(s: Seq<u64>) -> nat
    decreases s.len(),
{
    if s.len() == 0 {
        0
    } else {
        latency_total(s.drop_last()) + s.last() as nat
    }
}

proof fn lemma_latency_leq_total()
    ensures
        total_ordering(latency_leq()),
{
}

/// Metrics gathered while a completion streams.
#[derive(Debug)]
pub struct StreamMetricsState {
    /// Time of the first token, in milliseconds from the request's start.
    pub ttft_ms: u64,
    /// Number of tokens recorded.
    pub completion_tokens: usize,
    /// The gaps between consecutive tokens after the first.
    pub inter_token_latencies: Vec<u64>,
    /// Time of the latest token.
    pub last_token_time_ms: u64,
}

impl Default for StreamMetricsState {
    fn default() -> (s: Self)
        ensures
            s.ttft_ms == 0,
            s.completion_tokens == 0,
            s.inter_token_latencies@ == Seq::<u64>::empty(),
            s.last_token_time_ms == 0,
    {
        StreamMetricsState {
            ttft_ms: 0,
            completion_tokens: 0,
            inter_token_latencies: Vec::new(),
            last_token_time_ms: 0,
        }
    }
}

/// Inserts `x` into the ascending vector `v`, after the elements not greater
/// than it.
fn insert_ascending(v: &mut Vec<u64>, x: u64)
    requires
        sorted_by(old(v)@, latency_leq()),
    ensures
        sorted_by(final(v)@, latency_leq()),
        final(v)@.to_multiset() == old(v)@.to_multiset().insert(x),
{
    let mut p: usize = 0;
    while p < v.len() && v[p] <= x
        invariant
            p <= v.len(),
            v@ == old(v)@,
            forall|j: int| 0 <= j < p ==> v@[j] <= x,
        decreases v.len() - p,
    {
        p = p + 1;
    }
    let ghost before = v@;
    v.insert(p, x);
    proof {
        vstd::seq_lib::to_multiset_insert(before, p as int, x);
        assert forall|i: int, j: int| 0 <= i < j < v@.len() implies #[trigger] (latency_leq())(
            v@[i],
            v@[j],
        ) by {
            if j < p {
                assert(latency_leq()(before[i], before[j]));
            } else if j == p {
                assert(v@[i] == before[i]);
            } else if i < p {
                assert(v@[j] == before[j - 1]);
                if i < j - 1 {
                    assert(latency_leq()(before[i], before[j - 1]));
                }
            } else if i == p {
                assert(v@[j] == before[j - 1]);
                if p < j - 1 {
                    assert(latency_leq()(before[p as int], before[j - 1]));
                }
            } else {
                assert(latency_leq()(before[i - 1], before[j - 1]));
            }
        }
    }
}

/// The samples in ascending order.
pub fn sorted_latencies(s: &[u64]) -> (r: Vec<u64>)
    ensures
        r@ == ascending(s@),
{
    let mut r: Vec<u64> = Vec::new();
    let mut i: usize = 0;
    proof {
        broadcast use vstd::seq_lib::group_to_multiset_ensures;
        assert(s@.subrange(0, 0) =~= Seq::<u64>::empty());
        assert(r@ =~= Seq::<u64>::empty());
    }
    while i < s.len()
        invariant
            i <= s@.len(),
            sorted_by(r@, latency_leq()),
            r@.to_multiset() == s@.subrange(0, i as int).to_multiset(),
        decreases s@.len() - i,
    {
        proof {
            broadcast use vstd::seq_lib::group_to_multiset_ensures;
            assert(s@.subrange(0, i + 1) =~= s@.subrange(0, i as int).push(s@[i as int]));
        }
        insert_ascending(&mut r, s[i]);
        i = i + 1;
    }
    proof {
        assert(s@.subrange(0, s@.len() as int) =~= s@);
        s@.lemma_sort_by_ensures(latency_leq());
        lemma_latency_leq_total();
        vstd::seq_lib::lemma_sorted_unique(r@, ascending(s@), latency_leq());
    }
    r
}

/// The values that streaming metrics hold.
pub struct MetricsModel {
    pub ttft_ms: u64,
    pub completion_tokens: nat,
    pub inter_token_latencies: Seq<u64>,
    pub last_token_time_ms: u64,
}

/// Metrics before any token.
pub open spec fn no_tokens() -> MetricsModel {
    MetricsModel {
        ttft_ms: 0,
        completion_tokens: 0,
        inter_token_latencies: Seq::empty(),
        last_token_time_ms: 0,
    }
}

/// The metrics after a token at `t` (the first one when `first`).
pub open spec fn after_token(m: MetricsModel, t: u64, first: bool) -> MetricsModel {
    MetricsModel {
        ttft_ms: if first {
            t
        } else {
            m.ttft_ms
        },
        completion_tokens: m.completion_tokens + 1,
        inter_token_latencies: if !first && m.last_token_time_ms > 0 {
            m.inter_token_latencies.push((t - m.last_token_time_ms) as u64)
        } else {
            m.inter_token_latencies
        },
        last_token_time_ms: t,
    }
}

/// The metrics after tokens at the given times, the first of them flagged
/// as the first token.
pub open spec fn after_tokens(times: Seq<u64>) -> MetricsModel
    decreases times.len(),
{
    if times.len() == 0 {
        no_tokens()
    } else {
        after_token(after_tokens(times.drop_last()), times.last(), times.len() == 1)
    }
}

/// The gaps between consecutive times.
pub open spec fn gaps(times: Seq<u64>) -> Seq<u64> {
    Seq::new(
        (if times.len() > 0 {
            times.len() - 1
        } else {
            0
        }) as nat,
        |i: int| (times[i + 1] - times[i]) as u64,
    )
}

/// Whether the times never decrease.
pub open spec fn nondecreasing(times: Seq<u64>) -> bool {
    forall|i: int, j: int| 0 <= i <= j < times.len() ==> times[i] <= times[j]
}

/// Streaming a completion whose first token comes at a nonzero time and whose
/// tokens come at times that never decrease records the first token's time,
/// every token, and the gaps between adjacent tokens as the inter-token
/// latencies; those add up to the time from the first token to the last.
pub proof fn lemma_stream_metrics(times: Seq<u64>)
    requires
        times.len() >= 1,
        times[0] > 0,
        nondecreasing(times),
    ensures
        after_tokens(times).ttft_ms == times[0],
        after_tokens(times).completion_tokens == times.len(),
        after_tokens(times).inter_token_latencies == gaps(times),
        after_tokens(times).last_token_time_ms == times.last(),
        latency_total(gaps(times)) == times.last() - times[0],
    decreases times.len(),
{
    if times.len() == 1 {
        assert(times.drop_last().len() == 0);
        assert(after_tokens(times.drop_last()) == no_tokens());
        assert(gaps(times) =~= Seq::<u64>::empty());
        assert(after_tokens(times).inter_token_latencies =~= Seq::<u64>::empty());
    } else {
        let prefix = times.drop_last();
        assert(prefix[0] == times[0]);
        assert(nondecreasing(prefix));
        lemma_stream_metrics(prefix);
        assert(prefix.last() >= times[0]);
        assert(times.last() >= prefix.last());
        assert(gaps(times) =~= gaps(prefix).push((times.last() - prefix.last()) as u64));
        assert(gaps(times).drop_last() =~= gaps(prefix));
    }
}

impl StreamMetricsState {
    /// The values these metrics hold.
    pub open spec fn model(&self) -> MetricsModel {
        MetricsModel {
            ttft_ms: self.ttft_ms,
            completion_tokens: self.completion_tokens as nat,
            inter_token_latencies: self.inter_token_latencies@,
            last_token_time_ms: self.last_token_time_ms,
        }
    }

    /// Records a token produced `token_time_ms` after the request started.
    ///
    /// The first token sets the time to first token; a later one, when an
    /// earlier token has a nonzero time, adds its gap to the inter-token
    /// latencies.
    pub fn record_token(&mut self, token_time_ms: u64, is_first: bool)
        requires
            old(self).completion_tokens < usize::MAX,
            !is_first && old(self).last_token_time_ms > 0 ==> token_time_ms
                >= old(self).last_token_time_ms,
        ensures
            final(self).ttft_ms == if is_first {
                token_time_ms
            } else {
                old(self).ttft_ms
            },
            final(self).inter_token_latencies@ == if !is_first && old(self).last_token_time_ms > 0 {
                old(self).inter_token_latencies@.push(
                    (token_time_ms - old(self).last_token_time_ms) as u64,
                )
            } else {
                old(self).inter_token_latencies@
            },
            final(self).last_token_time_ms == token_time_ms,
            final(self).completion_tokens == old(self).completion_tokens + 1,
            final(self).model() == after_token(old(self).model(), token_time_ms, is_first),
    {
        if is_first {
            self.ttft_ms = token_time_ms;
        } else if self.last_token_time_ms > 0 {
            self.inter_token_latencies.push(token_time_ms - self.last_token_time_ms);
        }
        self.last_token_time_ms = token_time_ms;
        self.completion_tokens = self.completion_tokens + 1;
    }

    /// The metrics of a completion whose tokens came at the given times, the
    /// first of them being the first token: each time is recorded in turn
    /// from no tokens.  When the first time is nonzero, the result holds that
    /// time as the time to first token, every token, and the gaps between
    /// adjacent tokens, which add up to the time from the first token to the
    /// last.
    pub fn from_token_times(times: &[u64]) -> (s: Self)
        requires
            nondecreasing(times@),
        ensures
            s.model() == after_tokens(times@),
            times@.len() >= 1 && times@[0] > 0 ==> {
                &&& s.ttft_ms == times@[0]
                &&& s.completion_tokens == times@.len()
                &&& s.inter_token_latencies@ == gaps(times@)
                &&& s.last_token_time_ms == times@.last()
                &&& latency_total(s.inter_token_latencies@) == times@.last() - times@[0]
            },
    {
        let mut s = StreamMetricsState::default();
        let mut i: usize = 0;
        while i < times.len()
            invariant
                i <= times@.len(),
                nondecreasing(times@),
                s.model() == after_tokens(times@.subrange(0, i as int)),
                s.completion_tokens == i,
                i > 0 ==> s.last_token_time_ms == times@[i - 1],
            decreases times@.len() - i,
        {
            proof {
                assert(times@.subrange(0, i + 1).drop_last() =~= times@.subrange(0, i as int));
                if i > 0 {
                    assert(times@[i - 1] <= times@[i as int]);
                }
            }
            s.record_token(times[i], i == 0);
            i = i + 1;
        }
        proof {
            assert(times@.subrange(0, times@.len() as int) =~= times@);
            if times@.len() >= 1 && times@[0] > 0 {
                lemma_stream_metrics(times@);
            }
        }
        s
    }

    /// The sum of the inter-token latencies, `None` when it exceeds `u64`.
    pub fn latency_sum(&self) -> (r: Option<u64>)
        ensures
            r matches Some(t) ==> t == latency_total(self.inter_token_latencies@),
            r is None <==> latency_total(self.inter_token_latencies@) > u64::MAX,
    {
        let s = &self.inter_token_latencies;
        let mut total: u64 = 0;
        let mut i: usize = 0;
        while i < s.len()
            invariant
                s@ == self.inter_token_latencies@,
                i <= s@.len(),
                total == latency_total(s@.subrange(0, i as int)),
            decreases s@.len() - i,
        {
            proof {
                assert(s@.subrange(0, i + 1).drop_last() =~= s@.subrange(0, i as int));
            }
            proof {
                assert(latency_total(s@.subrange(0, i + 1)) == total + s@[i as int]);
            }
            if total > u64::MAX - s[i] {
                proof {
                    lemma_total_monotone(s@, (i + 1) as nat);
                }
                return None;
            }
            total = total + s[i];
            i = i + 1;
        }
        proof {
            assert(s@.subrange(0, s@.len() as int) =~= s@);
        }
        Some(total)
    }

    /// The `percent`-th percentile of `latencies`: the sample at rank
    /// `floor(len * percent / 100)` (at most the last) in ascending order,
    /// or 0 when there are no samples.
    pub fn compute_percentile(latencies: &[u64], percent: u64) -> (r: u64)
        ensures
            r == percentile(latencies@, percent as nat),
    {
        if latencies.len() == 0 {
            return 0;
        }
        let sorted = sorted_latencies(latencies);
        proof {
            lemma_ascending_len(latencies@);
        }
        let len: usize = sorted.len();
        assert((len as u128) * (percent as u128) <= u128::MAX) by (nonlinear_arith)
            requires
                len <= u64::MAX,
                percent <= u64::MAX,
        ;
        let scaled: u128 = (len as u128) * (percent as u128) / 100;
        let idx: usize = if scaled < len as u128 {
            scaled as usize
        } else {
            len - 1
        };
        sorted[idx]
    }

    /// The 90th percentile of the inter-token latencies.
    pub fn compute_p90(&self) -> (r: u64)
        ensures
            r == percentile(self.inter_token_latencies@, 90),
    {
        Self::compute_percentile(self.inter_token_latencies.as_slice(), 90)
    }

    /// The 99th percentile of the inter-token latencies.
    pub fn compute_p99(&self) -> (r: u64)
        ensures
            r == percentile(self.inter_token_latencies@, 99),
    {
        Self::compute_percentile(self.inter_token_latencies.as_slice(), 99)
    }
}

/// A higher percentile is never below a lower one; in particular the p90
/// latency is at most the p99 latency.
pub proof fn lemma_percentile_monotone(s: Seq<u64>, lower: nat, higher: nat)
    requires
        lower <= higher,
    ensures
        percentile(s, lower) <= percentile(s, higher),
{
    if s.len() > 0 {
        lemma_ascending_len(s);
        s.lemma_sort_by_ensures(latency_leq());
        let n: nat = s.len();
        assert(n * lower <= n * higher) by (nonlinear_arith)
            requires
                lower <= higher,
        ;
        assert((n * lower) / 100 <= (n * higher) / 100) by (nonlinear_arith)
            requires
                n * lower <= n * higher,
        ;
        let a: int = percentile_rank(n, lower);
        let b: int = percentile_rank(n, higher);
        if a < b {
            assert(latency_leq()(ascending(s)[a], ascending(s)[b]));
        }
    }
}

/// Every percentile of a nonempty sample set is one of the samples.
pub proof fn lemma_percentile_is_sample(s: Seq<u64>, percent: nat)
    requires
        s.len() > 0,
    ensures
        s.contains(percentile(s, percent)),
{
    broadcast use vstd::seq_lib::group_to_multiset_ensures;
    lemma_ascending_len(s);
    s.lemma_sort_by_ensures(latency_leq());
    let t = ascending(s);
    let r: int = percentile_rank(s.len(), percent);
    assert(t.contains(t[r]));
    assert(t.to_multiset().count(t[r]) > 0);
}

/// For a percentage of at most 100, the p-th percentile bounds at least p
/// percent of the samples: every sample ranked at or below its rank in
/// ascending order is at most the percentile, and there are at least
/// `p * len / 100` such ranks.
pub proof fn lemma_percentile_bounds_share(s: Seq<u64>, percent: nat)
    requires
        s.len() > 0,
        percent <= 100,
    ensures
        (percentile_rank(s.len(), percent) + 1) * 100 >= percent * s.len(),
        forall|i: int|
            0 <= i <= percentile_rank(s.len(), percent) ==> #[trigger] ascending(s)[i]
                <= percentile(s, percent),
{
    lemma_ascending_len(s);
    s.lemma_sort_by_ensures(latency_leq());
    let n: nat = s.len();
    let r: int = percentile_rank(n, percent);
    assert(n * percent <= n * 100) by (nonlinear_arith)
        requires
            percent <= 100,
    ;
    assert((n * percent) / 100 <= n);
    assert(((n * percent) / 100 + 1) * 100 > n * percent) by (nonlinear_arith);
    assert forall|i: int| 0 <= i <= r implies #[trigger] ascending(s)[i] <= percentile(s, percent) by {
        if i < r {
            assert(latency_leq()(ascending(s)[i], ascending(s)[r]));
        }
    }
}

proof fn lemma_ascending_len(s: Seq<u64>)
    ensures
        ascending(s).len() == s.len(),
{
    broadcast use vstd::seq_lib::group_to_multiset_ensures;
    s.lemma_sort_by_ensures(latency_leq());
    assert(ascending(s).to_multiset().len() == s.to_multiset().len());
}

proof fn lemma_total_monotone(s: Seq<u64>, k: nat)
    requires
        k <= s.len(),
    ensures
        latency_total(s.subrange(0, k as int)) <= latency_total(s),
    decreases s.len(),
{
    if k < s.len() {
        assert(s.drop_last().subrange(0, k as int) =~= s.subrange(0, k as int));
        lemma_total_monotone(s.drop_last(), k);
    } else {
        assert(s.subrange(0, k as int) =~= s);
    }
}

} // verus!
