//! Result aggregation for multi-collector coordination.
//!
//! Results from several collectors are gathered per correlation id until the expected
//! number (or the configured minimum) has arrived, or until the aggregation times out.
//! A finished aggregation drops duplicate results (same collector, same events) and
//! orders the rest by time, keeping arrival order among equal times. Times are Unix
//! milliseconds handed in by the caller.

use crate::event::CollectionEvent;
use crate::event_eq::{event_lists_equal, events_eq};
use crate::strmap::StrMap;
use crate::support::new_uuid_string;
use crate::text::str_eq;
use crate::trigger_queue::sat_inc;
use vstd::prelude::*;

verus! {

/// Individual collector result.
#[derive(Debug)]
pub struct CollectorResult {
    /// Collector identifier
    pub collector_id: String,
    /// Result events
    pub events: Vec<CollectionEvent>,
    /// Result time (Unix milliseconds)
    pub timestamp: u64,
    /// Processing duration (milliseconds)
    pub processing_duration_ms: u64,
    /// Result metadata
    pub metadata: StrMap<String>,
}

/// Aggregation status.
#[derive(Debug, Clone, Copy, PartialEq, Eq, Structural)]
pub enum AggregationStatus {
    /// Aggregation in progress
    Pending,
    /// Aggregation completed successfully
    Complete,
    /// Aggregation partially complete (some collectors failed)
    Partial,
    /// Aggregation timed out
    TimedOut,
    /// Aggregation failed
    Failed,
}

/// Aggregated result from multiple collectors.
#[derive(Debug)]
pub struct AggregatedResult {
    /// Aggregation identifier
    pub aggregation_id: String,
    /// Correlation ID linking related results
    pub correlation_id: String,
    /// Individual results from collectors
    pub results: Vec<CollectorResult>,
    /// Aggregation time (Unix milliseconds)
    pub aggregated_at: u64,
    /// Aggregation status
    pub status: AggregationStatus,
    /// Result metadata
    pub metadata: StrMap<String>,
}

/// Aggregation configuration.
#[derive(Debug, Clone, Copy, PartialEq, Eq)]
pub struct AggregationConfig {
    /// Maximum number of completed aggregations kept
    pub max_buffer_size: usize,
    /// Aggregation timeout (milliseconds)
    pub timeout_ms: u64,
    /// Minimum results required for completion
    pub min_results: usize,
    /// Enable result deduplication
    pub enable_deduplication: bool,
    /// Enable result ordering
    pub enable_ordering: bool,
}

impl Default for AggregationConfig {
    fn default() -> (c: AggregationConfig)
        ensures
            c.max_buffer_size == 1000,
            c.timeout_ms == 30_000,
            c.min_results == 1,
            c.enable_deduplication,
            c.enable_ordering,
    {
        AggregationConfig {
            max_buffer_size: 1000,
            timeout_ms: 30_000,
            min_results: 1,
            enable_deduplication: true,
            enable_ordering: true,
        }
    }
}

/// Aggregation statistics.
#[derive(Debug, Clone, Copy, PartialEq, Eq)]
pub struct AggregationStats {
    /// Total aggregations started
    pub aggregations_started: u64,
    /// Total aggregations completed
    pub aggregations_completed: u64,
    /// Total aggregations timed out
    pub aggregations_timed_out: u64,
    /// Total aggregations failed
    pub aggregations_failed: u64,
    /// Average aggregation time (milliseconds)
    pub avg_aggregation_time_ms: u64,
    /// Total results aggregated
    pub total_results_aggregated: u64,
}

/// Pending aggregation state.
#[derive(Debug)]
pub struct PendingAggregation {
    /// Correlation ID
    pub correlation_id: String,
    /// Collected results
    pub results: Vec<CollectorResult>,
    /// Expected collector count
    pub expected_count: Option<usize>,
    /// Aggregation start time (Unix milliseconds)
    pub started_at: u64,
    /// Timeout deadline (Unix milliseconds)
    pub timeout_at: u64,
}

/// Why a result could not be added.
#[derive(Debug, Clone, PartialEq, Eq)]
pub enum AggregationError {
    /// No aggregation is pending for the correlation id
    NotFound,
}

impl AggregationError {
    /// A human-readable description.
    pub fn to_string(&self) -> (s: String)
        ensures
            s@ == "Aggregation not found"@,
    {
        String::from_str("Aggregation not found")
    }
}

/// Whether two results are duplicates: the same collector and the same events.
pub open spec fn duplicates(a: CollectorResult, b: CollectorResult) -> bool {
    a.collector_id@ == b.collector_id@ && events_eq(a.events@, b.events@)
}

/// Whether `b` is a copy of `a`.
pub open spec fn same_result(a: CollectorResult, b: CollectorResult) -> bool {
    &&& a.collector_id == b.collector_id
    &&& a.events@.len() == b.events@.len()
    &&& forall|i: int| 0 <= i < a.events@.len() ==> crate::event::same_event(#[trigger] a.events@[i], b.events@[i])
    &&& a.timestamp == b.timestamp
    &&& a.processing_duration_ms == b.processing_duration_ms
    &&& a.metadata@ == b.metadata@
}

impl CollectorResult {
    /// A copy of this result.
    pub fn duplicate(&self) -> (r: CollectorResult)
        ensures
            same_result(*self, r),
    {
        let mut events: Vec<CollectionEvent> = Vec::new();
        let mut i: usize = 0;
        while i < self.events.len()
            invariant
                i <= self.events@.len(),
                events@.len() == i,
                forall|j: int| 0 <= j < i ==> crate::event::same_event(#[trigger] self.events@[j], events@[j]),
            decreases self.events@.len() - i,
        {
            events.push(self.events[i].duplicate());
            i = i + 1;
        }
        CollectorResult {
            collector_id: self.collector_id.clone(),
            events,
            timestamp: self.timestamp,
            processing_duration_ms: self.processing_duration_ms,
            metadata: self.metadata.duplicate(),
        }
    }
}

/// The positions of the first `n` results of `rs` that remain after dropping the results
/// that duplicate an earlier one (all of them when deduplication is off).
pub open spec fn kept_upto(rs: Seq<CollectorResult>, n: nat, dedup: bool) -> Seq<int>
    decreases n,
{
    if n == 0 {
        Seq::empty()
    } else {
        let r = kept_upto(rs, (n - 1) as nat, dedup);
        if dedup && exists|j: int| 0 <= j < n - 1 && #[trigger] duplicates(rs[j], rs[n - 1]) {
            r
        } else {
            r.push(n - 1)
        }
    }
}

/// Whether position `a` comes before position `b` when ordering by time, arrival order
/// breaking ties.
pub open spec fn before(rs: Seq<CollectorResult>, a: int, b: int) -> bool {
    rs[a].timestamp < rs[b].timestamp || (rs[a].timestamp == rs[b].timestamp && a < b)
}

/// Whether `ord` lists exactly the positions of `kept`, each once, ordered by time
/// (arrival order among equal times) when `order` holds and in `kept`'s order otherwise.
pub open spec fn arranged(rs: Seq<CollectorResult>, kept: Seq<int>, ord: Seq<int>, order: bool) -> bool {
    &&& ord.len() == kept.len()
    &&& forall|a: int| 0 <= a < ord.len() ==> #[trigger] kept.contains(ord[a])
    &&& forall|x: int| #[trigger] kept.contains(x) ==> ord.contains(x)
    &&& forall|a: int, b: int| 0 <= a < b < ord.len() ==> #[trigger] ord[a] != #[trigger] ord[b]
    &&& order ==> forall|a: int, b: int| 0 <= a < b < ord.len() ==> before(rs, #[trigger] ord[a], #[trigger] ord[b])
    &&& !order ==> ord == kept
}

/// Whether `out` holds copies of the results of `rs` at the positions `ord`, in order.
pub open spec fn copies_at(rs: Seq<CollectorResult>, ord: Seq<int>, out: Seq<CollectorResult>) -> bool {
    &&& out.len() == ord.len()
    &&& forall|a: int| 0 <= a < out.len() ==> 0 <= #[trigger] ord[a] < rs.len() && same_result(rs[ord[a]], out[a])
}

/// Whether `out` is `rs` finished as configured: duplicates dropped (when enabled) and
/// ordered by time (when enabled).
pub open spec fn finished_results(rs: Seq<CollectorResult>, out: Seq<CollectorResult>, cfg: AggregationConfig) -> bool {
    exists|ord: Seq<int>| #[trigger] arranged(rs, kept_upto(rs, rs.len(), cfg.enable_deduplication), ord, cfg.enable_ordering)
        && copies_at(rs, ord, out)
}

fn duplicate_of(a: &CollectorResult, b: &CollectorResult) -> (r: bool)
    ensures
        r == duplicates(*a, *b),
{
    str_eq(a.collector_id.as_str(), b.collector_id.as_str()) && event_lists_equal(&a.events, &b.events)
}

/// Positions kept by `kept_upto` are increasing and within range.
proof fn lemma_kept(rs: Seq<CollectorResult>, n: nat, dedup: bool)
    ensures
        forall|a: int| 0 <= a < kept_upto(rs, n, dedup).len() ==> 0 <= #[trigger] kept_upto(rs, n, dedup)[a] < n,
        forall|a: int, b: int| 0 <= a < b < kept_upto(rs, n, dedup).len() ==> #[trigger] kept_upto(rs, n, dedup)[a] < #[trigger] kept_upto(rs, n, dedup)[b],
    decreases n,
{
    if n > 0 {
        lemma_kept(rs, (n - 1) as nat, dedup);
        let r = kept_upto(rs, (n - 1) as nat, dedup);
        let t = kept_upto(rs, n, dedup);
        assert forall|a: int| 0 <= a < t.len() implies 0 <= #[trigger] t[a] < n by {
            if a < r.len() {
                assert(t[a] == r[a]);
            }
        }
        assert forall|a: int, b: int| 0 <= a < b < t.len() implies #[trigger] t[a] < #[trigger] t[b] by {
            if b < r.len() {
                assert(t[a] == r[a]);
                assert(t[b] == r[b]);
            } else {
                assert(t[a] == r[a]);
            }
        }
    }
}

fn kept_positions(rs: &Vec<CollectorResult>, dedup: bool) -> (v: Vec<usize>)
    ensures
        v@.len() == kept_upto(rs@, rs@.len(), dedup).len(),
        forall|a: int| 0 <= a < v@.len() ==> #[trigger] v@[a] as int == kept_upto(rs@, rs@.len(), dedup)[a],
{
    let mut v: Vec<usize> = Vec::new();
    let mut i: usize = 0;
    while i < rs.len()
        invariant
            i <= rs@.len(),
            v@.len() == kept_upto(rs@, i as nat, dedup).len(),
            forall|a: int| 0 <= a < v@.len() ==> #[trigger] v@[a] as int == kept_upto(rs@, i as nat, dedup)[a],
        decreases rs@.len() - i,
    {
        let mut dup = false;
        if dedup {
            let mut j: usize = 0;
            while j < i && !dup
                invariant
                    i < rs@.len(),
                    j <= i,
                    dup ==> exists|q: int| 0 <= q < i && #[trigger] duplicates(rs@[q], rs@[i as int]),
                    !dup ==> forall|q: int| 0 <= q < j ==> !#[trigger] duplicates(rs@[q], rs@[i as int]),
                decreases i - j + (if dup { 0int } else { 1int }),
            {
                if duplicate_of(&rs[j], &rs[i]) {
                    dup = true;
                } else {
                    j = j + 1;
                }
            }
        }
        if !dup {
            v.push(i);
        }
        proof {
            let r = kept_upto(rs@, i as nat, dedup);
            let t = kept_upto(rs@, (i + 1) as nat, dedup);
            assert(((i + 1) as nat - 1) as nat == i as nat);
            if dup {
                assert(t == r);
            } else {
                assert(t == r.push(i as int));
            }
        }
        i = i + 1;
    }
    v
}

/// Orders the positions `kept` (increasing) by time, arrival order among equal times.
fn order_by_time(rs: &Vec<CollectorResult>, kept: &Vec<usize>) -> (ord: Vec<usize>)
    requires
        forall|a: int| 0 <= a < kept@.len() ==> #[trigger] kept@[a] < rs@.len(),
        forall|a: int, b: int| 0 <= a < b < kept@.len() ==> #[trigger] kept@[a] < #[trigger] kept@[b],
    ensures
        ord@.len() == kept@.len(),
        forall|a: int| 0 <= a < ord@.len() ==> #[trigger] kept@.contains(ord@[a]),
        forall|x: usize| #[trigger] kept@.contains(x) ==> ord@.contains(x),
        forall|a: int, b: int| 0 <= a < b < ord@.len() ==> #[trigger] ord@[a] != #[trigger] ord@[b],
        forall|a: int, b: int| 0 <= a < b < ord@.len() ==> before(rs@, #[trigger] ord@[a] as int, #[trigger] ord@[b] as int),
{
    let mut ord: Vec<usize> = Vec::new();
    let mut k: usize = 0;
    while k < kept.len()
        invariant
            forall|a: int| 0 <= a < kept@.len() ==> #[trigger] kept@[a] < rs@.len(),
            forall|a: int, b: int| 0 <= a < b < kept@.len() ==> #[trigger] kept@[a] < #[trigger] kept@[b],
            k <= kept@.len(),
            ord@.len() == k,
            forall|a: int| 0 <= a < ord@.len() ==> #[trigger] ord@[a] < rs@.len(),
            forall|a: int| 0 <= a < ord@.len() ==> #[trigger] kept@.take(k as int).contains(ord@[a]),
            forall|x: usize| #[trigger] kept@.take(k as int).contains(x) ==> ord@.contains(x),
            forall|a: int, b: int| 0 <= a < b < ord@.len() ==> #[trigger] ord@[a] != #[trigger] ord@[b],
            forall|a: int, b: int| 0 <= a < b < ord@.len() ==> before(rs@, #[trigger] ord@[a] as int, #[trigger] ord@[b] as int),
        decreases kept@.len() - k,
    {
        let x = kept[k];
        let t = rs[x].timestamp;
        let mut p: usize = 0;
        while p < ord.len() && rs[ord[p]].timestamp <= t
            invariant
                p <= ord@.len(),
                forall|a: int| 0 <= a < ord@.len() ==> #[trigger] ord@[a] < rs@.len(),
                forall|a: int| 0 <= a < ord@.len() ==> #[trigger] kept@.take(k as int).contains(ord@[a]),
                forall|a: int| 0 <= a < kept@.len() ==> #[trigger] kept@[a] < rs@.len(),
                k < kept@.len(),
                x == kept@[k as int],
                t == rs@[x as int].timestamp,
                forall|a: int| 0 <= a < p ==> rs@[#[trigger] ord@[a] as int].timestamp <= t,
            decreases ord@.len() - p,
        {
            proof {
                assert(kept@.take(k as int).contains(ord@[p as int]));
                let q = choose|q: int| 0 <= q < k && #[trigger] kept@.take(k as int)[q] == ord@[p as int];
                assert(kept@[q] < rs@.len());
            }
            p = p + 1;
        }
        let ghost old_ord = ord@;
        proof {
            assert forall|a: int| 0 <= a < old_ord.len() implies #[trigger] old_ord[a] < x by {
                assert(kept@.take(k as int).contains(old_ord[a]));
                let q = choose|q: int| 0 <= q < k && #[trigger] kept@.take(k as int)[q] == old_ord[a];
                assert(kept@[q] < kept@[k as int]);
            }
        }
        ord.insert(p, x);
        proof {
            assert(ord@ == old_ord.insert(p as int, x));
            assert forall|a: int| 0 <= a < ord@.len() implies #[trigger] ord@[a] < rs@.len() by {
                if a < p {
                    assert(ord@[a] == old_ord[a]);
                } else if a > p {
                    assert(ord@[a] == old_ord[a - 1]);
                }
            }
            assert(kept@.take(k as int + 1) =~= kept@.take(k as int).push(x));
            assert forall|a: int| 0 <= a < ord@.len() implies #[trigger] kept@.take(k as int + 1).contains(ord@[a]) by {
                if a < p {
                    assert(ord@[a] == old_ord[a]);
                    assert(kept@.take(k as int).contains(old_ord[a]));
                    let q = choose|q: int| 0 <= q < k && #[trigger] kept@.take(k as int)[q] == old_ord[a];
                    assert(kept@.take(k as int + 1)[q] == old_ord[a]);
                } else if a == p {
                    assert(kept@.take(k as int + 1)[k as int] == x);
                } else {
                    assert(ord@[a] == old_ord[a - 1]);
                    assert(kept@.take(k as int).contains(old_ord[a - 1]));
                    let q = choose|q: int| 0 <= q < k && #[trigger] kept@.take(k as int)[q] == old_ord[a - 1];
                    assert(kept@.take(k as int + 1)[q] == old_ord[a - 1]);
                }
            }
            assert forall|y: usize| #[trigger] kept@.take(k as int + 1).contains(y) implies ord@.contains(y) by {
                let q = choose|q: int| 0 <= q < k + 1 && #[trigger] kept@.take(k as int + 1)[q] == y;
                if q < k {
                    assert(kept@.take(k as int)[q] == y);
                    assert(kept@.take(k as int).contains(y));
                    let a = choose|a: int| 0 <= a < old_ord.len() && #[trigger] old_ord[a] == y;
                    if a < p {
                        assert(ord@[a] == y);
                    } else {
                        assert(ord@[a + 1] == y);
                    }
                } else {
                    assert(ord@[p as int] == y);
                }
            }
            assert forall|a: int, b: int| 0 <= a < b < ord@.len() implies #[trigger] ord@[a] != #[trigger] ord@[b] by {
                if a == p {
                    assert(ord@[b] == old_ord[b - 1]);
                } else if b == p {
                    assert(ord@[a] == old_ord[a]);
                } else {
                    let a0 = if a < p { a } else { a - 1 };
                    let b0 = if b < p { b } else { b - 1 };
                    assert(ord@[a] == old_ord[a0]);
                    assert(ord@[b] == old_ord[b0]);
                }
            }
            assert forall|a: int, b: int| 0 <= a < b < ord@.len() implies before(rs@, #[trigger] ord@[a] as int, #[trigger] ord@[b] as int) by {
                if a == p {
                    assert(ord@[b] == old_ord[b - 1]);
                    if b - 1 < old_ord.len() {
                        if b - 1 == p as int {
                        } else {
                            assert(before(rs@, old_ord[p as int] as int, old_ord[b - 1] as int));
                        }
                        assert(rs@[old_ord[p as int] as int].timestamp > t);
                    }
                } else if b == p {
                    assert(ord@[a] == old_ord[a]);
                    assert(rs@[old_ord[a] as int].timestamp <= t);
                    assert(old_ord[a] < x);
                } else {
                    let a0 = if a < p { a } else { a - 1 };
                    let b0 = if b < p { b } else { b - 1 };
                    assert(ord@[a] == old_ord[a0]);
                    assert(ord@[b] == old_ord[b0]);
                }
            }
        }
        k = k + 1;
    }
    proof {
        assert(kept@.take(kept@.len() as int) =~= kept@);
    }
    ord
}

fn copy_positions(v: &Vec<usize>) -> (r: Vec<usize>)
    ensures
        r@ == v@,
{
    let mut r: Vec<usize> = Vec::new();
    let mut i: usize = 0;
    while i < v.len()
        invariant
            i <= v@.len(),
            r@ == v@.take(i as int),
        decreases v@.len() - i,
    {
        r.push(v[i]);
        i = i + 1;
        assert(r@ =~= v@.take(i as int));
    }
    assert(r@ =~= v@);
    r
}

/// Finishes a set of results as configured: duplicates dropped (when enabled), then
/// ordered by time with arrival order among equal times (when enabled).
pub fn finish_results(rs: &Vec<CollectorResult>, cfg: AggregationConfig) -> (out: Vec<CollectorResult>)
    ensures
        finished_results(rs@, out@, cfg),
{
    let kept = kept_positions(rs, cfg.enable_deduplication);
    let ghost ks = kept_upto(rs@, rs@.len(), cfg.enable_deduplication);
    proof {
        lemma_kept(rs@, rs@.len(), cfg.enable_deduplication);
        assert forall|a: int| 0 <= a < kept@.len() implies #[trigger] kept@[a] < rs@.len() by {
            assert(kept@[a] as int == ks[a]);
        }
        assert forall|a: int, b: int| 0 <= a < b < kept@.len() implies #[trigger] kept@[a] < #[trigger] kept@[b] by {
            assert(kept@[a] as int == ks[a]);
            assert(kept@[b] as int == ks[b]);
        }
    }
    let ord = if cfg.enable_ordering {
        order_by_time(rs, &kept)
    } else {
        copy_positions(&kept)
    };
    let ghost ordi = Seq::new(ord@.len(), |a: int| ord@[a] as int);
    proof {
        assert forall|a: int| 0 <= a < ordi.len() implies #[trigger] ks.contains(ordi[a]) by {
            if cfg.enable_ordering {
                assert(kept@.contains(ord@[a]));
                let q = choose|q: int| 0 <= q < kept@.len() && #[trigger] kept@[q] == ord@[a];
                assert(kept@[q] as int == ks[q]);
            } else {
                assert(kept@[a] as int == ks[a]);
            }
        }
        assert forall|x: int| #[trigger] ks.contains(x) implies ordi.contains(x) by {
            let q = choose|q: int| 0 <= q < ks.len() && #[trigger] ks[q] == x;
            assert(kept@[q] as int == ks[q]);
            if cfg.enable_ordering {
                assert(kept@.contains(kept@[q]));
                assert(ord@.contains(kept@[q]));
                let a = choose|a: int| 0 <= a < ord@.len() && #[trigger] ord@[a] == kept@[q];
                assert(ordi[a] == x);
            } else {
                assert(ordi[q] == x);
            }
        }
        if !cfg.enable_ordering {
            assert forall|a: int| 0 <= a < ordi.len() implies #[trigger] ordi[a] == ks[a] by {
                assert(kept@[a] as int == ks[a]);
            }
            assert(ordi =~= ks);
            assert forall|a: int, b: int| 0 <= a < b < ordi.len() implies #[trigger] ordi[a] != #[trigger] ordi[b] by {
                assert(kept@[a] as int == ks[a]);
                assert(kept@[b] as int == ks[b]);
            }
        } else {
            assert forall|a: int, b: int| 0 <= a < b < ordi.len() implies #[trigger] ordi[a] != #[trigger] ordi[b] by {
                assert(ord@[a] != ord@[b]);
            }
            assert forall|a: int, b: int| 0 <= a < b < ordi.len() implies before(rs@, #[trigger] ordi[a], #[trigger] ordi[b]) by {
                assert(before(rs@, ord@[a] as int, ord@[b] as int));
            }
        }
        assert(arranged(rs@, ks, ordi, cfg.enable_ordering));
    }
    let mut out: Vec<CollectorResult> = Vec::new();
    let mut a: usize = 0;
    while a < ord.len()
        invariant
            a <= ord@.len(),
            ordi == Seq::new(ord@.len(), |a: int| ord@[a] as int),
            forall|q: int| 0 <= q < ordi.len() ==> #[trigger] ks.contains(ordi[q]),
            forall|q: int| 0 <= q < ks.len() ==> 0 <= #[trigger] ks[q] < rs@.len(),
            out@.len() == a,
            forall|q: int| 0 <= q < a ==> 0 <= #[trigger] ordi[q] < rs@.len() && same_result(rs@[ordi[q]], out@[q]),
        decreases ord@.len() - a,
    {
        proof {
            assert(ks.contains(ordi[a as int]));
            let q = choose|q: int| 0 <= q < ks.len() && #[trigger] ks[q] == ordi[a as int];
        }
        out.push(rs[ord[a]].duplicate());
        a = a + 1;
    }
    proof {
        assert(copies_at(rs@, ordi, out@));
    }
    out
}

/// Whether `agg` finished the pending aggregation `p` with status `status`, at `now`.
pub open spec fn finished_from(
    p: PendingAggregation,
    agg: AggregatedResult,
    status: AggregationStatus,
    now: u64,
    cfg: AggregationConfig,
) -> bool {
    &&& agg.correlation_id == p.correlation_id
    &&& finished_results(p.results@, agg.results@, cfg)
    &&& agg.aggregated_at == now
    &&& agg.status == status
    &&& agg.metadata@ == Map::<Seq<char>, String>::empty()
    &&& agg.aggregation_id@.len() == 36
}

/// Whether the aggregation `p` has all the results it waits for: the expected number, or
/// the configured minimum when none is expected.
pub open spec fn is_complete(p: PendingAggregation, cfg: AggregationConfig) -> bool {
    match p.expected_count {
        Some(e) => p.results@.len() >= e,
        None => p.results@.len() >= cfg.min_results,
    }
}

/// Result aggregator for multi-collector coordination.
#[derive(Debug)]
pub struct ResultAggregator {
    config: AggregationConfig,
    pending: StrMap<PendingAggregation>,
    completed: Vec<AggregatedResult>,
    stats: AggregationStats,
}

/// `base` with its oldest entries dropped so that at most `max` remain.
pub open spec fn trimmed<T>(s: Seq<T>, max: usize) -> Seq<T> {
    if s.len() > max {
        s.skip(s.len() - max)
    } else {
        s
    }
}

/// Whether `after` is the buffer of completed aggregations `before` once `agg` was stored
/// with room for `max`: the newest `max` of `before` followed by `agg`, the oldest dropped;
/// `agg` is kept last (as a copy) whenever there is room for anything.
pub open spec fn kept_completed(
    before: Seq<AggregatedResult>,
    agg: AggregatedResult,
    max: usize,
    after: Seq<AggregatedResult>,
) -> bool {
    let t = trimmed(before.push(agg), max);
    &&& after.len() == t.len()
    &&& forall|i: int| 0 <= i < t.len() - 1 ==> #[trigger] after[i] == t[i]
    &&& max > 0 ==> after.len() > 0 && same_aggregation(agg, after.last())
}

impl ResultAggregator {
    /// The configuration.
    pub closed spec fn config(&self) -> AggregationConfig {
        self.config
    }

    /// The pending aggregations, by correlation id.
    pub closed spec fn pending(&self) -> StrMap<PendingAggregation> {
        self.pending
    }

    /// The completed aggregations kept, oldest first.
    pub closed spec fn completed(&self) -> Seq<AggregatedResult> {
        self.completed@
    }

    /// The statistics.
    pub closed spec fn stats(&self) -> AggregationStats {
        self.stats
    }

    /// An aggregator with nothing pending or completed.
    pub fn new(config: AggregationConfig) -> (a: Self)
        ensures
            a.config() == config,
            a.pending()@ == Map::<Seq<char>, PendingAggregation>::empty(),
            a.completed().len() == 0,
            a.stats() == (AggregationStats {
                aggregations_started: 0,
                aggregations_completed: 0,
                aggregations_timed_out: 0,
                aggregations_failed: 0,
                avg_aggregation_time_ms: 0,
                total_results_aggregated: 0,
            }),
    {
        ResultAggregator {
            config,
            pending: StrMap::new(),
            completed: Vec::new(),
            stats: AggregationStats {
                aggregations_started: 0,
                aggregations_completed: 0,
                aggregations_timed_out: 0,
                aggregations_failed: 0,
                avg_aggregation_time_ms: 0,
                total_results_aggregated: 0,
            },
        }
    }

    /// Starts (or restarts) the aggregation of `correlation_id` at `now`, waiting for
    /// `expected_count` results (or the configured minimum) until the timeout.
    pub fn start_aggregation_at(&mut self, correlation_id: String, expected_count: Option<usize>, now: u64)
        ensures
            final(self).pending()@.contains_key(correlation_id@),
            final(self).pending()@ == old(self).pending()@.insert(correlation_id@, final(self).pending()@[correlation_id@]),
            ({
                let p = final(self).pending()@[correlation_id@];
                &&& p.correlation_id == correlation_id
                &&& p.results@.len() == 0
                &&& p.expected_count == expected_count
                &&& p.started_at == now
                &&& p.timeout_at == crate::task_distributor::deadline(now, old(self).config().timeout_ms)
            }),
            final(self).stats() == (AggregationStats {
                aggregations_started: sat_inc(old(self).stats().aggregations_started),
                ..old(self).stats()
            }),
            final(self).completed() == old(self).completed(),
            final(self).config() == old(self).config(),
    {
        let p = PendingAggregation {
            correlation_id: correlation_id.clone(),
            results: Vec::new(),
            expected_count,
            started_at: now,
            timeout_at: now.saturating_add(self.config.timeout_ms),
        };
        self.pending.insert(correlation_id, p);
        self.stats.aggregations_started = self.stats.aggregations_started.saturating_add(1);
    }

    /// Finishes a pending aggregation at `now`: its results finished as configured, with
    /// a fresh random id.
    fn finalize(&self, p: &PendingAggregation, status: AggregationStatus, now: u64) -> (agg: AggregatedResult)
        ensures
            finished_from(*p, agg, status, now, self.config()),
    {
        AggregatedResult {
            aggregation_id: new_uuid_string(),
            correlation_id: p.correlation_id.clone(),
            results: finish_results(&p.results, self.config),
            aggregated_at: now,
            status,
            metadata: StrMap::new(),
        }
    }

    /// Adds a result to the aggregation of `correlation_id` at `now`. When the aggregation
    /// then has all the results it waits for, it is finished: removed from the pending
    /// ones, kept among the completed ones (the oldest dropped beyond the buffer size),
    /// counted, and returned.
    pub fn add_result_at(&mut self, correlation_id: &str, result: CollectorResult, now: u64) -> (r: Result<
        Option<AggregatedResult>,
        AggregationError,
    >)
        ensures
            !old(self).pending()@.contains_key(correlation_id@) ==> r == Err::<Option<AggregatedResult>, AggregationError>(AggregationError::NotFound)
                && *final(self) == *old(self),
            old(self).pending()@.contains_key(correlation_id@) ==> {
                let p0 = old(self).pending()@[correlation_id@];
                &&& r is Ok
                &&& final(self).config() == old(self).config()
                &&& r matches Ok(None) ==> {
                    &&& final(self).pending()@ == old(self).pending()@.insert(correlation_id@, final(self).pending()@[correlation_id@])
                    &&& final(self).pending()@[correlation_id@].results@ == p0.results@.push(result)
                    &&& !is_complete(final(self).pending()@[correlation_id@], old(self).config())
                    &&& final(self).completed() == old(self).completed()
                    &&& final(self).stats() == old(self).stats()
                }
                &&& r matches Ok(Some(agg)) ==> {
                    &&& final(self).pending()@ == old(self).pending()@.remove(correlation_id@)
                    &&& exists|p: PendingAggregation| #[trigger] finished_from(p, agg, AggregationStatus::Complete, now, old(self).config())
                        && p.results@ == p0.results@.push(result) && p.correlation_id == p0.correlation_id
                        && is_complete(p, old(self).config())
                    &&& kept_completed(old(self).completed(), agg, old(self).config().max_buffer_size, final(self).completed())
                    &&& final(self).stats().aggregations_completed == sat_inc(old(self).stats().aggregations_completed)
                    &&& final(self).stats().total_results_aggregated == crate::high_performance_event_bus::sat_add(
                        old(self).stats().total_results_aggregated,
                        agg.results@.len() as u64,
                    )
                    &&& final(self).stats().aggregations_started == old(self).stats().aggregations_started
                    &&& final(self).stats().aggregations_timed_out == old(self).stats().aggregations_timed_out
                }
            },
    {
        let i = match self.pending.find(correlation_id) {
            None => {
                return Err(AggregationError::NotFound);
            },
            Some(i) => i,
        };
        let placeholder = PendingAggregation {
            correlation_id: String::new(),
            results: Vec::new(),
            expected_count: None,
            started_at: 0,
            timeout_at: 0,
        };
        let mut p = self.pending.replace_value(i, placeholder);
        p.results.push(result);
        let complete = match p.expected_count {
            Some(e) => p.results.len() >= e,
            None => p.results.len() >= self.config.min_results,
        };
        if !complete {
            self.pending.replace_value(i, p);
            return Ok(None);
        }
        self.pending.remove(correlation_id);
        let agg = self.finalize(&p, AggregationStatus::Complete, now);
        let elapsed = now.saturating_sub(p.started_at);
        self.store_completed(&agg);
        let done = self.stats.aggregations_completed.saturating_add(1);
        self.stats.aggregations_completed = done;
        self.stats.total_results_aggregated = self.stats.total_results_aggregated.saturating_add(
            agg.results.len() as u64,
        );
        self.stats.avg_aggregation_time_ms = crate::sql_trigger::running_average(
            self.stats.avg_aggregation_time_ms,
            done,
            elapsed,
        );
        proof {
            assert(finished_from(p, agg, AggregationStatus::Complete, now, old(self).config()));
        }
        Ok(Some(agg))
    }

    /// Keeps a copy of a completed aggregation, dropping the oldest beyond the buffer size.
    fn store_completed(&mut self, agg: &AggregatedResult)
        ensures
            kept_completed(old(self).completed(), *agg, old(self).config().max_buffer_size, final(self).completed()),
            final(self).pending() == old(self).pending(),
            final(self).stats() == old(self).stats(),
            final(self).config() == old(self).config(),
    {
        let copy = agg.duplicate();
        self.completed.push(copy);
        let ghost before = self.completed@;
        proof {
            assert(before.drop_last() =~= old(self).completed@);
        }
        if self.completed.len() > self.config.max_buffer_size {
            let excess = self.completed.len() - self.config.max_buffer_size;
            let mut all: Vec<AggregatedResult> = Vec::new();
            std::mem::swap(&mut all, &mut self.completed);
            let tail = all.split_off(excess);
            self.completed = tail;
            assert(self.completed@ =~= before.skip(excess as int));
        }
        proof {
            let t = trimmed(old(self).completed@.push(*agg), self.config.max_buffer_size);
            assert(t.len() == self.completed@.len());
            assert forall|i: int| 0 <= i < t.len() - 1 implies #[trigger] self.completed@[i] == t[i] by {
                let off = old(self).completed@.len() + 1 - t.len();
                assert(self.completed@[i] == before[i + off]);
                assert(t[i] == old(self).completed@.push(*agg)[i + off]);
            }
        }
    }

    /// Copies of the newest `limit` completed aggregations, newest first.
    pub fn get_completed(&self, limit: usize) -> (r: Vec<AggregatedResult>)
        ensures
            r@.len() == if limit < self.completed().len() { limit as int } else { self.completed().len() as int },
            forall|i: int| 0 <= i < r@.len() ==> same_aggregation(self.completed()[self.completed().len() - 1 - i], #[trigger] r@[i]),
    {
        let mut r: Vec<AggregatedResult> = Vec::new();
        let len = self.completed.len();
        let mut i: usize = 0;
        while i < limit && i < len
            invariant
                len == self.completed@.len(),
                i <= len,
                i <= limit,
                r@.len() == i,
                forall|j: int| 0 <= j < i ==> same_aggregation(self.completed@[len - 1 - j], #[trigger] r@[j]),
            decreases len - i,
        {
            r.push(self.completed[len - 1 - i].duplicate());
            i = i + 1;
        }
        r
    }

    /// A copy of the oldest completed aggregation kept for `correlation_id`.
    pub fn get_aggregation(&self, correlation_id: &str) -> (r: Option<AggregatedResult>)
        ensures
            r is None <==> forall|i: int| 0 <= i < self.completed().len() ==> (#[trigger] self.completed()[i]).correlation_id@ != correlation_id@,
            r matches Some(a) ==> exists|i: int| 0 <= i < self.completed().len()
                && (#[trigger] self.completed()[i]).correlation_id@ == correlation_id@
                && same_aggregation(self.completed()[i], a)
                && forall|j: int| 0 <= j < i ==> (#[trigger] self.completed()[j]).correlation_id@ != correlation_id@,
    {
        let mut i: usize = 0;
        while i < self.completed.len()
            invariant
                i <= self.completed@.len(),
                forall|j: int| 0 <= j < i ==> (#[trigger] self.completed@[j]).correlation_id@ != correlation_id@,
            decreases self.completed@.len() - i,
        {
            if str_eq(self.completed[i].correlation_id.as_str(), correlation_id) {
                return Some(self.completed[i].duplicate());
            }
            i = i + 1;
        }
        None
    }

    /// The statistics; the started count is at least the number of pending aggregations.
    pub fn get_stats(&self) -> (s: AggregationStats)
        ensures
            s == (AggregationStats {
                aggregations_started: if self.stats().aggregations_started >= self.pending().keys().len() {
                    self.stats().aggregations_started
                } else {
                    self.pending().keys().len() as u64
                },
                ..self.stats()
            }),
    {
        let mut s = self.stats;
        let n = self.pending.len() as u64;
        if n > s.aggregations_started {
            s.aggregations_started = n;
        }
        s
    }

    /// Removes every completed aggregation, returning how many there were.
    pub fn clear_completed(&mut self) -> (n: usize)
        ensures
            n == old(self).completed().len(),
            final(self).completed().len() == 0,
            final(self).pending() == old(self).pending(),
            final(self).stats() == old(self).stats(),
            final(self).config() == old(self).config(),
    {
        let n = self.completed.len();
        self.completed = Vec::new();
        n
    }
}

/// Whether `b` is a copy of `a`.
pub open spec fn same_aggregation(a: AggregatedResult, b: AggregatedResult) -> bool {
    &&& a.aggregation_id == b.aggregation_id
    &&& a.correlation_id == b.correlation_id
    &&& a.results@.len() == b.results@.len()
    &&& forall|i: int| 0 <= i < a.results@.len() ==> same_result(#[trigger] a.results@[i], b.results@[i])
    &&& a.aggregated_at == b.aggregated_at
    &&& a.status == b.status
    &&& a.metadata@ == b.metadata@
}

impl AggregatedResult {
    /// A copy of this aggregation.
    pub fn duplicate(&self) -> (r: AggregatedResult)
        ensures
            same_aggregation(*self, r),
    {
        let mut results: Vec<CollectorResult> = Vec::new();
        let mut i: usize = 0;
        while i < self.results.len()
            invariant
                i <= self.results@.len(),
                results@.len() == i,
                forall|j: int| 0 <= j < i ==> same_result(#[trigger] self.results@[j], results@[j]),
            decreases self.results@.len() - i,
        {
            results.push(self.results[i].duplicate());
            i = i + 1;
        }
        AggregatedResult {
            aggregation_id: self.aggregation_id.clone(),
            correlation_id: self.correlation_id.clone(),
            results,
            aggregated_at: self.aggregated_at,
            status: self.status,
            metadata: self.metadata.duplicate(),
        }
    }
}

/// The positions, in key order, of the first `n` pending aggregations of `t` that have
/// timed out at `now`.
pub open spec fn expired_upto(t: StrMap<PendingAggregation>, n: nat, now: u64) -> Seq<int>
    decreases n,
{
    if n == 0 {
        Seq::empty()
    } else {
        let r = expired_upto(t, (n - 1) as nat, now);
        if now >= t.value_at_spec(n - 1).timeout_at {
            r.push(n - 1)
        } else {
            r
        }
    }
}

proof fn lemma_expired(t: StrMap<PendingAggregation>, n: nat, now: u64)
    ensures
        forall|a: int| 0 <= a < expired_upto(t, n, now).len() ==> 0 <= #[trigger] expired_upto(t, n, now)[a] < n,
        forall|a: int, b: int| 0 <= a < b < expired_upto(t, n, now).len() ==> #[trigger] expired_upto(t, n, now)[a] < #[trigger] expired_upto(t, n, now)[b],
        forall|j: int| 0 <= j < n ==> (#[trigger] expired_upto(t, n, now).contains(j) <==> now >= t.value_at_spec(j).timeout_at),
    decreases n,
{
    if n > 0 {
        lemma_expired(t, (n - 1) as nat, now);
        let r = expired_upto(t, (n - 1) as nat, now);
        let e = expired_upto(t, n, now);
        assert forall|a: int| 0 <= a < e.len() implies 0 <= #[trigger] e[a] < n by {
            if a < r.len() {
                assert(e[a] == r[a]);
            }
        }
        assert forall|a: int, b: int| 0 <= a < b < e.len() implies #[trigger] e[a] < #[trigger] e[b] by {
            assert(e[a] == r[a]);
            if b < r.len() {
                assert(e[b] == r[b]);
            }
        }
        assert forall|j: int| 0 <= j < n implies (#[trigger] e.contains(j) <==> now >= t.value_at_spec(j).timeout_at) by {
            if j < n - 1 {
                if e.contains(j) {
                    let q = choose|q: int| 0 <= q < e.len() && e[q] == j;
                    if q < r.len() {
                        assert(r[q] == j);
                        assert(r.contains(j));
                    }
                }
                if r.contains(j) {
                    let q = choose|q: int| 0 <= q < r.len() && r[q] == j;
                    assert(e[q] == j);
                }
            } else {
                if now >= t.value_at_spec(j).timeout_at {
                    assert(e[e.len() - 1] == j);
                } else if e.contains(j) {
                    let q = choose|q: int| 0 <= q < e.len() && e[q] == j;
                    assert(r[q] < n - 1);
                }
            }
        }
    }
}

impl ResultAggregator {
    /// Finishes, with status `TimedOut`, every pending aggregation whose deadline has come
    /// at `now`, in key order; they are no longer pending and count as timed out.
    pub fn check_timeouts_at(&mut self, now: u64) -> (r: Vec<AggregatedResult>)
        ensures
            ({
                let t = old(self).pending();
                let ex = expired_upto(t, t.keys().len(), now);
                &&& r@.len() == ex.len()
                &&& forall|a: int| 0 <= a < r@.len() ==> 0 <= #[trigger] ex[a] < t.keys().len() && finished_from(
                    t.value_at_spec(ex[a]),
                    r@[a],
                    AggregationStatus::TimedOut,
                    now,
                    old(self).config(),
                )
                &&& forall|k: Seq<char>|
                    #[trigger] final(self).pending()@.contains_key(k) <==> (t@.contains_key(k) && now < t@[k].timeout_at)
            }),
            final(self).stats() == (AggregationStats {
                aggregations_timed_out: crate::high_performance_event_bus::sat_add(old(self).stats().aggregations_timed_out, r@.len() as u64),
                ..old(self).stats()
            }),
            final(self).completed() == old(self).completed(),
            final(self).config() == old(self).config(),
    {
        let ghost t0 = self.pending;
        let mut out: Vec<AggregatedResult> = Vec::new();
        let mut ids: Vec<String> = Vec::new();
        let mut i: usize = 0;
        while i < self.pending.len()
            invariant
                self.pending == t0,
                i <= t0.keys().len(),
                out@.len() == expired_upto(t0, i as nat, now).len(),
                ids@.len() == out@.len(),
                forall|a: int| 0 <= a < out@.len() ==> 0 <= #[trigger] expired_upto(t0, i as nat, now)[a] < i && finished_from(
                    t0.value_at_spec(expired_upto(t0, i as nat, now)[a]),
                    out@[a],
                    AggregationStatus::TimedOut,
                    now,
                    self.config,
                ) && ids@[a]@ == t0.keys()[expired_upto(t0, i as nat, now)[a]],
            decreases t0.keys().len() - i,
        {
            let p = self.pending.value_at(i);
            if now >= p.timeout_at {
                let agg = self.finalize(p, AggregationStatus::TimedOut, now);
                out.push(agg);
                ids.push(self.pending.key_at(i).clone());
            }
            i = i + 1;
        }
        proof {
            use_type_invariant(&self.pending);
            t0.lemma_keys();
            lemma_expired(t0, t0.keys().len(), now);
        }
        let ghost ex = expired_upto(t0, t0.keys().len(), now);
        let mut j: usize = 0;
        while j < ids.len()
            invariant
                j <= ids@.len(),
                ids@.len() == ex.len(),
                t0.wf(),
                forall|a: int| 0 <= a < ex.len() ==> 0 <= #[trigger] ex[a] < t0.keys().len() && ids@[a]@ == t0.keys()[ex[a]],
                forall|a: int, b: int| 0 <= a < b < ex.len() ==> #[trigger] ex[a] < #[trigger] ex[b],
                forall|k: Seq<char>|
                    #[trigger] self.pending@.contains_key(k) <==> (t0@.contains_key(k)
                        && !(exists|a: int| 0 <= a < j && #[trigger] ids@[a]@ == k)),
                self.stats == old(self).stats,
                self.completed == old(self).completed,
                self.config == old(self).config,
            decreases ids@.len() - j,
        {
            self.pending.remove(ids[j].as_str());
            j = j + 1;
        }
        proof {
            assert forall|k: Seq<char>| #[trigger] self.pending@.contains_key(k) <==> (t0@.contains_key(k) && now < t0@[k].timeout_at) by {
                if t0@.contains_key(k) {
                    assert(t0.keys().contains(k));
                    let m = choose|m: int| 0 <= m < t0.keys().len() && t0.keys()[m] == k;
                    assert(t0@.contains_key(t0.keys()[m]));
                    assert(t0@[t0.keys()[m]] == t0.value_at_spec(m));
                    if exists|a: int| 0 <= a < ids@.len() && #[trigger] ids@[a]@ == k {
                        let a = choose|a: int| 0 <= a < ids@.len() && #[trigger] ids@[a]@ == k;
                        assert(t0.keys()[ex[a]] == k);
                        assert(ex[a] == m);
                        assert(ex.contains(m));
                    } else {
                        if now >= t0.value_at_spec(m).timeout_at {
                            assert(ex.contains(m));
                            let a = choose|a: int| 0 <= a < ex.len() && ex[a] == m;
                            assert(ids@[a]@ == k);
                        }
                    }
                }
            }
        }
        let n = out.len();
        self.stats.aggregations_timed_out = self.stats.aggregations_timed_out.saturating_add(n as u64);
        out
    }
}

/// A finished aggregation with ordering enabled lists its results by time.
pub proof fn law_finished_in_time_order(rs: Seq<CollectorResult>, out: Seq<CollectorResult>, cfg: AggregationConfig)
    requires
        finished_results(rs, out, cfg),
        cfg.enable_ordering,
    ensures
        forall|a: int, b: int| 0 <= a < b < out.len() ==> (#[trigger] out[a]).timestamp <= (#[trigger] out[b]).timestamp,
{
    let ord = choose|ord: Seq<int>| #[trigger] arranged(rs, kept_upto(rs, rs.len(), cfg.enable_deduplication), ord, cfg.enable_ordering)
        && copies_at(rs, ord, out);
    assert forall|a: int, b: int| 0 <= a < b < out.len() implies (#[trigger] out[a]).timestamp <= (#[trigger] out[b]).timestamp by {
        assert(before(rs, ord[a], ord[b]));
    }
}

/// With deduplication enabled, no kept result duplicates an earlier result.
pub proof fn law_kept_results_unique(rs: Seq<CollectorResult>, n: nat)
    requires
        n <= rs.len(),
    ensures
        forall|a: int, j: int|
            0 <= a < kept_upto(rs, n, true).len() && 0 <= j < kept_upto(rs, n, true)[a] ==> !duplicates(
                #[trigger] rs[j],
                #[trigger] rs[kept_upto(rs, n, true)[a]],
            ),
    decreases n,
{
    if n > 0 {
        law_kept_results_unique(rs, (n - 1) as nat);
        let r = kept_upto(rs, (n - 1) as nat, true);
        let k = kept_upto(rs, n, true);
        assert forall|a: int, j: int| 0 <= a < k.len() && 0 <= j < k[a] implies !duplicates(#[trigger] rs[j], #[trigger] rs[k[a]]) by {
            if a < r.len() {
                assert(k[a] == r[a]);
            } else {
                assert(k[a] == n - 1);
            }
        }
    }
}

/// A finished aggregation can be looked up by its correlation id right away, whenever the
/// buffer has room for anything: storing it leaves an entry for that id.
pub proof fn law_completed_aggregation_found(
    before: Seq<AggregatedResult>,
    agg: AggregatedResult,
    max: usize,
    after: Seq<AggregatedResult>,
)
    requires
        kept_completed(before, agg, max, after),
        max > 0,
    ensures
        exists|i: int| 0 <= i < after.len() && (#[trigger] after[i]).correlation_id@ == agg.correlation_id@,
{
    assert(after[after.len() - 1].correlation_id@ == agg.correlation_id@);
}

/// Two results are duplicates only when they come from the same collector and carry the
/// same events: as many, in the same order, and a process event only matches a process
/// event with the same pid. Results whose events differ are both kept.
pub proof fn law_duplicates_carry_same_events(a: CollectorResult, b: CollectorResult)
    ensures
        duplicates(a, b) ==> a.collector_id@ == b.collector_id@,
        duplicates(a, b) ==> a.events@.len() == b.events@.len(),
        duplicates(a, b) ==> forall|i: int|
            0 <= i < a.events@.len() && (#[trigger] a.events@[i]) is Process ==> (b.events@[i] is Process
                && b.events@[i]->Process_0.pid == a.events@[i]->Process_0.pid),
{
    if duplicates(a, b) {
        assert forall|i: int|
            0 <= i < a.events@.len() && (#[trigger] a.events@[i]) is Process implies (b.events@[i] is Process
                && b.events@[i]->Process_0.pid == a.events@[i]->Process_0.pid) by {
            assert(crate::event_eq::event_eq(a.events@[i], b.events@[i]));
        }
    }
}

} // verus!
