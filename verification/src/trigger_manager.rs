//! Trigger coordination between process monitoring and analysis collectors.
//!
//! The manager evaluates registered conditions against process data and turns the
//! matches into trigger requests, after deduplication (the same collector, analysis
//! and target within the deduplication window) and per-collector rate limiting (at most
//! a number of requests per window). Times are Unix seconds handed in by the caller.

use crate::event::{
    analysis_in, analysis_listed, priority_in, TriggerPriority, TriggerRequest,
};
use crate::sql_trigger::{
    matching_indices, sql_evaluation_outcome, sql_request_conditions, sql_requests_for,
    CompiledTriggerCondition, SqlTriggerEvaluator,
};
use crate::event_bus::CorrelationMetadata;
use crate::strmap::StrMap;
use crate::text::str_eq;
use crate::support::unix_now_secs;
use crate::trigger::{
    analysis_debug, analysis_text, clone_opt_string, condition_kind_name, condition_kind_text,
    condition_matches, dedup_view, evaluate_condition, kind_in, kind_listed, make_trigger,
    priority_name, priority_text, same_capabilities, trigger_context, trigger_from, DedupView,
    DeduplicationKey, ProcessTriggerData, SqlEvaluationStats, TriggerCapabilities, TriggerConfig,
    TriggerCondition, TriggerEmissionStats, TriggerMetadata, TriggerStatistics,
};
use crate::trigger_queue::{
    backpressure_threshold, enqueue_outcome, sat_inc, EnqueueOutcome, PriorityTriggerQueue,
    QueueStatistics, TriggerError,
};
use vstd::utf8::encode_utf8;
use vstd::prelude::*;

verus! {

/// Rate limiting state for a specific collector.
#[derive(Debug, Clone, Copy, PartialEq, Eq, Structural)]
pub struct RateLimitState {
    /// Number of triggers sent in current window
    pub trigger_count: usize,
    /// Window start time (Unix seconds)
    pub window_start: u64,
}

/// Whether an entry recorded at `ts` is still inside a window of `window` seconds at `now`
/// (a time stamp in the future counts as outside).
pub open spec fn within_window(now: u64, ts: u64, window: u64) -> bool {
    now >= ts && now - ts < window
}

/// The deduplication cache as a sequence of (key, time recorded).
pub open spec fn dedup_entries(s: Seq<(DeduplicationKey, u64)>) -> Seq<(DedupView, u64)> {
    s.map_values(|e: (DeduplicationKey, u64)| (dedup_view(e.0), e.1))
}

/// The entries of `s` still inside the window at `now`, in order.
pub open spec fn retain_recent(s: Seq<(DedupView, u64)>, now: u64, window: u64) -> Seq<
    (DedupView, u64),
>
    decreases s.len(),
{
    if s.len() == 0 {
        s
    } else {
        let r = retain_recent(s.drop_last(), now, window);
        if within_window(now, s.last().1, window) {
            r.push(s.last())
        } else {
            r
        }
    }
}

/// Whether some entry of `s` has key `k`.
pub open spec fn has_key(s: Seq<(DedupView, u64)>, k: DedupView) -> bool {
    exists|i: int| 0 <= i < s.len() && (#[trigger] s[i]).0 == k
}

/// One deduplication check: expired entries are dropped; the request is a duplicate when
/// its key is still cached, and otherwise its key is recorded at `now`.
pub open spec fn dedup_step(s: Seq<(DedupView, u64)>, k: DedupView, now: u64, window: u64) -> (
    Seq<(DedupView, u64)>,
    bool,
) {
    let kept = retain_recent(s, now, window);
    if has_key(kept, k) {
        (kept, true)
    } else {
        (kept.push((k, now)), false)
    }
}

/// One rate-limit check for `collector`: a missing state starts at `now`; a window that
/// has run out (or starts in the future) restarts at `now` with no triggers; the request
/// is limited when the window already holds `max` triggers, and is counted otherwise.
pub open spec fn rate_step(
    rates: Map<Seq<char>, RateLimitState>,
    collector: Seq<char>,
    now: u64,
    window: u64,
    max: usize,
) -> (Map<Seq<char>, RateLimitState>, bool) {
    let st0 = if rates.contains_key(collector) {
        rates[collector]
    } else {
        RateLimitState { trigger_count: 0, window_start: now }
    };
    let st1 = if now < st0.window_start || now - st0.window_start >= window {
        RateLimitState { trigger_count: 0, window_start: now }
    } else {
        st0
    };
    if st1.trigger_count >= max {
        (rates.insert(collector, st1), true)
    } else {
        (
            rates.insert(
                collector,
                RateLimitState {
                    trigger_count: (st1.trigger_count + 1) as usize,
                    window_start: st1.window_start,
                },
            ),
            false,
        )
    }
}

/// The deduplication key of the request made for condition `c` on process data `d`.
pub open spec fn request_key(c: TriggerCondition, d: ProcessTriggerData) -> DedupView {
    dedup_view(
        DeduplicationKey {
            collector: c.target_collector,
            analysis_type: c.analysis_type,
            target_pid: Some(d.pid),
            target_path: d.executable_path,
        },
    )
}

/// The state of one evaluation pass: the deduplication cache, the rate-limit states, and
/// the indices of the conditions whose requests were let through.
pub type EvalState = (Seq<(DedupView, u64)>, Map<Seq<char>, RateLimitState>, Seq<int>);

/// Evaluation of condition `idx` (= `c`): a match is deduplicated, then rate limited, and
/// emitted when neither applies.
pub open spec fn eval_step(
    st: EvalState,
    c: TriggerCondition,
    idx: int,
    d: ProcessTriggerData,
    now: u64,
    cfg: TriggerConfig,
) -> EvalState {
    if !condition_matches(c.condition_type, d) {
        st
    } else {
        let (dd, dup) = dedup_step(st.0, request_key(c, d), now, cfg.deduplication_window_secs);
        if dup {
            (dd, st.1, st.2)
        } else {
            let (rr, limited) = rate_step(
                st.1,
                c.target_collector@,
                now,
                cfg.rate_limit_window_secs,
                cfg.max_triggers_per_collector,
            );
            if limited {
                (dd, rr, st.2)
            } else {
                (dd, rr, st.2.push(idx))
            }
        }
    }
}

/// The state after evaluating the first `n` conditions, in order, from `st0`.
pub open spec fn eval_upto(
    conds: Seq<TriggerCondition>,
    n: nat,
    d: ProcessTriggerData,
    now: u64,
    cfg: TriggerConfig,
    st0: EvalState,
) -> EvalState
    decreases n,
{
    if n == 0 {
        st0
    } else {
        eval_step(
            eval_upto(conds, (n - 1) as nat, d, now, cfg, st0),
            conds[n - 1],
            n - 1,
            d,
            now,
            cfg,
        )
    }
}

/// Drops the cache entries that are outside the window at `now`.
fn retain_recent_entries(cache: &mut Vec<(DeduplicationKey, u64)>, now: u64, window: u64)
    ensures
        dedup_entries(final(cache)@) == retain_recent(dedup_entries(old(cache)@), now, window),
{
    let ghost all = dedup_entries(cache@);
    let mut kept: Vec<(DeduplicationKey, u64)> = Vec::new();
    let mut i: usize = 0;
    while i < cache.len()
        invariant
            i <= cache@.len(),
            all == dedup_entries(cache@),
            dedup_entries(kept@) == retain_recent(all.take(i as int), now, window),
        decreases cache@.len() - i,
    {
        let ts = cache[i].1;
        proof {
            assert(all.take(i as int + 1).drop_last() =~= all.take(i as int));
            assert(all.take(i as int + 1).last() == all[i as int]);
        }
        if now >= ts && now - ts < window {
            let k = cache[i].0.duplicate();
            let ghost before = kept@;
            kept.push((k, ts));
            proof {
                assert(dedup_entries(kept@) =~= dedup_entries(before).push(all[i as int]));
            }
        }
        i = i + 1;
    }
    proof {
        assert(all.take(cache@.len() as int) =~= all);
    }
    *cache = kept;
}

/// Applies one deduplication check to the cache.
fn dedup_check(cache: &mut Vec<(DeduplicationKey, u64)>, key: DeduplicationKey, now: u64, window: u64) -> (dup: bool)
    ensures
        dedup_entries(final(cache)@) == dedup_step(dedup_entries(old(cache)@), dedup_view(key), now, window).0,
        dup == dedup_step(dedup_entries(old(cache)@), dedup_view(key), now, window).1,
{
    retain_recent_entries(cache, now, window);
    let mut kept: Vec<(DeduplicationKey, u64)> = Vec::new();
    std::mem::swap(&mut kept, cache);
    let ghost kv = dedup_entries(kept@);
    let mut j: usize = 0;
    let mut found = false;
    while j < kept.len() && !found
        invariant
            j <= kept@.len(),
            kv == dedup_entries(kept@),
            found ==> has_key(kv, dedup_view(key)),
            !found ==> forall|m: int| 0 <= m < j ==> (#[trigger] kv[m]).0 != dedup_view(key),
        decreases kept@.len() - j + (if found { 0int } else { 1int }),
    {
        if kept[j].0.same_key(&key) {
            assert(kv[j as int].0 == dedup_view(key));
            found = true;
        } else {
            j = j + 1;
        }
    }
    if found {
        *cache = kept;
        true
    } else {
        proof {
            assert(!has_key(kv, dedup_view(key)));
        }
        let ghost before = kept@;
        kept.push((key, now));
        proof {
            assert(dedup_entries(kept@) =~= dedup_entries(before).push((dedup_view(key), now)));
        }
        *cache = kept;
        false
    }
}

/// Applies one rate-limit check for `collector`.
fn rate_check(
    rates: &mut StrMap<RateLimitState>,
    collector: &String,
    now: u64,
    window: u64,
    max: usize,
) -> (limited: bool)
    ensures
        final(rates)@ == rate_step(old(rates)@, collector@, now, window, max).0,
        limited == rate_step(old(rates)@, collector@, now, window, max).1,
{
    let st0 = match rates.get(collector.as_str()) {
        Some(s) => *s,
        None => RateLimitState { trigger_count: 0, window_start: now },
    };
    let st1 = if now < st0.window_start || now - st0.window_start >= window {
        RateLimitState { trigger_count: 0, window_start: now }
    } else {
        st0
    };
    if st1.trigger_count >= max {
        rates.insert(collector.clone(), st1);
        true
    } else {
        rates.insert(
            collector.clone(),
            RateLimitState { trigger_count: st1.trigger_count + 1, window_start: st1.window_start },
        );
        false
    }
}

/// Whether the emitted requests `out` correspond one for one to the conditions at
/// `emitted`, in order.
pub open spec fn requests_for(
    out: Seq<TriggerRequest>,
    conds: Seq<TriggerCondition>,
    emitted: Seq<int>,
    d: ProcessTriggerData,
    now: u64,
) -> bool {
    &&& out.len() == emitted.len()
    &&& forall|j: int|
        0 <= j < out.len() ==> 0 <= #[trigger] emitted[j] < conds.len() && trigger_from(
            out[j],
            conds[emitted[j]],
            d,
            now,
            false,
        )
}

/// Evaluates every condition of `conds` on `d` at time `now`: matches are deduplicated
/// against `dedup`, rate limited through `rates`, and emitted otherwise. When metadata
/// tracking is on, each match (emitted or not) is recorded in `metadata` under its
/// trigger id.
fn evaluate_conditions(
    conds: &Vec<TriggerCondition>,
    d: &ProcessTriggerData,
    now: u64,
    cfg: TriggerConfig,
    dedup: &mut Vec<(DeduplicationKey, u64)>,
    rates: &mut StrMap<RateLimitState>,
    metadata: &mut StrMap<TriggerMetadata>,
) -> (out: Vec<TriggerRequest>)
    ensures
        ({
            let st = eval_upto(
                conds@,
                conds@.len(),
                *d,
                now,
                cfg,
                (dedup_entries(old(dedup)@), old(rates)@, Seq::empty()),
            );
            &&& dedup_entries(final(dedup)@) == st.0
            &&& final(rates)@ == st.1
            &&& requests_for(out@, conds@, st.2, *d, now)
        }),
        !cfg.enable_metadata_tracking ==> final(metadata)@ == old(metadata)@,
        forall|k: Seq<char>| old(metadata)@.contains_key(k) ==> #[trigger] final(metadata)@.contains_key(k),
        cfg.enable_metadata_tracking ==> forall|j: int|
            0 <= j < out@.len() ==> #[trigger] final(metadata)@.contains_key(out@[j].trigger_id@),
{
    let ghost st0: EvalState = (dedup_entries(dedup@), rates@, Seq::empty());
    let ghost m0 = metadata@;
    let ghost mut emitted: Seq<int> = Seq::empty();
    let mut out: Vec<TriggerRequest> = Vec::new();
    let mut i: usize = 0;
    while i < conds.len()
        invariant
            i <= conds@.len(),
            st0.2.len() == 0,
            (dedup_entries(dedup@), rates@, emitted) == eval_upto(conds@, i as nat, *d, now, cfg, st0),
            forall|j: int| 0 <= j < emitted.len() ==> 0 <= #[trigger] emitted[j] < i,
            out@.len() == emitted.len(),
            forall|j: int|
                0 <= j < out@.len() ==> trigger_from(#[trigger] out@[j], conds@[emitted[j]], *d, now, false),
            !cfg.enable_metadata_tracking ==> metadata@ == m0,
            forall|k: Seq<char>| m0.contains_key(k) ==> #[trigger] metadata@.contains_key(k),
            cfg.enable_metadata_tracking ==> forall|j: int|
                0 <= j < out@.len() ==> #[trigger] metadata@.contains_key(out@[j].trigger_id@),
        decreases conds@.len() - i,
    {
        let c = &conds[i];
        if evaluate_condition(&c.condition_type, d) {
            let t = make_trigger(c, d, now, false);
            if cfg.enable_metadata_tracking {
                let md = TriggerMetadata {
                    generated_at: now,
                    source_event_type: String::from_str("process"),
                    matched_condition: c.id.clone(),
                    evaluation_context: trigger_context(c, d, false),
                    correlation_id: t.correlation_id.clone(),
                };
                metadata.insert(t.trigger_id.clone(), md);
            }
            let key = DeduplicationKey {
                collector: c.target_collector.clone(),
                analysis_type: c.analysis_type.duplicate(),
                target_pid: Some(d.pid),
                target_path: clone_opt_string(&d.executable_path),
            };
            assert(dedup_view(key) == request_key(*c, *d));
            let dup = dedup_check(dedup, key, now, cfg.deduplication_window_secs);
            if !dup {
                let limited = rate_check(
                    rates,
                    &c.target_collector,
                    now,
                    cfg.rate_limit_window_secs,
                    cfg.max_triggers_per_collector,
                );
                if !limited {
                    out.push(t);
                    proof {
                        emitted = emitted.push(i as int);
                    }
                }
            }
        }
        i = i + 1;
    }
    proof {
        assert(conds@.len() as nat == i as nat);
    }
    out
}

/// Timeout tracking for a trigger request.
#[derive(Debug)]
pub struct TriggerTimeout {
    /// Target collector name
    pub target_collector: String,
    /// Emission time (Unix seconds)
    pub emitted_at: u64,
    /// Timeout duration in seconds
    pub timeout_secs: u64,
    /// Correlation ID for forensic tracking
    pub correlation_id: String,
}

/// How long an emitted request may wait for its response, in seconds.
pub const TRIGGER_TIMEOUT_SECS: u64 = 30;

/// Whether a request tracked with `t` has timed out at `now`: more than its timeout has
/// passed since it was emitted (an emission time in the future never times out).
pub open spec fn timed_out(t: TriggerTimeout, now: u64) -> bool {
    now >= t.emitted_at && now - t.emitted_at > t.timeout_secs
}

/// Why capabilities are refused, if they are: an empty collector id, a zero trigger rate,
/// a zero memory limit or a zero analysis time, checked in this order.
pub open spec fn capabilities_error(c: TriggerCapabilities) -> Option<Seq<char>> {
    if c.collector_id@.len() == 0 {
        Some("Collector ID cannot be empty"@)
    } else if c.max_trigger_rate == 0 {
        Some("Maximum trigger rate must be greater than 0"@)
    } else if c.resource_limits.max_memory_per_task == 0 {
        Some("Maximum memory per task must be greater than 0"@)
    } else if c.resource_limits.max_analysis_time_ms == 0 {
        Some("Maximum analysis time must be greater than 0"@)
    } else {
        None
    }
}

/// Why a condition is refused against the registered capabilities, if it is: its
/// collector has none, or does not support its kind of condition, its analysis type or its
/// priority, checked in this order.
pub open spec fn condition_error(
    caps: Map<Seq<char>, TriggerCapabilities>,
    c: TriggerCondition,
) -> Option<Seq<char>> {
    let tc = c.target_collector@;
    if !caps.contains_key(tc) {
        Some("No capabilities registered for collector: "@ + tc)
    } else if !kind_listed(caps[tc].supported_conditions@, c.condition_type) {
        Some("Collector "@ + tc + " does not support condition type: "@ + condition_kind_name(c.condition_type))
    } else if !analysis_listed(caps[tc].supported_analysis@, c.analysis_type) {
        Some("Collector "@ + tc + " does not support analysis type: "@ + analysis_debug(c.analysis_type))
    } else if !caps[tc].supported_priorities@.contains(c.priority) {
        Some("Collector "@ + tc + " does not support priority level: "@ + priority_name(c.priority))
    } else {
        None
    }
}

/// The length in bytes of the UTF-8 encoding of `s`, as `str::len` reports it.
pub open spec fn byte_len(s: Seq<char>) -> nat {
    (encode_utf8(s).len() as usize) as nat
}

/// The total byte length of the first `n` keys and values of `m`.
pub open spec fn metadata_bytes_upto(m: StrMap<String>, n: nat) -> int
    decreases n,
{
    if n == 0 {
        0
    } else {
        metadata_bytes_upto(m, (n - 1) as nat) + byte_len(m.keys()[n - 1]) + byte_len(
            m.value_at_spec(n - 1)@,
        )
    }
}

/// The total byte length of the keys and values of `m`.
pub open spec fn metadata_bytes(m: StrMap<String>) -> int {
    metadata_bytes_upto(m, m.keys().len())
}

/// Largest target path, in bytes, a trigger request may carry.
pub const MAX_TARGET_PATH_BYTES: usize = 4096;

/// Largest total size of a trigger request's metadata, in bytes.
pub const MAX_METADATA_BYTES: usize = 65536;

/// Why a trigger request is refused against the registered capabilities, if it is: its
/// collector is unknown or does not support its analysis type or priority, its target
/// path is longer than 4096 bytes, or its metadata exceeds 64 KiB, checked in this order.
pub open spec fn request_error(
    caps: Map<Seq<char>, TriggerCapabilities>,
    t: TriggerRequest,
) -> Option<Seq<char>> {
    let tc = t.target_collector@;
    if !caps.contains_key(tc) {
        Some("Target collector '"@ + tc + "' not found in capabilities registry"@)
    } else if !analysis_listed(caps[tc].supported_analysis@, t.analysis_type) {
        Some("Collector '"@ + tc + "' does not support analysis type: "@ + analysis_debug(t.analysis_type))
    } else if !caps[tc].supported_priorities@.contains(t.priority) {
        Some("Collector '"@ + tc + "' does not support priority level: "@ + priority_name(t.priority))
    } else if (match t.target_path {
        Some(p) => byte_len(p@) > MAX_TARGET_PATH_BYTES,
        None => false,
    }) {
        Some("Target path exceeds maximum length (4096 characters)"@)
    } else if metadata_bytes(t.metadata) > MAX_METADATA_BYTES {
        Some("Trigger metadata exceeds maximum size (64KB)"@)
    } else {
        None
    }
}

/// Whether the total byte length of the keys and values of `m` exceeds 64 KiB.
fn metadata_too_large(m: &StrMap<String>) -> (r: bool)
    ensures
        r == (metadata_bytes(*m) > MAX_METADATA_BYTES),
{
    let mut total: u128 = 0;
    let mut i: usize = 0;
    while i < m.len()
        invariant
            i <= m.keys().len(),
            total == metadata_bytes_upto(*m, i as nat),
            total <= MAX_METADATA_BYTES,
        decreases m.keys().len() - i,
    {
        let k = m.key_at(i);
        let v = m.value_at(i);
        let kl = k.as_str().len();
        let vl = v.as_str().len();
        total = total + kl as u128 + vl as u128;
        i = i + 1;
        if total > 65536 {
            proof {
                lemma_metadata_bytes_monotone(*m, i as nat, m.keys().len());
            }
            return true;
        }
    }
    false
}

/// The byte total of a prefix never exceeds that of a longer prefix.
proof fn lemma_metadata_bytes_monotone(m: StrMap<String>, a: nat, b: nat)
    requires
        a <= b,
    ensures
        metadata_bytes_upto(m, a) <= metadata_bytes_upto(m, b),
    decreases b,
{
    if a < b {
        lemma_metadata_bytes_monotone(m, a, (b - 1) as nat);
    }
}

/// The first `n` conditions of `conds` that a collector with capabilities `caps` can
/// handle: addressed to it, of a supported kind and of a supported analysis type.
pub open spec fn eligible_upto(
    conds: Seq<TriggerCondition>,
    n: nat,
    caps: TriggerCapabilities,
) -> Seq<TriggerCondition>
    decreases n,
{
    if n == 0 {
        Seq::empty()
    } else {
        let r = eligible_upto(conds, (n - 1) as nat, caps);
        let c = conds[n - 1];
        if c.target_collector@ == caps.collector_id@ && kind_listed(
            caps.supported_conditions@,
            c.condition_type,
        ) && analysis_listed(caps.supported_analysis@, c.analysis_type) {
            r.push(c)
        } else {
            r
        }
    }
}

/// The first `n` conditions of `conds` addressed to collector `id`.
pub open spec fn addressed_upto(conds: Seq<TriggerCondition>, n: nat, id: Seq<char>) -> Seq<
    TriggerCondition,
>
    decreases n,
{
    if n == 0 {
        Seq::empty()
    } else {
        let r = addressed_upto(conds, (n - 1) as nat, id);
        if conds[n - 1].target_collector@ == id {
            r.push(conds[n - 1])
        } else {
            r
        }
    }
}

/// Whether `e` holds `conds` freshly compiled for collector `id`, and nothing else changed.
pub open spec fn registered_as(
    old: SqlTriggerEvaluator,
    e: SqlTriggerEvaluator,
    id: Seq<char>,
    conds: Seq<TriggerCondition>,
) -> bool {
    &&& e.compiled() == old.compiled().insert(id, e.compiled()[id])
    &&& e.compiled()[id]@.len() == conds.len()
    &&& forall|i: int|
        0 <= i < conds.len() ==> crate::sql_trigger::compiled_from(
            #[trigger] e.compiled()[id]@[i],
            conds[i],
        )
    &&& e.stats() == old.stats()
}

/// Copies the conditions a collector with capabilities `caps` can handle.
fn eligible_conditions(conds: &Vec<TriggerCondition>, caps: &TriggerCapabilities) -> (r: Vec<
    TriggerCondition,
>)
    ensures
        r@ == eligible_upto(conds@, conds@.len(), *caps),
{
    let mut r: Vec<TriggerCondition> = Vec::new();
    let mut i: usize = 0;
    while i < conds.len()
        invariant
            i <= conds@.len(),
            r@ == eligible_upto(conds@, i as nat, *caps),
        decreases conds@.len() - i,
    {
        let c = &conds[i];
        if str_eq(c.target_collector.as_str(), caps.collector_id.as_str()) && kind_in(
            &caps.supported_conditions,
            &c.condition_type,
        ) && analysis_in(&caps.supported_analysis, &c.analysis_type) {
            r.push(c.duplicate());
        }
        i = i + 1;
    }
    r
}

/// Copies the conditions addressed to collector `id`.
fn addressed_conditions(conds: &Vec<TriggerCondition>, id: &str) -> (r: Vec<TriggerCondition>)
    ensures
        r@ == addressed_upto(conds@, conds@.len(), id@),
{
    let mut r: Vec<TriggerCondition> = Vec::new();
    let mut i: usize = 0;
    while i < conds.len()
        invariant
            i <= conds@.len(),
            r@ == addressed_upto(conds@, i as nat, id@),
        decreases conds@.len() - i,
    {
        if str_eq(conds[i].target_collector.as_str(), id) {
            r.push(conds[i].duplicate());
        }
        i = i + 1;
    }
    r
}

/// Whether `new` is `old` after evaluating its conditions on `d` at `now`, emitting `out`.
pub open spec fn evaluation_outcome(
    old: TriggerManager,
    new: TriggerManager,
    d: ProcessTriggerData,
    now: u64,
    out: Seq<TriggerRequest>,
) -> bool {
    let st = eval_upto(
        old.conditions(),
        old.conditions().len(),
        d,
        now,
        old.config(),
        (old.dedup(), old.rates(), Seq::empty()),
    );
    &&& new.dedup() == st.0
    &&& new.rates() == st.1
    &&& requests_for(out, old.conditions(), st.2, d, now)
    &&& !old.config().enable_metadata_tracking ==> new.metadata()@ == old.metadata()@
    &&& forall|k: Seq<char>| old.metadata()@.contains_key(k) ==> #[trigger] new.metadata()@.contains_key(k)
    &&& old.config().enable_metadata_tracking ==> forall|j: int|
        0 <= j < out.len() ==> #[trigger] new.metadata()@.contains_key(out[j].trigger_id@)
    &&& new.conditions() == old.conditions()
    &&& new.config() == old.config()
    &&& new.capabilities() == old.capabilities()
    &&& new.queue() == old.queue()
    &&& new.evaluator() == old.evaluator()
    &&& new.emission() == old.emission()
    &&& new.timeouts() == old.timeouts()
}

/// The ids, in key order, of the tracked requests among the first `n` keys of `t` that
/// have timed out at `now`.
pub open spec fn expired_upto(t: StrMap<TriggerTimeout>, n: nat, now: u64) -> Seq<Seq<char>>
    decreases n,
{
    if n == 0 {
        Seq::empty()
    } else {
        let r = expired_upto(t, (n - 1) as nat, now);
        if timed_out(t.value_at_spec(n - 1), now) {
            r.push(t.keys()[n - 1])
        } else {
            r
        }
    }
}

/// Whether `new` is `old` after handling the timeouts at `now`, which timed out `ids`.
pub open spec fn timeouts_outcome(
    old: TriggerManager,
    new: TriggerManager,
    now: u64,
    ids: Seq<Seq<char>>,
) -> bool {
    &&& ids == expired_upto(old.timeouts(), old.timeouts().keys().len(), now)
    &&& forall|k: Seq<char>|
        #[trigger] new.timeouts()@.contains_key(k) <==> (old.timeouts()@.contains_key(k)
            && !timed_out(old.timeouts()@[k], now))
    &&& forall|k: Seq<char>|
        #[trigger] new.timeouts()@.contains_key(k) ==> new.timeouts()@[k] == old.timeouts()@[k]
    &&& new.emission().timeouts == sat_add_nat(old.emission().timeouts, ids.len())
    &&& new.emission().pending_responses == sub_floor(old.emission().pending_responses, ids.len())
    &&& new.emission().total_emitted == old.emission().total_emitted
    &&& new.emission().successful_emissions == old.emission().successful_emissions
    &&& new.emission().validation_failures == old.emission().validation_failures
    &&& new.emission().event_bus_failures == old.emission().event_bus_failures
    &&& new.emission().avg_emission_latency_ms == old.emission().avg_emission_latency_ms
}

/// Whether `new` differs from `old` at most in its emission statistics.
pub open spec fn only_emission_changed(old: TriggerManager, new: TriggerManager) -> bool {
    &&& new.config() == old.config()
    &&& new.conditions() == old.conditions()
    &&& new.rates() == old.rates()
    &&& new.rate_order() == old.rate_order()
    &&& new.dedup() == old.dedup()
    &&& new.metadata() == old.metadata()
    &&& new.capabilities() == old.capabilities()
    &&& new.collector_order() == old.collector_order()
    &&& new.queue() == old.queue()
    &&& new.evaluator() == old.evaluator()
    &&& new.timeouts() == old.timeouts()
}

/// The ids of all tracked requests of `t` that have timed out at `now`, in key order.
pub open spec fn ev_of(t: StrMap<TriggerTimeout>, now: u64) -> Seq<Seq<char>> {
    expired_upto(t, t.keys().len(), now)
}

/// The texts of a sequence of strings.
pub open spec fn string_views(s: Seq<String>) -> Seq<Seq<char>> {
    s.map_values(|x: String| x@)
}

/// `x + n`, saturating at the largest `u64`.
pub open spec fn sat_add_nat(x: u64, n: nat) -> u64 {
    if x + n <= u64::MAX {
        (x + n) as u64
    } else {
        u64::MAX
    }
}

/// `x - n`, stopping at zero.
pub open spec fn sub_floor(x: usize, n: nat) -> usize {
    if x >= n {
        (x - n) as usize
    } else {
        0
    }
}

/// Offering requests of priorities `ps[0..k]`, in order, to lanes of depths `h0` and `n0`:
/// the lane depths afterwards and the indices of the accepted requests.
pub open spec fn offer_upto(
    h0: nat,
    n0: nat,
    cap: usize,
    pct: u32,
    ps: Seq<TriggerPriority>,
    k: nat,
) -> (nat, nat, Seq<int>)
    decreases k,
{
    if k == 0 {
        (h0, n0, Seq::empty())
    } else {
        let (h, n, acc) = offer_upto(h0, n0, cap, pct, ps, (k - 1) as nat);
        match enqueue_outcome(h, n, cap, pct, ps[k - 1]) {
            EnqueueOutcome::High => (h + 1, n, acc.push(k - 1)),
            EnqueueOutcome::Normal => (h, n + 1, acc.push(k - 1)),
            _ => (h, n, acc),
        }
    }
}

/// Offering requests of priorities `ps[0..k]`, in order, to lanes of depths `h0` and `n0`:
/// how many were refused under backpressure and how many because their lane was full.
pub open spec fn drops_upto(
    h0: nat,
    n0: nat,
    cap: usize,
    pct: u32,
    ps: Seq<TriggerPriority>,
    k: nat,
) -> (nat, nat)
    decreases k,
{
    if k == 0 {
        (0, 0)
    } else {
        let (b, f) = drops_upto(h0, n0, cap, pct, ps, (k - 1) as nat);
        let (h, n, _) = offer_upto(h0, n0, cap, pct, ps, (k - 1) as nat);
        match enqueue_outcome(h, n, cap, pct, ps[k - 1]) {
            EnqueueOutcome::Backpressure => (b + 1, f),
            EnqueueOutcome::HighFull => (b, f + 1),
            EnqueueOutcome::NormalFull => (b, f + 1),
            _ => (b, f),
        }
    }
}

/// The priorities of a sequence of conditions.
pub open spec fn priorities_of(cs: Seq<TriggerCondition>) -> Seq<TriggerPriority> {
    cs.map_values(|c: TriggerCondition| c.priority)
}

/// Whether `new` is `old` after a SQL evaluation for collector `id` on `d` at `now` whose
/// requests were offered to the queue, `out` being those it accepted.
pub open spec fn sql_enqueue_outcome(
    old: TriggerManager,
    new: TriggerManager,
    id: Seq<char>,
    d: ProcessTriggerData,
    now: u64,
    out: Seq<TriggerRequest>,
) -> bool {
    let cs = sql_request_conditions(old.evaluator(), id, d);
    let offered = offer_upto(
        old.queue().high().len(),
        old.queue().normal().len(),
        old.queue().capacity(),
        old.queue().percent(),
        priorities_of(cs),
        cs.len(),
    );
    let drops = drops_upto(
        old.queue().high().len(),
        old.queue().normal().len(),
        old.queue().capacity(),
        old.queue().percent(),
        priorities_of(cs),
        cs.len(),
    );
    &&& exists|made: Seq<TriggerRequest>| #[trigger] sql_evaluation_outcome(old.evaluator(), new.evaluator(), id, d, now, made)
    &&& out.len() == offered.2.len()
    &&& forall|j: int|
        0 <= j < out.len() ==> 0 <= #[trigger] offered.2[j] < cs.len() && trigger_from(
            out[j],
            cs[offered.2[j]],
            d,
            now,
            true,
        )
    &&& new.queue().high().len() == offered.0
    &&& new.queue().normal().len() == offered.1
    &&& new.queue().capacity() == old.queue().capacity()
    &&& new.queue().percent() == old.queue().percent()
    &&& new.queue().counters().total_enqueued == sat_add_nat(old.queue().counters().total_enqueued, cs.len())
    &&& new.queue().counters().dropped_backpressure == sat_add_nat(
        old.queue().counters().dropped_backpressure,
        drops.0,
    )
    &&& new.queue().counters().dropped_queue_full == sat_add_nat(
        old.queue().counters().dropped_queue_full,
        drops.1,
    )
    &&& new.queue().counters().total_processed == old.queue().counters().total_processed
    &&& new.conditions() == old.conditions()
    &&& new.capabilities() == old.capabilities()
    &&& new.config() == old.config()
    &&& new.rates() == old.rates()
    &&& new.dedup() == old.dedup()
    &&& new.emission() == old.emission()
    &&& new.timeouts() == old.timeouts()
}

/// Whether `new` keeps `n` entries of `old` unchanged, removes the others, and every
/// removed entry was generated no later than every kept one.
pub open spec fn evicted_oldest(old: StrMap<TriggerMetadata>, new: StrMap<TriggerMetadata>, n: nat) -> bool {
    &&& new.keys().len() == n
    &&& forall|k: Seq<char>| #[trigger] new@.contains_key(k) ==> old@.contains_key(k) && new@[k] == old@[k]
    &&& forall|k1: Seq<char>, k2: Seq<char>|
        old@.contains_key(k1) && !new@.contains_key(k1) && #[trigger] new@.contains_key(k2) ==> #[trigger] old@[k1].generated_at <= new@[k2].generated_at
}

/// Whether `new` is `old` after cleaning up at `now`: expired deduplication entries are
/// dropped, and a metadata cache larger than `max_pending_triggers` is cut down to half
/// that size by evicting the oldest entries.
pub open spec fn cleanup_outcome(old: TriggerManager, new: TriggerManager, now: u64) -> bool {
    let max = old.config().max_pending_triggers;
    &&& new.dedup() == retain_recent(old.dedup(), now, old.config().deduplication_window_secs)
    &&& old.metadata().keys().len() <= max ==> new.metadata() == old.metadata()
    &&& old.metadata().keys().len() > max ==> evicted_oldest(old.metadata(), new.metadata(), (max / 2) as nat)
    &&& new.conditions() == old.conditions()
    &&& new.config() == old.config()
    &&& new.capabilities() == old.capabilities()
    &&& new.queue() == old.queue()
    &&& new.evaluator() == old.evaluator()
    &&& new.rates() == old.rates()
    &&& new.emission() == old.emission()
    &&& new.timeouts() == old.timeouts()
}

/// Evicts the `count` entries generated earliest (earlier keys first among equal times).
fn evict_oldest(cache: &mut StrMap<TriggerMetadata>, count: usize)
    requires
        count <= old(cache).keys().len(),
    ensures
        evicted_oldest(*old(cache), *final(cache), (old(cache).keys().len() - count) as nat),
{
    let ghost c0 = *cache;
    let mut removed: usize = 0;
    while removed < count
        invariant
            removed <= count,
            count <= c0.keys().len(),
            cache.keys().len() == c0.keys().len() - removed,
            forall|k: Seq<char>| #[trigger] cache@.contains_key(k) ==> c0@.contains_key(k) && cache@[k] == c0@[k],
            forall|k1: Seq<char>, k2: Seq<char>|
                c0@.contains_key(k1) && !cache@.contains_key(k1) && #[trigger] cache@.contains_key(k2) ==> #[trigger] c0@[k1].generated_at <= cache@[k2].generated_at,
        decreases count - removed,
    {
        proof {
            use_type_invariant(&*cache);
            cache.lemma_keys();
        }
        let mut best: usize = 0;
        let mut j: usize = 1;
        let n = cache.len();
        while j < n
            invariant
                n == cache.keys().len(),
                n > 0,
                best < n,
                1 <= j <= n,
                forall|m: int| 0 <= m < j ==> cache.value_at_spec(best as int).generated_at <= #[trigger] cache.value_at_spec(m).generated_at,
            decreases n - j,
        {
            if cache.value_at(j).generated_at < cache.value_at(best).generated_at {
                best = j;
            }
            j = j + 1;
        }
        let key = cache.key_at(best).clone();
        let ghost before = *cache;
        let ghost min_t = before.value_at_spec(best as int).generated_at;
        proof {
            assert forall|k: Seq<char>| #[trigger] before@.contains_key(k) implies min_t <= before@[k].generated_at by {
                assert(before.keys().contains(k));
                let m = choose|m: int| 0 <= m < before.keys().len() && before.keys()[m] == k;
                assert(before@[before.keys()[m]] == before.value_at_spec(m));
            }
            assert(before.keys()[best as int] == key@);
            assert(before@.contains_key(before.keys()[best as int]));
            assert(before@[key@] == before.value_at_spec(best as int));
        }
        cache.remove(key.as_str());
        proof {
            assert forall|k1: Seq<char>, k2: Seq<char>|
                c0@.contains_key(k1) && !cache@.contains_key(k1) && #[trigger] cache@.contains_key(k2) implies #[trigger] c0@[k1].generated_at <= cache@[k2].generated_at by {
                assert(before@.contains_key(k2));
                if before@.contains_key(k1) {
                    assert(k1 == key@);
                    assert(c0@[k1] == before@[k1]);
                }
            }
        }
        removed = removed + 1;
    }
}

/// A request that was let through deduplication is a duplicate when the same request comes
/// again within the deduplication window.
pub proof fn law_repeat_within_window_is_duplicate(
    s: Seq<(DedupView, u64)>,
    k: DedupView,
    now1: u64,
    now2: u64,
    window: u64,
)
    requires
        !dedup_step(s, k, now1, window).1,
        now1 <= now2,
        now2 - now1 < window,
    ensures
        dedup_step(dedup_step(s, k, now1, window).0, k, now2, window).1,
{
    let s1 = dedup_step(s, k, now1, window).0;
    assert(s1.drop_last() == retain_recent(s, now1, window));
    let kept = retain_recent(s1, now2, window);
    assert(kept == retain_recent(s1.drop_last(), now2, window).push(s1.last()));
    assert(kept[kept.len() - 1].0 == k);
}

/// Once a collector's window holds the maximum number of requests, further requests in
/// the same window are rate limited.
pub proof fn law_full_window_is_limited(
    rates: Map<Seq<char>, RateLimitState>,
    collector: Seq<char>,
    now: u64,
    window: u64,
    max: usize,
)
    requires
        rates.contains_key(collector),
        rates[collector].trigger_count >= max,
        now >= rates[collector].window_start,
        now - rates[collector].window_start < window,
    ensures
        rate_step(rates, collector, now, window, max).1,
        rate_step(rates, collector, now, window, max).0 == rates,
{
    assert(rates.insert(collector, rates[collector]) =~= rates);
}

/// A rate-limit check never lets a window's count exceed the maximum.
pub proof fn law_rate_count_bounded(
    rates: Map<Seq<char>, RateLimitState>,
    collector: Seq<char>,
    now: u64,
    window: u64,
    max: usize,
)
    requires
        rates.contains_key(collector) ==> rates[collector].trigger_count <= max,
    ensures
        rate_step(rates, collector, now, window, max).0[collector].trigger_count <= max,
{
}

/// Trigger system manager for analysis collector coordination.
///
/// Manages trigger condition evaluation, deduplication, rate limiting, metadata tracking,
/// the priority queue of pending requests, and the timeouts of emitted requests.
#[derive(Debug)]
pub struct TriggerManager {
    config: TriggerConfig,
    conditions: Vec<TriggerCondition>,
    rate_limits: StrMap<RateLimitState>,
    deduplication_cache: Vec<(DeduplicationKey, u64)>,
    metadata_cache: StrMap<TriggerMetadata>,
    collector_capabilities: StrMap<TriggerCapabilities>,
    trigger_queue: PriorityTriggerQueue,
    sql_evaluator: SqlTriggerEvaluator,
    emission_stats: TriggerEmissionStats,
    timeout_tracker: StrMap<TriggerTimeout>,
}

impl TriggerManager {
    /// The configuration.
    pub closed spec fn config(&self) -> TriggerConfig {
        self.config
    }

    /// The registered conditions, in registration order.
    pub closed spec fn conditions(&self) -> Seq<TriggerCondition> {
        self.conditions@
    }

    /// The rate-limit state of each collector.
    pub closed spec fn rates(&self) -> Map<Seq<char>, RateLimitState> {
        self.rate_limits@
    }

    /// The collectors with a rate-limit state, in the order they were first seen.
    pub closed spec fn rate_order(&self) -> Seq<Seq<char>> {
        self.rate_limits.keys()
    }

    /// The deduplication cache.
    pub closed spec fn dedup(&self) -> Seq<(DedupView, u64)> {
        dedup_entries(self.deduplication_cache@)
    }

    /// The tracked metadata of generated requests, by trigger id.
    pub closed spec fn metadata(&self) -> StrMap<TriggerMetadata> {
        self.metadata_cache
    }

    /// The registered capabilities, by collector id.
    pub closed spec fn capabilities(&self) -> Map<Seq<char>, TriggerCapabilities> {
        self.collector_capabilities@
    }

    /// The collectors with registered capabilities, in registration order.
    pub closed spec fn collector_order(&self) -> Seq<Seq<char>> {
        self.collector_capabilities.keys()
    }

    /// The queue of pending requests.
    pub closed spec fn queue(&self) -> PriorityTriggerQueue {
        self.trigger_queue
    }

    /// The SQL evaluator.
    pub closed spec fn evaluator(&self) -> SqlTriggerEvaluator {
        self.sql_evaluator
    }

    /// The emission statistics.
    pub closed spec fn emission(&self) -> TriggerEmissionStats {
        self.emission_stats
    }

    /// The requests awaiting a response, by trigger id.
    pub closed spec fn timeouts(&self) -> StrMap<TriggerTimeout> {
        self.timeout_tracker
    }

    /// Creates a manager with no conditions, capabilities or history. The queue holds up
    /// to `max_pending_triggers` requests and applies backpressure at 80% of that.
    pub fn new(config: TriggerConfig) -> (m: Self)
        ensures
            m.config() == config,
            m.conditions() == Seq::<TriggerCondition>::empty(),
            m.rates() == Map::<Seq<char>, RateLimitState>::empty(),
            m.dedup() == Seq::<(DedupView, u64)>::empty(),
            m.metadata()@ == Map::<Seq<char>, TriggerMetadata>::empty(),
            m.capabilities() == Map::<Seq<char>, TriggerCapabilities>::empty(),
            m.queue().high().len() == 0,
            m.queue().normal().len() == 0,
            m.queue().capacity() == config.max_pending_triggers,
            m.queue().percent() == 80,
            m.queue().counters() == QueueStatistics::default_spec(),
            m.evaluator().compiled() == Map::<Seq<char>, Vec<CompiledTriggerCondition>>::empty(),
            m.evaluator().stats() == SqlEvaluationStats::zero_spec(),
            m.emission() == TriggerEmissionStats::zero_spec(),
            m.timeouts()@ == Map::<Seq<char>, TriggerTimeout>::empty(),
    {
        let m = TriggerManager {
            config,
            conditions: Vec::new(),
            rate_limits: StrMap::new(),
            deduplication_cache: Vec::new(),
            metadata_cache: StrMap::new(),
            collector_capabilities: StrMap::new(),
            trigger_queue: PriorityTriggerQueue::new(config.max_pending_triggers, 80),
            sql_evaluator: SqlTriggerEvaluator::new(),
            emission_stats: TriggerEmissionStats::zero(),
            timeout_tracker: StrMap::new(),
        };
        assert(m.dedup() =~= Seq::<(DedupView, u64)>::empty());
        m
    }

    /// Validates collector capabilities: the collector id must be non-empty and the trigger
    /// rate, memory limit and analysis time positive.
    pub fn validate_collector_capabilities(&self, capabilities: &TriggerCapabilities) -> (r: Result<
        (),
        TriggerError,
    >)
        ensures
            capabilities_error(*capabilities) is None ==> r is Ok,
            capabilities_error(*capabilities) matches Some(m) ==> (r matches Err(
                TriggerError::ConfigError(e),
            ) && e@ == m),
    {
        if capabilities.collector_id.as_str().is_empty() {
            return Err(TriggerError::ConfigError(String::from_str("Collector ID cannot be empty")));
        }
        if capabilities.max_trigger_rate == 0 {
            return Err(
                TriggerError::ConfigError(
                    String::from_str("Maximum trigger rate must be greater than 0"),
                ),
            );
        }
        if capabilities.resource_limits.max_memory_per_task == 0 {
            return Err(
                TriggerError::ConfigError(
                    String::from_str("Maximum memory per task must be greater than 0"),
                ),
            );
        }
        if capabilities.resource_limits.max_analysis_time_ms == 0 {
            return Err(
                TriggerError::ConfigError(
                    String::from_str("Maximum analysis time must be greater than 0"),
                ),
            );
        }
        Ok(())
    }

    /// Registers collector capabilities. Valid capabilities replace any earlier ones of the
    /// collector, and the collector's SQL conditions become the registered conditions it
    /// can handle; invalid ones change nothing.
    pub fn register_collector_capabilities(&mut self, capabilities: TriggerCapabilities) -> (r:
        Result<(), TriggerError>)
        ensures
            capabilities_error(capabilities) matches Some(m) ==> {
                &&& r matches Err(TriggerError::ConfigError(e)) && e@ == m
                &&& *final(self) == *old(self)
            },
            capabilities_error(capabilities) is None ==> {
                &&& r is Ok
                &&& final(self).capabilities() == old(self).capabilities().insert(
                    capabilities.collector_id@,
                    capabilities,
                )
                &&& registered_as(
                    old(self).evaluator(),
                    final(self).evaluator(),
                    capabilities.collector_id@,
                    eligible_upto(old(self).conditions(), old(self).conditions().len(), capabilities),
                )
                &&& final(self).conditions() == old(self).conditions()
                &&& final(self).config() == old(self).config()
                &&& final(self).queue() == old(self).queue()
                &&& final(self).rates() == old(self).rates()
                &&& final(self).dedup() == old(self).dedup()
                &&& final(self).metadata() == old(self).metadata()
                &&& final(self).emission() == old(self).emission()
                &&& final(self).timeouts() == old(self).timeouts()
            },
    {
        match self.validate_collector_capabilities(&capabilities) {
            Err(e) => {
                return Err(e);
            },
            Ok(()) => {},
        }
        let collector_conditions = eligible_conditions(&self.conditions, &capabilities);
        let reg = self.sql_evaluator.register_collector_conditions(
            capabilities.collector_id.clone(),
            collector_conditions,
        );
        match reg {
            Err(e) => {
                return Err(e);
            },
            Ok(()) => {},
        }
        let id = capabilities.collector_id.clone();
        self.collector_capabilities.insert(id, capabilities);
        Ok(())
    }

    /// Validates a condition against the registered capabilities of its collector: the
    /// collector must be registered and support the condition's kind, analysis type and
    /// priority.
    pub fn validate_trigger_condition(&self, condition: &TriggerCondition) -> (r: Result<
        (),
        TriggerError,
    >)
        ensures
            condition_error(self.capabilities(), *condition) is None ==> r is Ok,
            condition_error(self.capabilities(), *condition) matches Some(m) ==> (r matches Err(
                TriggerError::ConfigError(e),
            ) && e@ == m),
    {
        let tc = condition.target_collector.as_str();
        let caps = match self.collector_capabilities.get(tc) {
            None => {
                return Err(
                    TriggerError::ConfigError(
                        String::from_str("No capabilities registered for collector: ").concat(tc),
                    ),
                );
            },
            Some(c) => c,
        };
        if !kind_in(&caps.supported_conditions, &condition.condition_type) {
            let k = condition_kind_text(&condition.condition_type);
            return Err(
                TriggerError::ConfigError(
                    String::from_str("Collector ").concat(tc).concat(
                        " does not support condition type: ",
                    ).concat(k.as_str()),
                ),
            );
        }
        if !analysis_in(&caps.supported_analysis, &condition.analysis_type) {
            let a = analysis_text(&condition.analysis_type);
            return Err(
                TriggerError::ConfigError(
                    String::from_str("Collector ").concat(tc).concat(
                        " does not support analysis type: ",
                    ).concat(a.as_str()),
                ),
            );
        }
        if !priority_in(&caps.supported_priorities, condition.priority) {
            let p = priority_text(condition.priority);
            return Err(
                TriggerError::ConfigError(
                    String::from_str("Collector ").concat(tc).concat(
                        " does not support priority level: ",
                    ).concat(p.as_str()),
                ),
            );
        }
        Ok(())
    }

    /// Registers a condition after validating it against its collector's capabilities; the
    /// collector's SQL conditions become all registered conditions addressed to it. A
    /// refused condition changes nothing.
    pub fn register_condition(&mut self, condition: TriggerCondition) -> (r: Result<(), TriggerError>)
        ensures
            condition_error(old(self).capabilities(), condition) matches Some(m) ==> {
                &&& r matches Err(TriggerError::ConfigError(e)) && e@ == m
                &&& *final(self) == *old(self)
            },
            condition_error(old(self).capabilities(), condition) is None ==> {
                &&& r is Ok
                &&& final(self).conditions() == old(self).conditions().push(condition)
                &&& registered_as(
                    old(self).evaluator(),
                    final(self).evaluator(),
                    condition.target_collector@,
                    addressed_upto(
                        final(self).conditions(),
                        final(self).conditions().len(),
                        condition.target_collector@,
                    ),
                )
                &&& final(self).capabilities() == old(self).capabilities()
                &&& final(self).config() == old(self).config()
                &&& final(self).queue() == old(self).queue()
                &&& final(self).rates() == old(self).rates()
                &&& final(self).dedup() == old(self).dedup()
                &&& final(self).metadata() == old(self).metadata()
                &&& final(self).emission() == old(self).emission()
                &&& final(self).timeouts() == old(self).timeouts()
            },
    {
        match self.validate_trigger_condition(&condition) {
            Err(e) => {
                return Err(e);
            },
            Ok(()) => {},
        }
        let collector_id = condition.target_collector.clone();
        self.conditions.push(condition);
        let collector_conditions = addressed_conditions(&self.conditions, collector_id.as_str());
        let reg = self.sql_evaluator.register_collector_conditions(collector_id, collector_conditions);
        match reg {
            Err(e) => Err(e),
            Ok(()) => Ok(()),
        }
    }

    /// Evaluates the registered conditions on `d` at time `now`, in registration order,
    /// and returns the requests let through deduplication and rate limiting.
    pub fn evaluate_triggers_at(&mut self, d: &ProcessTriggerData, now: u64) -> (r: Result<
        Vec<TriggerRequest>,
        TriggerError,
    >)
        ensures
            r matches Ok(v) && evaluation_outcome(*old(self), *final(self), *d, now, v@),
    {
        let cfg = self.config;
        let out = evaluate_conditions(
            &self.conditions,
            d,
            now,
            cfg,
            &mut self.deduplication_cache,
            &mut self.rate_limits,
            &mut self.metadata_cache,
        );
        Ok(out)
    }

    /// Evaluates the registered conditions on `d` at the current time (see
    /// `evaluate_triggers_at`).
    pub fn evaluate_triggers(&mut self, d: &ProcessTriggerData) -> (r: Result<
        Vec<TriggerRequest>,
        TriggerError,
    >)
        ensures
            r matches Ok(v) && exists|now: u64| #[trigger]
                evaluation_outcome(*old(self), *final(self), *d, now, v@),
    {
        let now = unix_now_secs();
        let r = self.evaluate_triggers_at(d, now);
        match &r {
            Ok(v) => {
                assert(evaluation_outcome(*old(self), *self, *d, now, v@));
            },
            Err(_) => {},
        }
        r
    }

    /// Takes the next pending request: high priority first, oldest first.
    pub fn dequeue_trigger(&mut self) -> (r: Option<TriggerRequest>)
        ensures
            old(self).queue().high().len() > 0 ==> r == Some(old(self).queue().high()[0])
                && final(self).queue().high() == old(self).queue().high().drop_first()
                && final(self).queue().normal() == old(self).queue().normal(),
            old(self).queue().high().len() == 0 && old(self).queue().normal().len() > 0 ==> r
                == Some(old(self).queue().normal()[0]) && final(self).queue().normal() == old(
                self,
            ).queue().normal().drop_first() && final(self).queue().high() == old(self).queue().high(),
            old(self).queue().high().len() == 0 && old(self).queue().normal().len() == 0 ==> r
                is None && final(self).queue().high() == old(self).queue().high()
                && final(self).queue().normal() == old(self).queue().normal(),
            final(self).queue().capacity() == old(self).queue().capacity(),
            final(self).queue().percent() == old(self).queue().percent(),
    {
        self.trigger_queue.dequeue()
    }

    /// Whether the queue is applying backpressure.
    pub fn is_backpressure_active(&self) -> (b: bool)
        ensures
            b == (self.queue().high().len() + self.queue().normal().len() >= backpressure_threshold(
                self.queue().capacity(),
                self.queue().percent(),
            )),
    {
        self.trigger_queue.is_backpressure_active()
    }

    /// The number of pending requests.
    pub fn get_queue_depth(&self) -> (n: usize)
        ensures
            n == self.queue().high().len() + self.queue().normal().len(),
    {
        self.trigger_queue.len()
    }

    /// A copy of the capabilities registered for `collector_id`, if any.
    pub fn get_collector_capabilities(&self, collector_id: &str) -> (r: Option<TriggerCapabilities>)
        ensures
            r is Some <==> self.capabilities().contains_key(collector_id@),
            r matches Some(c) ==> same_capabilities(c, self.capabilities()[collector_id@]),
    {
        match self.collector_capabilities.get(collector_id) {
            Some(c) => Some(c.duplicate()),
            None => None,
        }
    }

    /// Copies of every registered capability set, in registration order.
    pub fn get_all_collector_capabilities(&self) -> (r: Vec<TriggerCapabilities>)
        ensures
            r@.len() == self.collector_order().len(),
            forall|i: int| 0 <= i < r@.len() ==> same_capabilities(#[trigger] r@[i], self.capabilities()[self.collector_order()[i]]),
    {
        proof {
            use_type_invariant(&self.collector_capabilities);
            self.collector_capabilities.lemma_keys();
        }
        let mut r: Vec<TriggerCapabilities> = Vec::new();
        let mut i: usize = 0;
        while i < self.collector_capabilities.len()
            invariant
                i <= self.collector_capabilities.keys().len(),
                r@.len() == i,
                forall|j: int| 0 <= j < i ==> same_capabilities(#[trigger] r@[j], self.collector_capabilities@[self.collector_capabilities.keys()[j]]),
            decreases self.collector_capabilities.keys().len() - i,
        {
            r.push(self.collector_capabilities.value_at(i).duplicate());
            i = i + 1;
        }
        r
    }

    /// The ids of the collectors with registered capabilities, in registration order.
    pub fn registered_collectors(&self) -> (r: Vec<String>)
        ensures
            r@.len() == self.collector_order().len(),
            forall|i: int| 0 <= i < r@.len() ==> (#[trigger] r@[i])@ == self.collector_order()[i],
    {
        let mut r: Vec<String> = Vec::new();
        let mut i: usize = 0;
        while i < self.collector_capabilities.len()
            invariant
                i <= self.collector_capabilities.keys().len(),
                r@.len() == i,
                forall|j: int| 0 <= j < i ==> (#[trigger] r@[j])@ == self.collector_capabilities.keys()[j],
            decreases self.collector_capabilities.keys().len() - i,
        {
            r.push(self.collector_capabilities.key_at(i).clone());
            i = i + 1;
        }
        r
    }

    /// Whether the request `trigger_id` is awaiting a response.
    pub fn is_trigger_tracked(&self, trigger_id: &str) -> (b: bool)
        ensures
            b == self.timeouts()@.contains_key(trigger_id@),
    {
        self.timeout_tracker.contains_key(trigger_id)
    }

    /// Validates a request against its collector's registered capabilities: the collector
    /// must be registered and support the request's analysis type and priority, the target
    /// path may hold at most 4096 bytes and the metadata at most 64 KiB.
    pub fn validate_trigger_request(&self, trigger: &TriggerRequest) -> (r: Result<(), TriggerError>)
        ensures
            request_error(self.capabilities(), *trigger) is None ==> r is Ok,
            request_error(self.capabilities(), *trigger) matches Some(m) ==> (r matches Err(
                TriggerError::ValidationError(e),
            ) && e@ == m),
    {
        let tc = trigger.target_collector.as_str();
        let caps = match self.collector_capabilities.get(tc) {
            None => {
                return Err(
                    TriggerError::ValidationError(
                        String::from_str("Target collector '").concat(tc).concat(
                            "' not found in capabilities registry",
                        ),
                    ),
                );
            },
            Some(c) => c,
        };
        if !analysis_in(&caps.supported_analysis, &trigger.analysis_type) {
            let a = analysis_text(&trigger.analysis_type);
            return Err(
                TriggerError::ValidationError(
                    String::from_str("Collector '").concat(tc).concat(
                        "' does not support analysis type: ",
                    ).concat(a.as_str()),
                ),
            );
        }
        if !priority_in(&caps.supported_priorities, trigger.priority) {
            let p = priority_text(trigger.priority);
            return Err(
                TriggerError::ValidationError(
                    String::from_str("Collector '").concat(tc).concat(
                        "' does not support priority level: ",
                    ).concat(p.as_str()),
                ),
            );
        }
        let too_long = match &trigger.target_path {
            Some(p) => p.as_str().len() > MAX_TARGET_PATH_BYTES,
            None => false,
        };
        if too_long {
            return Err(
                TriggerError::ValidationError(
                    String::from_str("Target path exceeds maximum length (4096 characters)"),
                ),
            );
        }
        if metadata_too_large(&trigger.metadata) {
            return Err(
                TriggerError::ValidationError(
                    String::from_str("Trigger metadata exceeds maximum size (64KB)"),
                ),
            );
        }
        Ok(())
    }

    /// Decides whether a request may be published: it must pass validation, and an event
    /// bus must be configured.
    pub fn prepare_emission(&mut self, trigger: &TriggerRequest, bus_configured: bool) -> (r: Result<
        (),
        TriggerError,
    >)
        ensures
            request_error(old(self).capabilities(), *trigger) matches Some(m) ==> (r matches Err(
                TriggerError::ValidationError(e),
            ) && e@ == m),
            request_error(old(self).capabilities(), *trigger) is Some ==> final(self).emission() == (
            TriggerEmissionStats {
                validation_failures: sat_inc(old(self).emission().validation_failures),
                ..old(self).emission()
            }),
            request_error(old(self).capabilities(), *trigger) is None && !bus_configured ==> (r matches Err(
                TriggerError::EventBusError(e),
            ) && e@ == "Event bus not configured"@),
            request_error(old(self).capabilities(), *trigger) is None && bus_configured ==> r is Ok,
            request_error(old(self).capabilities(), *trigger) is None ==> *final(self) == *old(self),
            only_emission_changed(*old(self), *final(self)),
    {
        match self.validate_trigger_request(trigger) {
            Err(e) => {
                self.emission_stats.validation_failures = self.emission_stats.validation_failures.saturating_add(
                    1,
                );
                return Err(e);
            },
            Ok(()) => {},
        }
        if !bus_configured {
            return Err(TriggerError::EventBusError(String::from_str("Event bus not configured")));
        }
        Ok(())
    }

    /// The correlation metadata a request is published with: a new correlation rooted at
    /// the request's correlation id, tagged as coming from the trigger manager.
    pub fn emission_correlation(trigger: &TriggerRequest) -> (m: CorrelationMetadata)
        ensures
            m.correlation_id == trigger.correlation_id,
            m.root_correlation_id == trigger.correlation_id,
            m.parent_correlation_id is None,
            m.trace_id is None,
            m.span_id is None,
            m.sequence_number == 0,
            m.workflow_stage is None,
            m.eventbus_metadata is None,
            m.correlation_tags@.dom() == Set::<Seq<char>>::empty().insert("trigger_source"@),
            m.correlation_tags@["trigger_source"@]@ == "trigger_manager"@,
    {
        let m = CorrelationMetadata::new(trigger.correlation_id.clone()).with_tag(
            String::from_str("trigger_source"),
            String::from_str("trigger_manager"),
        );
        proof {
            assert(m.correlation_tags@.dom() =~= Set::<Seq<char>>::empty().insert("trigger_source"@));
        }
        m
    }

    /// Records that publishing a request failed on the event bus, and returns the error to
    /// report.
    pub fn record_emission_failure(&mut self, message: String) -> (e: TriggerError)
        ensures
            e == TriggerError::EventBusError(message),
            final(self).emission() == (TriggerEmissionStats {
                event_bus_failures: sat_inc(old(self).emission().event_bus_failures),
                ..old(self).emission()
            }),
            final(self).timeouts() == old(self).timeouts(),
            final(self).capabilities() == old(self).capabilities(),
    {
        self.emission_stats.event_bus_failures = self.emission_stats.event_bus_failures.saturating_add(
            1,
        );
        TriggerError::EventBusError(message)
    }

    /// Records that a request was published at `now` after `latency_ms` milliseconds: its
    /// response timeout starts, and it counts as emitted, successful and pending, with the
    /// latency folded into the running average.
    pub fn record_emission_success_at(&mut self, trigger: &TriggerRequest, now: u64, latency_ms: u64)
        ensures
            final(self).timeouts()@ == old(self).timeouts()@.insert(
                trigger.trigger_id@,
                TriggerTimeout {
                    target_collector: trigger.target_collector,
                    emitted_at: now,
                    timeout_secs: TRIGGER_TIMEOUT_SECS,
                    correlation_id: trigger.correlation_id,
                },
            ),
            final(self).emission().total_emitted == sat_inc(old(self).emission().total_emitted),
            final(self).emission().successful_emissions == sat_inc(
                old(self).emission().successful_emissions,
            ),
            final(self).emission().pending_responses == if old(self).emission().pending_responses
                < usize::MAX {
                (old(self).emission().pending_responses + 1) as usize
            } else {
                old(self).emission().pending_responses
            },
            final(self).emission().avg_emission_latency_ms == crate::sql_trigger::running_average_spec(
                old(self).emission().avg_emission_latency_ms,
                sat_inc(old(self).emission().total_emitted),
                latency_ms,
            ),
            final(self).emission().event_bus_failures == old(self).emission().event_bus_failures,
            final(self).emission().timeouts == old(self).emission().timeouts,
            final(self).emission().validation_failures == old(self).emission().validation_failures,
            final(self).capabilities() == old(self).capabilities(),
    {
        self.track_trigger_timeout_at(trigger, now);
        let total = self.emission_stats.total_emitted.saturating_add(1);
        self.emission_stats.total_emitted = total;
        self.emission_stats.pending_responses = self.emission_stats.pending_responses.saturating_add(1);
        self.emission_stats.successful_emissions = self.emission_stats.successful_emissions.saturating_add(
            1,
        );
        self.emission_stats.avg_emission_latency_ms = crate::sql_trigger::running_average(
            self.emission_stats.avg_emission_latency_ms,
            total,
            latency_ms,
        );
    }

    /// Starts the response timeout (30 seconds) of a request emitted at `now`.
    pub fn track_trigger_timeout_at(&mut self, trigger: &TriggerRequest, now: u64)
        ensures
            final(self).timeouts()@ == old(self).timeouts()@.insert(
                trigger.trigger_id@,
                TriggerTimeout {
                    target_collector: trigger.target_collector,
                    emitted_at: now,
                    timeout_secs: TRIGGER_TIMEOUT_SECS,
                    correlation_id: trigger.correlation_id,
                },
            ),
            final(self).emission() == old(self).emission(),
            final(self).capabilities() == old(self).capabilities(),
            final(self).queue() == old(self).queue(),
    {
        let info = TriggerTimeout {
            target_collector: trigger.target_collector.clone(),
            emitted_at: now,
            timeout_secs: TRIGGER_TIMEOUT_SECS,
            correlation_id: trigger.correlation_id.clone(),
        };
        self.timeout_tracker.insert(trigger.trigger_id.clone(), info);
    }

    /// Starts the response timeout of a request emitted now.
    pub fn track_trigger_timeout(&mut self, trigger: &TriggerRequest) -> (r: Result<(), TriggerError>)
        ensures
            r is Ok,
            final(self).timeouts()@ == old(self).timeouts()@.insert(
                trigger.trigger_id@,
                final(self).timeouts()@[trigger.trigger_id@],
            ),
            final(self).timeouts()@[trigger.trigger_id@].target_collector == trigger.target_collector,
            final(self).timeouts()@[trigger.trigger_id@].timeout_secs == TRIGGER_TIMEOUT_SECS,
            final(self).timeouts()@[trigger.trigger_id@].correlation_id == trigger.correlation_id,
            final(self).emission() == old(self).emission(),
    {
        let now = unix_now_secs();
        self.track_trigger_timeout_at(trigger, now);
        Ok(())
    }

    /// Stops tracking the requests that have timed out at `now` and returns their ids in
    /// tracking order; each counts as a timeout and no longer as pending.
    pub fn handle_trigger_timeouts_at(&mut self, now: u64) -> (r: Result<Vec<String>, TriggerError>)
        ensures
            r matches Ok(ids) && timeouts_outcome(
                *old(self),
                *final(self),
                now,
                string_views(ids@),
            ),
            final(self).capabilities() == old(self).capabilities(),
            final(self).queue() == old(self).queue(),
    {
        let ghost t0 = self.timeout_tracker;
        let mut expired: Vec<String> = Vec::new();
        let mut i: usize = 0;
        while i < self.timeout_tracker.len()
            invariant
                self.timeout_tracker == t0,
                i <= t0.keys().len(),
                string_views(expired@) == expired_upto(t0, i as nat, now),
            decreases t0.keys().len() - i,
        {
            let info = self.timeout_tracker.value_at(i);
            if now >= info.emitted_at && now - info.emitted_at > info.timeout_secs {
                let ghost before = expired@;
                expired.push(self.timeout_tracker.key_at(i).clone());
                proof {
                    assert(string_views(expired@) =~= string_views(before).push(t0.keys()[i as int]));
                }
            }
            i = i + 1;
        }
        proof {
            use_type_invariant(&self.timeout_tracker);
            t0.lemma_keys();
            lemma_expired_upto(t0, t0.keys().len(), now);
            assert forall|k: Seq<char>| t0@.contains_key(k) implies (#[trigger] ev_of(t0, now).contains(k) <==> timed_out(t0@[k], now)) by {
                assert(t0.keys().contains(k));
                let i = choose|i: int| 0 <= i < t0.keys().len() && t0.keys()[i] == k;
                assert(t0@[t0.keys()[i]] == t0.value_at_spec(i));
                if ev_of(t0, now).contains(k) {
                    let i2 = choose|i2: int| 0 <= i2 < t0.keys().len() && t0.keys()[i2] == k && timed_out(t0.value_at_spec(i2), now);
                    assert(i2 == i);
                }
            }
        }
        let ghost ev = string_views(expired@);
        let mut j: usize = 0;
        while j < expired.len()
            invariant
                j <= expired@.len(),
                ev == string_views(expired@),
                forall|k: Seq<char>|
                    #[trigger] self.timeout_tracker@.contains_key(k) <==> (t0@.contains_key(k)
                        && !ev.take(j as int).contains(k)),
                forall|k: Seq<char>|
                    #[trigger] self.timeout_tracker@.contains_key(k) ==> self.timeout_tracker@[k] == t0@[k],
                self.emission_stats == old(self).emission_stats,
                self.collector_capabilities == old(self).collector_capabilities,
                self.trigger_queue == old(self).trigger_queue,
            decreases expired@.len() - j,
        {
            let ghost before = self.timeout_tracker@;
            self.timeout_tracker.remove(expired[j].as_str());
            proof {
                assert(ev[j as int] == expired@[j as int]@);
                assert(ev.take(j as int + 1) =~= ev.take(j as int).push(ev[j as int]));
                assert forall|k: Seq<char>| #[trigger] self.timeout_tracker@.contains_key(k) <==> (t0@.contains_key(k)
                    && !ev.take(j as int + 1).contains(k)) by {
                    if k == ev[j as int] {
                        assert(ev.take(j as int + 1)[j as int] == k);
                    } else {
                        if ev.take(j as int + 1).contains(k) {
                            let m = choose|m: int| 0 <= m < j + 1 && #[trigger] ev.take(j as int + 1)[m] == k;
                            assert(ev.take(j as int)[m] == k);
                        }
                        if ev.take(j as int).contains(k) {
                            let m = choose|m: int| 0 <= m < j && #[trigger] ev.take(j as int)[m] == k;
                            assert(ev.take(j as int + 1)[m] == k);
                        }
                    }
                }
            }
            j = j + 1;
        }
        proof {
            assert(ev.take(ev.len() as int) =~= ev);
        }
        let n = expired.len();
        if n > 0 {
            self.emission_stats.timeouts = self.emission_stats.timeouts.saturating_add(n as u64);
            self.emission_stats.pending_responses = self.emission_stats.pending_responses.saturating_sub(n);
        }
        Ok(expired)
    }

    /// Stops tracking the requests that have timed out now (see
    /// `handle_trigger_timeouts_at`).
    pub fn handle_trigger_timeouts(&mut self) -> (r: Result<Vec<String>, TriggerError>)
        ensures
            r matches Ok(ids) && exists|now: u64| #[trigger] timeouts_outcome(
                *old(self),
                *final(self),
                now,
                string_views(ids@),
            ),
    {
        let now = unix_now_secs();
        let r = self.handle_trigger_timeouts_at(now);
        match &r {
            Ok(ids) => {
                assert(timeouts_outcome(*old(self), *self, now, string_views(ids@)));
            },
            Err(_) => {},
        }
        r
    }

    /// Marks a request as answered: it is no longer tracked, and if it was tracked it no
    /// longer counts as pending.
    pub fn complete_trigger_request(&mut self, trigger_id: &str) -> (r: Result<(), TriggerError>)
        ensures
            r is Ok,
            final(self).timeouts()@ == old(self).timeouts()@.remove(trigger_id@),
            final(self).emission() == (TriggerEmissionStats {
                pending_responses: if old(self).timeouts()@.contains_key(trigger_id@) {
                    sub_floor(old(self).emission().pending_responses, 1)
                } else {
                    old(self).emission().pending_responses
                },
                ..old(self).emission()
            }),
            final(self).capabilities() == old(self).capabilities(),
    {
        match self.timeout_tracker.remove(trigger_id) {
            Some(_) => {
                self.emission_stats.pending_responses = self.emission_stats.pending_responses.saturating_sub(
                    1,
                );
            },
            None => {},
        }
        Ok(())
    }

    /// Current statistics for monitoring.
    pub fn get_statistics(&self) -> (r: Result<TriggerStatistics, TriggerError>)
        ensures
            r matches Ok(s) && s == (TriggerStatistics {
                registered_conditions: self.conditions().len() as usize,
                pending_triggers: (self.queue().high().len() + self.queue().normal().len()) as usize,
                deduplication_cache_size: self.dedup().len() as usize,
                rate_limit_states: self.rate_order().len() as usize,
                registered_capabilities: self.collector_order().len() as usize,
                queue_stats: self.queue().reported_stats(),
                sql_evaluation_stats: self.evaluator().stats(),
                emission_stats: self.emission(),
            }),
    {
        Ok(
            TriggerStatistics {
                registered_conditions: self.conditions.len(),
                pending_triggers: self.trigger_queue.len(),
                deduplication_cache_size: self.deduplication_cache.len(),
                rate_limit_states: self.rate_limits.len(),
                registered_capabilities: self.collector_capabilities.len(),
                queue_stats: self.trigger_queue.get_statistics(),
                sql_evaluation_stats: self.sql_evaluator.get_evaluation_stats(),
                emission_stats: self.emission_stats,
            },
        )
    }

    /// Cleans up at `now`: drops expired deduplication entries, and cuts a metadata cache
    /// larger than `max_pending_triggers` down to half that size, evicting the oldest.
    pub fn cleanup_at(&mut self, now: u64) -> (r: Result<(), TriggerError>)
        ensures
            r is Ok,
            cleanup_outcome(*old(self), *final(self), now),
    {
        retain_recent_entries(&mut self.deduplication_cache, now, self.config.deduplication_window_secs);
        let max = self.config.max_pending_triggers;
        let len = self.metadata_cache.len();
        if len > max {
            let target = max / 2;
            evict_oldest(&mut self.metadata_cache, len - target);
        }
        Ok(())
    }

    /// Cleans up now (see `cleanup_at`).
    pub fn cleanup(&mut self) -> (r: Result<(), TriggerError>)
        ensures
            r is Ok,
            exists|now: u64| #[trigger] cleanup_outcome(*old(self), *final(self), now),
    {
        let now = unix_now_secs();
        let r = self.cleanup_at(now);
        assert(cleanup_outcome(*old(self), *self, now));
        r
    }

    /// Evaluates the SQL conditions of `collector_id` on `d` at `now` and offers the
    /// resulting requests to the priority queue in order; returns those it accepted.
    pub fn evaluate_sql_triggers_at(
        &mut self,
        collector_id: &str,
        d: &ProcessTriggerData,
        now: u64,
    ) -> (r: Result<Vec<TriggerRequest>, TriggerError>)
        ensures
            r matches Ok(v) && sql_enqueue_outcome(*old(self), *final(self), collector_id@, *d, now, v@),
    {
        let ghost e0 = self.sql_evaluator;
        let ghost cs = sql_request_conditions(e0, collector_id@, *d);
        let made = match self.sql_evaluator.evaluate_sql_triggers_at(collector_id, d, now) {
            Ok(v) => v,
            Err(e) => {
                return Err(e);
            },
        };
        let ghost made0 = made@;
        proof {
            assert(sql_evaluation_outcome(e0, self.sql_evaluator, collector_id@, *d, now, made0));
            if e0.compiled().contains_key(collector_id@) {
                let list = e0.compiled()[collector_id@]@;
                let idx = matching_indices(list, list.len(), *d);
                assert(made0.len() == cs.len());
                assert forall|i: int| 0 <= i < made0.len() implies #[trigger] trigger_from(made0[i], cs[i], *d, now, true) by {
                    assert(cs[i] == list[idx[i]].condition);
                }
            }
        }
        let ghost h0 = self.trigger_queue.high().len();
        let ghost n0 = self.trigger_queue.normal().len();
        let ghost ps = priorities_of(cs);
        let ghost q0 = self.trigger_queue.counters();
        let mut pending = made;
        let mut accepted: Vec<TriggerRequest> = Vec::new();
        let mut k: usize = 0;
        let total = pending.len();
        while pending.len() > 0
            invariant
                total == made0.len(),
                made0.len() == cs.len(),
                k + pending@.len() == total,
                pending@ == made0.skip(k as int),
                forall|i: int| 0 <= i < made0.len() ==> #[trigger] trigger_from(made0[i], cs[i], *d, now, true),
                ps == priorities_of(cs),
                self.trigger_queue.high().len() == offer_upto(h0, n0, self.trigger_queue.capacity(), self.trigger_queue.percent(), ps, k as nat).0,
                self.trigger_queue.normal().len() == offer_upto(h0, n0, self.trigger_queue.capacity(), self.trigger_queue.percent(), ps, k as nat).1,
                self.trigger_queue.capacity() == old(self).trigger_queue.capacity(),
                self.trigger_queue.percent() == old(self).trigger_queue.percent(),
                self.trigger_queue.counters().total_enqueued == sat_add_nat(q0.total_enqueued, k as nat),
                self.trigger_queue.counters().dropped_backpressure == sat_add_nat(
                    q0.dropped_backpressure,
                    drops_upto(h0, n0, self.trigger_queue.capacity(), self.trigger_queue.percent(), ps, k as nat).0,
                ),
                self.trigger_queue.counters().dropped_queue_full == sat_add_nat(
                    q0.dropped_queue_full,
                    drops_upto(h0, n0, self.trigger_queue.capacity(), self.trigger_queue.percent(), ps, k as nat).1,
                ),
                self.trigger_queue.counters().total_processed == q0.total_processed,
                accepted@.len() == offer_upto(h0, n0, self.trigger_queue.capacity(), self.trigger_queue.percent(), ps, k as nat).2.len(),
                forall|j: int|
                    0 <= j < accepted@.len() ==> 0 <= #[trigger] offer_upto(h0, n0, self.trigger_queue.capacity(), self.trigger_queue.percent(), ps, k as nat).2[j] < k
                        && trigger_from(accepted@[j], cs[offer_upto(h0, n0, self.trigger_queue.capacity(), self.trigger_queue.percent(), ps, k as nat).2[j]], *d, now, true),
                self.sql_evaluator == old(self).sql_evaluator || sql_evaluation_outcome(e0, self.sql_evaluator, collector_id@, *d, now, made0),
                sql_evaluation_outcome(e0, self.sql_evaluator, collector_id@, *d, now, made0),
                e0 == old(self).sql_evaluator,
                self.conditions == old(self).conditions,
                self.collector_capabilities == old(self).collector_capabilities,
                self.config == old(self).config,
                self.rate_limits == old(self).rate_limits,
                self.deduplication_cache == old(self).deduplication_cache,
                self.emission_stats == old(self).emission_stats,
                self.timeout_tracker == old(self).timeout_tracker,
            decreases pending@.len(),
        {
            let t = pending.remove(0);
            proof {
                assert(made0.skip(k as int)[0] == made0[k as int]);
                assert(pending@ =~= made0.skip(k as int + 1));
                assert(ps[k as int] == cs[k as int].priority);
                assert(trigger_from(made0[k as int], cs[k as int], *d, now, true));
            }
            let copy = t.duplicate();
            let ghost cap = self.trigger_queue.capacity();
            let ghost pct = self.trigger_queue.percent();
            let ghost before = offer_upto(h0, n0, cap, pct, ps, k as nat);
            let ghost acc_before = accepted@;
            let ghost outcome = enqueue_outcome(before.0, before.1, cap, pct, ps[k as int]);
            let ghost after = offer_upto(h0, n0, cap, pct, ps, (k + 1) as nat);
            let ghost dbefore = drops_upto(h0, n0, cap, pct, ps, k as nat);
            let ghost dafter = drops_upto(h0, n0, cap, pct, ps, (k + 1) as nat);
            proof {
                assert(copy.priority == ps[k as int]);
                assert(((k + 1) as nat - 1) as nat == k as nat);
                assert(dafter == match outcome {
                    EnqueueOutcome::Backpressure => (dbefore.0 + 1, dbefore.1),
                    EnqueueOutcome::HighFull => (dbefore.0, dbefore.1 + 1),
                    EnqueueOutcome::NormalFull => (dbefore.0, dbefore.1 + 1),
                    _ => (dbefore.0, dbefore.1),
                });
                assert(after == match outcome {
                    EnqueueOutcome::High => (before.0 + 1, before.1, before.2.push(k as int)),
                    EnqueueOutcome::Normal => (before.0, before.1 + 1, before.2.push(k as int)),
                    _ => (before.0, before.1, before.2),
                });
            }
            match self.trigger_queue.enqueue(copy) {
                Ok(()) => {
                    accepted.push(t);
                },
                Err(_) => {},
            }
            proof {
                assert(outcome is High || outcome is Normal ==> accepted@ == acc_before.push(made0[k as int]));
                assert(!(outcome is High || outcome is Normal) ==> accepted@ == acc_before);
                assert forall|j: int| 0 <= j < accepted@.len() implies 0 <= #[trigger] after.2[j] < k + 1
                    && trigger_from(accepted@[j], cs[after.2[j]], *d, now, true) by {
                    if j < acc_before.len() {
                        assert(after.2[j] == before.2[j]);
                        assert(accepted@[j] == acc_before[j]);
                    } else {
                        assert(after.2[j] == k);
                        assert(accepted@[j] == made0[k as int]);
                    }
                }
            }
            k = k + 1;
        }
        proof {
            assert(k == cs.len());
            assert(sql_evaluation_outcome(old(self).evaluator(), self.evaluator(), collector_id@, *d, now, made0));
            assert(self.queue().capacity() == old(self).queue().capacity());
            assert(h0 == old(self).queue().high().len());
            assert(sql_enqueue_outcome(*old(self), *self, collector_id@, *d, now, accepted@));
        }
        Ok(accepted)
    }

    /// Evaluates the SQL conditions of `collector_id` on `d` now and queues the requests
    /// (see `evaluate_sql_triggers_at`).
    pub fn evaluate_sql_triggers(&mut self, collector_id: &str, d: &ProcessTriggerData) -> (r: Result<
        Vec<TriggerRequest>,
        TriggerError,
    >)
        ensures
            r matches Ok(v) && exists|now: u64| #[trigger] sql_enqueue_outcome(
                *old(self),
                *final(self),
                collector_id@,
                *d,
                now,
                v@,
            ),
    {
        let now = unix_now_secs();
        let r = self.evaluate_sql_triggers_at(collector_id, d, now);
        match &r {
            Ok(v) => {
                assert(sql_enqueue_outcome(*old(self), *self, collector_id@, *d, now, v@));
            },
            Err(_) => {},
        }
        r
    }
}

/// Facts about the ids of expired requests: each is a tracked key whose request timed out,
/// and every tracked key whose request timed out is among them.
proof fn lemma_expired_upto(t: StrMap<TriggerTimeout>, n: nat, now: u64)
    requires
        t.wf(),
        n <= t.keys().len(),
    ensures
        forall|k: Seq<char>|
            #[trigger] expired_upto(t, n, now).contains(k) <==> (exists|i: int|
                0 <= i < n && t.keys()[i] == k && timed_out(t.value_at_spec(i), now)),
    decreases n,
{
    if n > 0 {
        lemma_expired_upto(t, (n - 1) as nat, now);
        let r = expired_upto(t, (n - 1) as nat, now);
        assert forall|k: Seq<char>| #[trigger] expired_upto(t, n, now).contains(k) <==> (exists|i: int|
            0 <= i < n && t.keys()[i] == k && timed_out(t.value_at_spec(i), now)) by {
            if timed_out(t.value_at_spec(n - 1), now) {
                assert(expired_upto(t, n, now) == r.push(t.keys()[n - 1]));
                if expired_upto(t, n, now).contains(k) {
                    let m = choose|m: int| 0 <= m < expired_upto(t, n, now).len() && expired_upto(t, n, now)[m] == k;
                    if m < r.len() {
                        assert(r[m] == k);
                        assert(r.contains(k));
                    } else {
                        assert(t.keys()[n - 1] == k);
                    }
                }
                if exists|i: int| 0 <= i < n && t.keys()[i] == k && timed_out(t.value_at_spec(i), now) {
                    let i = choose|i: int| 0 <= i < n && t.keys()[i] == k && timed_out(t.value_at_spec(i), now);
                    if i < n - 1 {
                        assert(r.contains(k));
                        let m = choose|m: int| 0 <= m < r.len() && r[m] == k;
                        assert(expired_upto(t, n, now)[m] == k);
                    } else {
                        assert(expired_upto(t, n, now)[r.len() as int] == k);
                    }
                }
            } else {
                if exists|i: int| 0 <= i < n && t.keys()[i] == k && timed_out(t.value_at_spec(i), now) {
                    let i = choose|i: int| 0 <= i < n && t.keys()[i] == k && timed_out(t.value_at_spec(i), now);
                    assert(i != n - 1);
                }
            }
        }
    }
}

/// A collector's rate-limit window restarts once it has run out: a request coming
/// `window` seconds or more after the window started is let through (whenever any request
/// is allowed at all), and opens a new window at `now` holding just that request. Other
/// collectors' windows are untouched.
pub proof fn law_expired_window_restarts(
    rates: Map<Seq<char>, RateLimitState>,
    collector: Seq<char>,
    now: u64,
    window: u64,
    max: usize,
)
    requires
        rates.contains_key(collector),
        rates[collector].window_start <= now,
        now - rates[collector].window_start >= window,
        max > 0,
    ensures
        !rate_step(rates, collector, now, window, max).1,
        rate_step(rates, collector, now, window, max).0 == rates.insert(
            collector,
            RateLimitState { trigger_count: 1, window_start: now },
        ),
{
}

/// A request to a collector whose current window still has room is let through and
/// counted in that window; a collector seen for the first time opens a window at `now`.
pub proof fn law_open_window_counts_request(
    rates: Map<Seq<char>, RateLimitState>,
    collector: Seq<char>,
    now: u64,
    window: u64,
    max: usize,
)
    requires
        max > 0,
        rates.contains_key(collector) ==> rates[collector].window_start <= now && now
            - rates[collector].window_start < window && rates[collector].trigger_count < max,
    ensures
        !rate_step(rates, collector, now, window, max).1,
        rates.contains_key(collector) ==> rate_step(rates, collector, now, window, max).0 == rates.insert(
            collector,
            RateLimitState {
                trigger_count: (rates[collector].trigger_count + 1) as usize,
                window_start: rates[collector].window_start,
            },
        ),
        !rates.contains_key(collector) ==> rate_step(rates, collector, now, window, max).0[collector]
            == (RateLimitState { trigger_count: 1, window_start: now }),
{
}

/// A window that starts after `now` (the clock went back) restarts at `now` too: the request
/// is let through whenever any is allowed, opening a window holding just that request.
pub proof fn law_window_ahead_of_clock_restarts(
    rates: Map<Seq<char>, RateLimitState>,
    collector: Seq<char>,
    now: u64,
    window: u64,
    max: usize,
)
    requires
        rates.contains_key(collector),
        rates[collector].window_start > now,
        max > 0,
    ensures
        !rate_step(rates, collector, now, window, max).1,
        rate_step(rates, collector, now, window, max).0 == rates.insert(
            collector,
            RateLimitState { trigger_count: 1, window_start: now },
        ),
{
}

} // verus!