//! Delivery filters of the local event bus: which topic an event is published on, and
//! whether a subscriber's correlation and event filters let it through.

use crate::event::{event_type_name, CollectionEvent, TriggerPriority};
use crate::event_bus::{
    CorrelationFilter, CorrelationMetadata, CrossCollectorCorrelation, EventBusCorrelation,
    EventBusFilters, EventFilter, SequenceCorrelation, TemporalCorrelation, TopicCorrelation,
};
use crate::strmap::StrMap;
use crate::support::{decimal, decimal_string};
use crate::text::{chars_of, str_eq, str_in_list};
use crate::topic::{any_matches, any_pattern_matches, listed};
use crate::trigger::{analysis_debug, analysis_text, priority_name, priority_text};
use vstd::prelude::*;

verus! {

/// The topic an event is published on.
pub open spec fn event_topic(e: CollectionEvent) -> Seq<char> {
    match e {
        CollectionEvent::Process(_) => "events.process.new"@,
        CollectionEvent::Network(_) => "events.network.new"@,
        CollectionEvent::Filesystem(_) => "events.filesystem.new"@,
        CollectionEvent::Performance(_) => "events.performance.new"@,
        CollectionEvent::TriggerRequest(_) => "control.trigger.request"@,
    }
}

/// The domain (first topic level) of the topic an event is published on.
pub open spec fn event_domain(e: CollectionEvent) -> Seq<char> {
    match e {
        CollectionEvent::TriggerRequest(_) => "control"@,
        _ => "events"@,
    }
}

/// The topic an event is published on.
pub fn generate_topic_for_event(e: &CollectionEvent) -> (t: &'static str)
    ensures
        t@ == event_topic(*e),
{
    match e {
        CollectionEvent::Process(_) => "events.process.new",
        CollectionEvent::Network(_) => "events.network.new",
        CollectionEvent::Filesystem(_) => "events.filesystem.new",
        CollectionEvent::Performance(_) => "events.performance.new",
        CollectionEvent::TriggerRequest(_) => "control.trigger.request",
    }
}

/// The domain (first topic level) of the topic an event is published on.
pub fn event_topic_domain(e: &CollectionEvent) -> (d: &'static str)
    ensures
        d@ == event_domain(*e),
{
    match e {
        CollectionEvent::TriggerRequest(_) => "control",
        _ => "events",
    }
}

/// Whether every character of `d` is a decimal digit.
pub open spec fn all_digits(d: Seq<char>) -> bool {
    forall|i: int| 0 <= i < d.len() ==> '0' <= #[trigger] d[i] <= '9'
}

/// The value of a run of decimal digits.
pub open spec fn digits_value(d: Seq<char>) -> nat
    decreases d.len(),
{
    if d.len() == 0 {
        0
    } else {
        digits_value(d.drop_last()) * 10 + (d.last() as nat - '0' as nat) as nat
    }
}

/// The `u32` written by `s` as `u32::from_str` reads it: decimal digits, optionally after
/// a `+`, with a value that fits.
pub open spec fn parse_u32_spec(s: Seq<char>) -> Option<u32> {
    let d = if s.len() > 0 && s[0] == '+' {
        s.drop_first()
    } else {
        s
    };
    if d.len() > 0 && all_digits(d) && digits_value(d) <= u32::MAX {
        Some(digits_value(d) as u32)
    } else {
        None
    }
}

/// Reads a `u32` in decimal, optionally after a `+`.
pub fn parse_u32(s: &str) -> (r: Option<u32>)
    ensures
        r == parse_u32_spec(s@),
{
    let cs = chars_of(s);
    let start: usize = if cs.len() > 0 && cs[0] == '+' {
        1
    } else {
        0
    };
    let ghost d = if s@.len() > 0 && s@[0] == '+' {
        s@.drop_first()
    } else {
        s@
    };
    proof {
        if s@.len() > 0 && s@[0] == '+' {
            assert(d =~= cs@.skip(1));
        } else {
            assert(d =~= cs@.skip(0));
        }
    }
    if start >= cs.len() {
        return None;
    }
    let mut value: u64 = 0;
    let mut i: usize = start;
    while i < cs.len()
        invariant
            cs@ == s@,
            d == (if s@.len() > 0 && s@[0] == '+' {
                s@.drop_first()
            } else {
                s@
            }),
            start <= i <= cs@.len(),
            start < cs@.len(),
            d == cs@.skip(start as int),
            all_digits(d.take(i - start)),
            value == digits_value(d.take(i - start)),
            value <= u32::MAX,
        decreases cs@.len() - i,
    {
        let c = cs[i];
        proof {
            assert(d.take(i - start + 1).drop_last() =~= d.take(i - start));
            assert(d.take(i - start + 1).last() == c);
        }
        if c < '0' || c > '9' {
            proof {
                assert(d[i - start] == c);
                assert(!all_digits(d));
                assert(parse_u32_spec(s@) is None);
            }
            return None;
        }
        let digit = (c as u32 - '0' as u32) as u64;
        value = value * 10 + digit;
        if value > 0xffff_ffff {
            proof {
                assert(all_digits(d.take(i - start + 1))) by {
                    assert forall|k: int| 0 <= k < d.take(i - start + 1).len() implies '0' <= #[trigger] d.take(i - start + 1)[k] <= '9' by {
                        if k < i - start {
                            assert(d.take(i - start + 1)[k] == d.take(i - start)[k]);
                        }
                    }
                }
                assert(d.take(d.len() as int) =~= d);
                if all_digits(d) {
                    lemma_digits_value_monotone(d, (i - start + 1) as nat, d.len());
                }
                assert(parse_u32_spec(s@) is None);
            }
            return None;
        }
        i = i + 1;
    }
    proof {
        assert(d.take(d.len() as int) =~= d);
    }
    Some(value as u32)
}

/// Appending digits never lowers the value.
proof fn lemma_digits_value_monotone(d: Seq<char>, a: nat, b: nat)
    requires
        a <= b <= d.len(),
        all_digits(d.take(b as int)),
    ensures
        digits_value(d.take(a as int)) <= digits_value(d.take(b as int)),
    decreases b,
{
    if a < b {
        assert(d.take(b as int).drop_last() =~= d.take(b - 1));
        assert(all_digits(d.take(b - 1))) by {
            assert forall|i: int| 0 <= i < d.take(b - 1).len() implies '0' <= #[trigger] d.take(b - 1)[i] <= '9' by {
                assert(d.take(b - 1)[i] == d.take(b as int)[i]);
            }
        }
        assert(d.take(b as int).last() == d.take(b as int)[b - 1]);
        lemma_digits_value_monotone(d, a, (b - 1) as nat);
    }
}

/// Whether every tag of `filter` is present in `tags` with the same text.
pub open spec fn tags_match(tags: StrMap<String>, filter: StrMap<String>) -> bool {
    forall|k: Seq<char>|
        #[trigger] filter@.contains_key(k) ==> tags@.contains_key(k) && tags@[k]@ == filter@[k]@
}

/// Whether every entry of `filter` is present in `m` with the same text.
pub open spec fn entries_match(m: Map<Seq<char>, Seq<char>>, filter: StrMap<String>) -> bool {
    forall|k: Seq<char>|
        #[trigger] filter@.contains_key(k) ==> m.contains_key(k) && m[k] == filter@[k]@
}

/// Whether `m` holds the entry of `filter` under key `k` with the same text.
pub open spec fn entry_present(m: StrMap<String>, filter: StrMap<String>, k: Seq<char>) -> bool {
    m@.contains_key(k) && m@[k]@ == filter@[k]@
}

/// Whether every entry of `filter` is present in `m` with the same text.
fn map_includes(m: &StrMap<String>, filter: &StrMap<String>) -> (r: bool)
    ensures
        r == tags_match(*m, *filter),
{
    proof {
        use_type_invariant(filter);
        filter.lemma_keys();
    }
    let mut i: usize = 0;
    while i < filter.len()
        invariant
            i <= filter.keys().len(),
            filter.wf(),
            forall|j: int| 0 <= j < i ==> #[trigger] entry_present(*m, *filter, filter.keys()[j]),
        decreases filter.keys().len() - i,
    {
        let k = filter.key_at(i);
        let v = filter.value_at(i);
        proof {
            filter.lemma_keys();
            assert(filter@.contains_key(filter.keys()[i as int]));
        }
        match m.get(k.as_str()) {
            Some(mv) => {
                if !str_eq(mv.as_str(), v.as_str()) {
                    return false;
                }
            },
            None => {
                return false;
            },
        }
        assert(entry_present(*m, *filter, filter.keys()[i as int]));
        i = i + 1;
    }
    proof {
        filter.lemma_keys();
        assert forall|k: Seq<char>| #[trigger] filter@.contains_key(k) implies m@.contains_key(k)
            && m@[k]@ == filter@[k]@ by {
            assert(filter.keys().contains(k));
            let j = choose|j: int| 0 <= j < filter.keys().len() && filter.keys()[j] == k;
            assert(entry_present(*m, *filter, filter.keys()[j]));
        }
    }
    true
}

/// Whether the sequence number lies within `[base, base + window]`.
pub open spec fn sequence_passes(m: CorrelationMetadata, s: SequenceCorrelation) -> bool {
    m.sequence_number >= s.base_sequence && m.sequence_number - s.base_sequence <= s.window_size
}

/// Whether some topic chain runs from a source pattern to a target pattern (metadata
/// without broker information passes).
pub open spec fn topic_correlation_passes(m: CorrelationMetadata, t: TopicCorrelation) -> bool {
    match m.eventbus_metadata {
        Some(em) => exists|i: int|
            0 <= i < em.topic_chains@.len() && any_pattern_matches(
                t.source_patterns@,
                (#[trigger] em.topic_chains@[i]).source_topic@,
            ) && any_pattern_matches(t.target_patterns@, em.topic_chains@[i].target_topic@),
        None => true,
    }
}

/// Whether the delivery happened at most `window_seconds` before `now` (metadata without
/// broker information passes).
pub open spec fn temporal_passes(m: CorrelationMetadata, t: TemporalCorrelation, now: u64) -> bool {
    match m.eventbus_metadata {
        Some(em) => (if now >= em.delivery_timestamp {
            now - em.delivery_timestamp
        } else {
            0
        }) <= t.window_seconds,
        None => true,
    }
}

/// Whether the coordination was initiated by a source collector and targets a target
/// collector (or no targets are required); metadata without coordination passes.
pub open spec fn cross_collector_passes(m: CorrelationMetadata, c: CrossCollectorCorrelation) -> bool {
    match m.eventbus_metadata {
        Some(em) => match em.collector_coordination {
            Some(cc) => listed(c.source_collectors@, cc.initiator_collector@) && ((exists|i: int|
                0 <= i < cc.target_collectors@.len() && listed(
                    c.target_collectors@,
                    (#[trigger] cc.target_collectors@[i])@,
                )) || c.target_collectors@.len() == 0),
            None => true,
        },
        None => true,
    }
}

/// Whether the broker-level correlation criteria that are present all pass.
pub open spec fn eventbus_correlation_passes(m: CorrelationMetadata, e: EventBusCorrelation, now: u64) -> bool {
    &&& e.sequence_correlation matches Some(s) ==> sequence_passes(m, s)
    &&& e.topic_correlation matches Some(t) ==> topic_correlation_passes(m, t)
    &&& e.temporal_correlation matches Some(t) ==> temporal_passes(m, t, now)
    &&& e.cross_collector_correlation matches Some(c) ==> cross_collector_passes(m, c)
}

/// Whether an optional id of the metadata matches a filter's: equal text, or absent
/// against an empty filter.
pub open spec fn optional_id_passes(have: Option<String>, want: Seq<char>) -> bool {
    match have {
        Some(h) => h@ == want,
        None => want.len() == 0,
    }
}

/// Whether correlation metadata passes a correlation filter at time `now`: each criterion
/// present must hold; a process id filter needs a `pid` tag holding one of the ids.
pub open spec fn correlation_passes(m: CorrelationMetadata, f: CorrelationFilter, now: u64) -> bool {
    &&& f.correlation_id matches Some(c) ==> m.correlation_id@ == c@
    &&& f.parent_correlation_id matches Some(p) ==> optional_id_passes(m.parent_correlation_id, p@)
    &&& f.root_correlation_id matches Some(r) ==> m.root_correlation_id@ == r@
    &&& f.workflow_stage matches Some(w) ==> optional_id_passes(m.workflow_stage, w@)
    &&& tags_match(m.correlation_tags, f.correlation_tags)
    &&& f.process_ids@.len() > 0 ==> (m.correlation_tags@.contains_key("pid"@) && (parse_u32_spec(
        m.correlation_tags@["pid"@]@,
    ) matches Some(pid) && f.process_ids@.contains(pid)))
    &&& f.eventbus_correlation matches Some(e) ==> eventbus_correlation_passes(m, e, now)
}

fn optional_id_check(have: &Option<String>, want: &String) -> (r: bool)
    ensures
        r == optional_id_passes(*have, want@),
{
    match have {
        Some(h) => str_eq(h.as_str(), want.as_str()),
        None => want.as_str().is_empty(),
    }
}

fn u32_in(list: &Vec<u32>, x: u32) -> (r: bool)
    ensures
        r == list@.contains(x),
{
    let mut i: usize = 0;
    while i < list.len()
        invariant
            i <= list@.len(),
            forall|j: int| 0 <= j < i ==> list@[j] != x,
        decreases list@.len() - i,
    {
        if list[i] == x {
            assert(list@[i as int] == x);
            return true;
        }
        i = i + 1;
    }
    false
}

fn topic_correlation_check(m: &CorrelationMetadata, t: &TopicCorrelation) -> (r: bool)
    ensures
        r == topic_correlation_passes(*m, *t),
{
    match &m.eventbus_metadata {
        None => true,
        Some(em) => {
            let mut i: usize = 0;
            while i < em.topic_chains.len()
                invariant
                    m.eventbus_metadata == Some(*em),
                    i <= em.topic_chains@.len(),
                    forall|j: int|
                        0 <= j < i ==> !(any_pattern_matches(
                            t.source_patterns@,
                            (#[trigger] em.topic_chains@[j]).source_topic@,
                        ) && any_pattern_matches(t.target_patterns@, em.topic_chains@[j].target_topic@)),
                decreases em.topic_chains@.len() - i,
            {
                let chain = &em.topic_chains[i];
                if any_matches(&t.source_patterns, chain.source_topic.as_str()) && any_matches(
                    &t.target_patterns,
                    chain.target_topic.as_str(),
                ) {
                    assert(any_pattern_matches(t.source_patterns@, em.topic_chains@[i as int].source_topic@));
                    assert(any_pattern_matches(t.target_patterns@, em.topic_chains@[i as int].target_topic@));
                    assert(m.eventbus_metadata == Some(*em));
                    assert(topic_correlation_passes(*m, *t));
                    return true;
                }
                i = i + 1;
            }
            false
        },
    }
}

fn cross_collector_check(m: &CorrelationMetadata, c: &CrossCollectorCorrelation) -> (r: bool)
    ensures
        r == cross_collector_passes(*m, *c),
{
    match &m.eventbus_metadata {
        None => true,
        Some(em) => match &em.collector_coordination {
            None => true,
            Some(cc) => {
                let source_matches = str_in_list(cc.initiator_collector.as_str(), &c.source_collectors);
                let mut target_matches = c.target_collectors.len() == 0;
                let mut i: usize = 0;
                while i < cc.target_collectors.len() && !target_matches
                    invariant
                        i <= cc.target_collectors@.len(),
                        target_matches == ((exists|j: int|
                            0 <= j < i && listed(
                                c.target_collectors@,
                                (#[trigger] cc.target_collectors@[j])@,
                            )) || c.target_collectors@.len() == 0),
                    decreases cc.target_collectors@.len() - i,
                {
                    if str_in_list(cc.target_collectors[i].as_str(), &c.target_collectors) {
                        target_matches = true;
                    }
                    i = i + 1;
                }
                source_matches && target_matches
            },
        },
    }
}

fn eventbus_correlation_check(m: &CorrelationMetadata, e: &EventBusCorrelation, now: u64) -> (r: bool)
    ensures
        r == eventbus_correlation_passes(*m, *e, now),
{
    match &e.sequence_correlation {
        Some(s) => {
            if m.sequence_number < s.base_sequence || m.sequence_number - s.base_sequence > s.window_size {
                return false;
            }
        },
        None => {},
    }
    match &e.topic_correlation {
        Some(t) => {
            if !topic_correlation_check(m, t) {
                return false;
            }
        },
        None => {},
    }
    match &e.temporal_correlation {
        Some(t) => match &m.eventbus_metadata {
            Some(em) => {
                let diff = now.saturating_sub(em.delivery_timestamp);
                if diff > t.window_seconds {
                    return false;
                }
            },
            None => {},
        },
        None => {},
    }
    match &e.cross_collector_correlation {
        Some(c) => {
            if !cross_collector_check(m, c) {
                return false;
            }
        },
        None => {},
    }
    true
}

/// Applies a correlation filter to correlation metadata at time `now`.
pub fn apply_correlation_filter(m: &CorrelationMetadata, f: &CorrelationFilter, now: u64) -> (r: bool)
    ensures
        r == correlation_passes(*m, *f, now),
{
    proof {
        reveal_strlit("pid");
    }
    match &f.correlation_id {
        Some(c) => {
            if !str_eq(m.correlation_id.as_str(), c.as_str()) {
                return false;
            }
        },
        None => {},
    }
    match &f.parent_correlation_id {
        Some(p) => {
            if !optional_id_check(&m.parent_correlation_id, p) {
                return false;
            }
        },
        None => {},
    }
    match &f.root_correlation_id {
        Some(r) => {
            if !str_eq(m.root_correlation_id.as_str(), r.as_str()) {
                return false;
            }
        },
        None => {},
    }
    match &f.workflow_stage {
        Some(w) => {
            if !optional_id_check(&m.workflow_stage, w) {
                return false;
            }
        },
        None => {},
    }
    if !map_includes(&m.correlation_tags, &f.correlation_tags) {
        return false;
    }
    if f.process_ids.len() > 0 {
        match m.correlation_tags.get("pid") {
            Some(pid_str) => match parse_u32(pid_str.as_str()) {
                Some(pid) => {
                    if !u32_in(&f.process_ids, pid) {
                        return false;
                    }
                },
                None => {
                    return false;
                },
            },
            None => {
                return false;
            },
        }
    }
    match &f.eventbus_correlation {
        Some(e) => eventbus_correlation_check(m, e, now),
        None => true,
    }
}

/// The priority of an event for filtering: a trigger request's by its level (1, 5, 8,
/// 10), any other event 5.
pub open spec fn event_priority(e: CollectionEvent) -> u8 {
    match e {
        CollectionEvent::TriggerRequest(t) => match t.priority {
            TriggerPriority::Low => 1,
            TriggerPriority::Normal => 5,
            TriggerPriority::High => 8,
            TriggerPriority::Critical => 10,
        },
        _ => 5,
    }
}

/// The priority of an event for filtering.
pub fn extract_event_priority(e: &CollectionEvent) -> (p: u8)
    ensures
        p == event_priority(*e),
{
    match e {
        CollectionEvent::TriggerRequest(t) => match t.priority {
            TriggerPriority::Low => 1,
            TriggerPriority::Normal => 5,
            TriggerPriority::High => 8,
            TriggerPriority::Critical => 10,
        },
        _ => 5,
    }
}

/// The collector an event comes from.
pub open spec fn source_collector(e: CollectionEvent) -> Seq<char> {
    match e {
        CollectionEvent::Process(_) => "procmond"@,
        CollectionEvent::Network(_) => "netmond"@,
        CollectionEvent::Filesystem(_) => "fsmond"@,
        CollectionEvent::Performance(_) => "perfmond"@,
        CollectionEvent::TriggerRequest(_) => "trigger-manager"@,
    }
}

/// The collector an event comes from.
pub fn extract_source_collector(e: &CollectionEvent) -> (s: &'static str)
    ensures
        s@ == source_collector(*e),
{
    match e {
        CollectionEvent::Process(_) => "procmond",
        CollectionEvent::Network(_) => "netmond",
        CollectionEvent::Filesystem(_) => "fsmond",
        CollectionEvent::Performance(_) => "perfmond",
        CollectionEvent::TriggerRequest(_) => "trigger-manager",
    }
}

/// The texts of a map of strings.
pub open spec fn text_map(m: Map<Seq<char>, String>) -> Map<Seq<char>, Seq<char>> {
    m.map_values(|s: String| s@)
}

/// `true` or `false`, as `bool::to_string` renders it.
pub open spec fn bool_text(b: bool) -> Seq<char> {
    if b {
        "true"@
    } else {
        "false"@
    }
}

fn bool_string(b: bool) -> (s: String)
    ensures
        s@ == bool_text(b),
{
    if b {
        String::from_str("true")
    } else {
        String::from_str("false")
    }
}

/// `base` with the first `n` entries of `m` added (replacing equal keys).
pub open spec fn extend_upto(base: Map<Seq<char>, Seq<char>>, m: StrMap<String>, n: nat) -> Map<
    Seq<char>,
    Seq<char>,
>
    decreases n,
{
    if n == 0 {
        base
    } else {
        extend_upto(base, m, (n - 1) as nat).insert(m.keys()[n - 1], m.value_at_spec(n - 1)@)
    }
}

/// The metadata of an event that metadata filters look at: for a process its pid, parent
/// pid, name, executable path, user, and the accessible and file-exists flags; for a
/// trigger request its id, target collector, analysis type, priority and target pid, then
/// its own metadata; nothing for other events.
pub open spec fn event_metadata(e: CollectionEvent) -> Map<Seq<char>, Seq<char>> {
    match e {
        CollectionEvent::Process(p) => {
            let m0 = Map::<Seq<char>, Seq<char>>::empty().insert("pid"@, decimal(p.pid as nat));
            let m1 = match p.ppid {
                Some(pp) => m0.insert("ppid"@, decimal(pp as nat)),
                None => m0,
            };
            let m2 = m1.insert("name"@, p.name@);
            let m3 = match p.executable_path {
                Some(x) => m2.insert("executable_path"@, x@),
                None => m2,
            };
            let m4 = match p.user_id {
                Some(u) => m3.insert("user_id"@, u@),
                None => m3,
            };
            m4.insert("accessible"@, bool_text(p.accessible)).insert(
                "file_exists"@,
                bool_text(p.file_exists),
            )
        },
        CollectionEvent::TriggerRequest(t) => {
            let b0 = Map::<Seq<char>, Seq<char>>::empty().insert("trigger_id"@, t.trigger_id@).insert(
                "target_collector"@,
                t.target_collector@,
            ).insert("analysis_type"@, analysis_debug(t.analysis_type)).insert(
                "priority"@,
                priority_name(t.priority),
            );
            let b1 = match t.target_pid {
                Some(pid) => b0.insert("target_pid"@, decimal(pid as nat)),
                None => b0,
            };
            extend_upto(b1, t.metadata, t.metadata.keys().len())
        },
        _ => Map::empty(),
    }
}

fn insert_text(m: &mut StrMap<String>, k: &str, v: String)
    ensures
        text_map(final(m)@) == text_map(old(m)@).insert(k@, v@),
{
    let ghost vv = v@;
    m.insert(String::from_str(k), v);
    assert(text_map(m@) =~= text_map(old(m)@).insert(k@, vv));
}

/// The metadata of an event that metadata filters look at.
pub fn extract_event_metadata(e: &CollectionEvent) -> (m: StrMap<String>)
    ensures
        text_map(m@) == event_metadata(*e),
{
    proof {
        reveal_strlit("pid");
    }
    let mut m: StrMap<String> = StrMap::new();
    assert(text_map(m@) =~= Map::<Seq<char>, Seq<char>>::empty());
    match e {
        CollectionEvent::Process(p) => {
            insert_text(&mut m, "pid", decimal_string(p.pid as u64));
            match p.ppid {
                Some(pp) => insert_text(&mut m, "ppid", decimal_string(pp as u64)),
                None => {},
            }
            insert_text(&mut m, "name", p.name.clone());
            match &p.executable_path {
                Some(x) => insert_text(&mut m, "executable_path", x.clone()),
                None => {},
            }
            match &p.user_id {
                Some(u) => insert_text(&mut m, "user_id", u.clone()),
                None => {},
            }
            insert_text(&mut m, "accessible", bool_string(p.accessible));
            insert_text(&mut m, "file_exists", bool_string(p.file_exists));
        },
        CollectionEvent::TriggerRequest(t) => {
            insert_text(&mut m, "trigger_id", t.trigger_id.clone());
            insert_text(&mut m, "target_collector", t.target_collector.clone());
            insert_text(&mut m, "analysis_type", analysis_text(&t.analysis_type));
            insert_text(&mut m, "priority", priority_text(t.priority));
            match t.target_pid {
                Some(pid) => insert_text(&mut m, "target_pid", decimal_string(pid as u64)),
                None => {},
            }
            let ghost base = text_map(m@);
            let mut i: usize = 0;
            while i < t.metadata.len()
                invariant
                    i <= t.metadata.keys().len(),
                    text_map(m@) == extend_upto(base, t.metadata, i as nat),
                decreases t.metadata.keys().len() - i,
            {
                let k = t.metadata.key_at(i);
                let v = t.metadata.value_at(i);
                insert_text(&mut m, k.as_str(), v.clone());
                i = i + 1;
            }
        },
        _ => {},
    }
    m
}

/// The capabilities of an event's source that capability filters look at.
pub open spec fn event_capabilities(e: CollectionEvent) -> Map<Seq<char>, Seq<char>> {
    match e {
        CollectionEvent::Process(_) => map![
            "domain"@ => "process"@,
            "realtime"@ => "true"@,
            "system_wide"@ => "true"@,
        ],
        CollectionEvent::Network(_) => map!["domain"@ => "network"@, "realtime"@ => "true"@],
        CollectionEvent::Filesystem(_) => map!["domain"@ => "filesystem"@, "realtime"@ => "true"@],
        CollectionEvent::Performance(_) => map!["domain"@ => "performance"@, "realtime"@ => "false"@],
        CollectionEvent::TriggerRequest(_) => map!["domain"@ => "control"@, "realtime"@ => "true"@],
    }
}

/// The capabilities of an event's source that capability filters look at.
pub fn extract_event_capabilities(e: &CollectionEvent) -> (m: StrMap<String>)
    ensures
        text_map(m@) == event_capabilities(*e),
{
    let mut m: StrMap<String> = StrMap::new();
    assert(text_map(m@) =~= Map::<Seq<char>, Seq<char>>::empty());
    match e {
        CollectionEvent::Process(_) => {
            insert_text(&mut m, "domain", String::from_str("process"));
            insert_text(&mut m, "realtime", String::from_str("true"));
            insert_text(&mut m, "system_wide", String::from_str("true"));
        },
        CollectionEvent::Network(_) => {
            insert_text(&mut m, "domain", String::from_str("network"));
            insert_text(&mut m, "realtime", String::from_str("true"));
        },
        CollectionEvent::Filesystem(_) => {
            insert_text(&mut m, "domain", String::from_str("filesystem"));
            insert_text(&mut m, "realtime", String::from_str("true"));
        },
        CollectionEvent::Performance(_) => {
            insert_text(&mut m, "domain", String::from_str("performance"));
            insert_text(&mut m, "realtime", String::from_str("false"));
        },
        CollectionEvent::TriggerRequest(_) => {
            insert_text(&mut m, "domain", String::from_str("control"));
            insert_text(&mut m, "realtime", String::from_str("true"));
        },
    }
    proof {
        assert(text_map(m@) =~= event_capabilities(*e));
    }
    m
}

/// Whether an event passes broker-level filters: a message type filter must list
/// `Event`, a domain filter the event's topic domain, and the event's capabilities must
/// include every capability filter entry.
pub open spec fn eventbus_filters_pass(e: CollectionEvent, f: EventBusFilters) -> bool {
    &&& f.message_types@.len() > 0 ==> listed(f.message_types@, "Event"@)
    &&& f.topic_domains@.len() > 0 ==> listed(f.topic_domains@, event_domain(e))
    &&& entries_match(event_capabilities(e), f.capability_filters)
}

/// Whether every entry of `filter` is present in `m` with the same text.
fn entries_included(m: &StrMap<String>, filter: &StrMap<String>) -> (r: bool)
    ensures
        r == entries_match(text_map(m@), *filter),
{
    let r = map_includes(m, filter);
    proof {
        if r {
            assert forall|k: Seq<char>| #[trigger] filter@.contains_key(k) implies text_map(m@).contains_key(k) && text_map(m@)[k] == filter@[k]@ by {
                assert(m@.contains_key(k));
            }
        } else {
            let k = choose|k: Seq<char>| #[trigger] filter@.contains_key(k) && !(m@.contains_key(k) && m@[k]@ == filter@[k]@);
            assert(filter@.contains_key(k));
        }
    }
    r
}

/// Applies broker-level filters to an event.
pub fn apply_eventbus_filters(e: &CollectionEvent, f: &EventBusFilters) -> (r: bool)
    ensures
        r == eventbus_filters_pass(*e, *f),
{
    if f.message_types.len() > 0 && !str_in_list("Event", &f.message_types) {
        return false;
    }
    if f.topic_domains.len() > 0 && !str_in_list(event_topic_domain(e), &f.topic_domains) {
        return false;
    }
    if f.capability_filters.len() > 0 {
        let caps = extract_event_capabilities(e);
        return entries_included(&caps, &f.capability_filters);
    }
    proof {
        use_type_invariant(&f.capability_filters);
        f.capability_filters.lemma_keys();
        assert(f.capability_filters@.dom() =~= Set::<Seq<char>>::empty());
    }
    true
}

/// Whether an event passes an event filter: when given, its type must be listed, it must
/// be a process event with a listed pid, its priority must reach the minimum, its metadata
/// must include every metadata filter entry, its source collector must be listed, and it
/// must pass the broker-level filters.
pub open spec fn event_passes(e: CollectionEvent, f: EventFilter) -> bool {
    &&& f.event_types@.len() > 0 ==> listed(f.event_types@, event_type_name(e))
    &&& f.pids@.len() > 0 ==> (e matches CollectionEvent::Process(p) && f.pids@.contains(p.pid))
    &&& f.min_priority matches Some(mp) ==> event_priority(e) >= mp
    &&& entries_match(event_metadata(e), f.metadata_filters)
    &&& f.source_collectors@.len() > 0 ==> listed(f.source_collectors@, source_collector(e))
    &&& f.eventbus_filters matches Some(ef) ==> eventbus_filters_pass(e, ef)
}

/// Applies an event filter to an event.
pub fn apply_event_filter(e: &CollectionEvent, f: &EventFilter) -> (r: bool)
    ensures
        r == event_passes(*e, *f),
{
    if f.event_types.len() > 0 && !str_in_list(e.event_type(), &f.event_types) {
        return false;
    }
    if f.pids.len() > 0 {
        match e {
            CollectionEvent::Process(p) => {
                if !u32_in(&f.pids, p.pid) {
                    return false;
                }
            },
            _ => {
                return false;
            },
        }
    }
    match f.min_priority {
        Some(mp) => {
            if extract_event_priority(e) < mp {
                return false;
            }
        },
        None => {},
    }
    if f.metadata_filters.len() > 0 {
        let meta = extract_event_metadata(e);
        if !entries_included(&meta, &f.metadata_filters) {
            return false;
        }
    } else {
        proof {
            use_type_invariant(&f.metadata_filters);
            f.metadata_filters.lemma_keys();
            assert(f.metadata_filters@.dom() =~= Set::<Seq<char>>::empty());
        }
    }
    if f.source_collectors.len() > 0 && !str_in_list(extract_source_collector(e), &f.source_collectors) {
        return false;
    }
    match &f.eventbus_filters {
        Some(ef) => apply_eventbus_filters(e, ef),
        None => true,
    }
}

/// A filter listing pids lets through only process events of a listed pid: any other
/// event, and a process event of another pid, is filtered out.
pub proof fn law_pid_filter_restricts(e: CollectionEvent, f: EventFilter)
    ensures
        event_passes(e, f) && f.pids@.len() > 0 ==> (e matches CollectionEvent::Process(p) && f.pids@.contains(
            p.pid,
        )),
{
}

/// Every part of a filter restricts what passes: a listed event type, a minimum priority,
/// listed source collectors and required metadata entries each hold of every event that
/// passes.
pub proof fn law_filter_parts_restrict(e: CollectionEvent, f: EventFilter)
    ensures
        event_passes(e, f) && f.event_types@.len() > 0 ==> listed(f.event_types@, event_type_name(e)),
        event_passes(e, f) ==> (f.min_priority matches Some(mp) ==> event_priority(e) >= mp),
        event_passes(e, f) && f.source_collectors@.len() > 0 ==> listed(f.source_collectors@, source_collector(e)),
        event_passes(e, f) ==> forall|k: Seq<char>|
            #[trigger] f.metadata_filters@.contains_key(k) ==> event_metadata(e).contains_key(k)
                && event_metadata(e)[k] == f.metadata_filters@[k]@,
{
}

/// A correlation filter restricts by every criterion it names: the correlation id and the
/// root id must be the ones asked for, every required tag must be present with its value,
/// and with process ids listed the `pid` tag must name one of them.
pub proof fn law_correlation_filter_restricts(m: CorrelationMetadata, f: CorrelationFilter, now: u64)
    ensures
        correlation_passes(m, f, now) ==> (f.correlation_id matches Some(c) ==> m.correlation_id@ == c@),
        correlation_passes(m, f, now) ==> (f.root_correlation_id matches Some(r) ==> m.root_correlation_id@ == r@),
        correlation_passes(m, f, now) ==> forall|k: Seq<char>|
            #[trigger] f.correlation_tags@.contains_key(k) ==> m.correlation_tags@.contains_key(k)
                && m.correlation_tags@[k]@ == f.correlation_tags@[k]@,
        correlation_passes(m, f, now) && f.process_ids@.len() > 0 ==> (m.correlation_tags@.contains_key("pid"@)
            && exists|pid: u32| parse_u32_spec(m.correlation_tags@["pid"@]@) == Some(pid) && #[trigger] f.process_ids@.contains(pid)),
{
}

} // verus!
