//! Routing of the local event bus: the subscriber registry, which subscribers an event
//! is delivered to, and the publication counters. Channels belong to the caller, who
//! sends each event to the subscribers routed here and reports the failed deliveries.

use crate::bus_filters::{
    apply_correlation_filter, apply_event_filter, correlation_passes, event_passes, event_topic,
    generate_topic_for_event,
};
use crate::event::CollectionEvent;
use crate::event_bus::{
    CorrelationFilter, CorrelationMetadata, EventBusConfig, EventFilter, EventSubscription,
};
use crate::source::SourceCaps;
use crate::strmap::StrMap;
use crate::topic::{
    apply_topic_filter, listed, pattern_check, topic_filter_passes, topic_matches, topic_matches_pattern,
    validate_topic_patterns, TopicFilter, TopicPatternError,
};
use crate::trigger_queue::sat_inc;
use crate::support::decimal_string;
use vstd::prelude::*;

verus! {

/// What the bus keeps of a subscriber.
#[derive(Debug)]
pub struct SubscriberInfo {
    /// Subscriber identifier
    pub subscriber_id: String,
    /// Topic patterns the subscriber receives
    pub topic_patterns: Vec<String>,
    /// Whether the patterns use wildcards
    pub enable_wildcards: bool,
    /// Topic filter applied after pattern matching
    pub topic_filter: Option<TopicFilter>,
    /// Correlation filter
    pub correlation_filter: Option<CorrelationFilter>,
    /// Event filter
    pub event_filter: Option<EventFilter>,
}

/// Why a subscription is refused.
#[derive(Debug, Clone, PartialEq, Eq)]
pub enum BusError {
    /// The bus already has its maximum number of subscribers
    SubscriberLimit(usize),
    /// A topic pattern is malformed
    InvalidTopicPattern(TopicPatternError),
}

impl BusError {
    /// A human-readable description.
    pub fn to_string(&self) -> (s: String)
        ensures
            self matches BusError::SubscriberLimit(max) ==> s@ == "Maximum number of subscribers ("@
                + crate::support::decimal(*max as nat) + ") reached"@,
            self matches BusError::InvalidTopicPattern(e) ==> s@ == crate::topic::pattern_error_text(*e),
    {
        match self {
            BusError::SubscriberLimit(max) => String::from_str("Maximum number of subscribers (").concat(
                decimal_string(*max as u64).as_str(),
            ).concat(") reached"),
            BusError::InvalidTopicPattern(e) => e.to_string(),
        }
    }
}

/// The patterns a subscription without explicit patterns gets: one single-level pattern
/// per monitored domain (process, network, filesystem, performance), or every event
/// topic when it monitors none of them.
pub open spec fn default_patterns(c: SourceCaps) -> Seq<Seq<char>> {
    let p0 = if c.bits & 1 == 1 {
        seq!["events.process.+"@]
    } else {
        Seq::empty()
    };
    let p1 = if c.bits & 2 == 2 {
        p0.push("events.network.+"@)
    } else {
        p0
    };
    let p2 = if c.bits & 4 == 4 {
        p1.push("events.filesystem.+"@)
    } else {
        p1
    };
    let p3 = if c.bits & 8 == 8 {
        p2.push("events.performance.+"@)
    } else {
        p2
    };
    if p3.len() == 0 {
        seq!["events.#"@]
    } else {
        p3
    }
}

/// The texts of a sequence of strings.
pub open spec fn texts(s: Seq<String>) -> Seq<Seq<char>> {
    s.map_values(|x: String| x@)
}

fn push_text(v: &mut Vec<String>, s: &str)
    ensures
        texts(final(v)@) == texts(old(v)@).push(s@),
{
    v.push(String::from_str(s));
    assert(texts(v@) =~= texts(old(v)@).push(s@));
}

/// The patterns a subscription without explicit patterns gets.
pub fn default_topic_patterns(c: SourceCaps) -> (v: Vec<String>)
    ensures
        texts(v@) == default_patterns(c),
{
    let mut v: Vec<String> = Vec::new();
    assert(texts(v@) =~= Seq::<Seq<char>>::empty());
    if c.contains(SourceCaps::process()) {
        push_text(&mut v, "events.process.+");
    }
    if c.contains(SourceCaps::network()) {
        push_text(&mut v, "events.network.+");
    }
    if c.contains(SourceCaps::filesystem()) {
        push_text(&mut v, "events.filesystem.+");
    }
    if c.contains(SourceCaps::performance()) {
        push_text(&mut v, "events.performance.+");
    }
    if v.len() == 0 {
        push_text(&mut v, "events.#");
    }
    v
}

/// Whether some pattern of `patterns` matches `topic`.
pub open spec fn patterns_match(patterns: Seq<String>, topic: Seq<char>, wildcards: bool) -> bool {
    exists|i: int| 0 <= i < patterns.len() && topic_matches(topic, (#[trigger] patterns[i])@, wildcards)
}

/// Whether an event on `topic` with correlation `m` reaches subscriber `s` at `now`: one
/// of its patterns matches the topic and each of its filters that is present passes.
pub open spec fn delivers(
    s: SubscriberInfo,
    topic: Seq<char>,
    m: CorrelationMetadata,
    e: CollectionEvent,
    now: u64,
) -> bool {
    &&& patterns_match(s.topic_patterns@, topic, s.enable_wildcards)
    &&& s.topic_filter matches Some(f) ==> topic_filter_passes(topic, f)
    &&& s.correlation_filter matches Some(f) ==> correlation_passes(m, f, now)
    &&& s.event_filter matches Some(f) ==> event_passes(e, f)
}

/// Whether an event on `topic` reaches subscriber `s` at `now`.
pub fn should_deliver(
    s: &SubscriberInfo,
    topic: &str,
    m: &CorrelationMetadata,
    e: &CollectionEvent,
    now: u64,
) -> (r: bool)
    ensures
        r == delivers(*s, topic@, *m, *e, now),
{
    let mut matched = false;
    let mut i: usize = 0;
    while i < s.topic_patterns.len() && !matched
        invariant
            i <= s.topic_patterns@.len(),
            matched ==> patterns_match(s.topic_patterns@, topic@, s.enable_wildcards),
            !matched ==> forall|j: int|
                0 <= j < i ==> !topic_matches(topic@, (#[trigger] s.topic_patterns@[j])@, s.enable_wildcards),
        decreases s.topic_patterns@.len() - i + (if matched { 0int } else { 1int }),
    {
        if topic_matches_pattern(topic, s.topic_patterns[i].as_str(), s.enable_wildcards) {
            matched = true;
        } else {
            i = i + 1;
        }
    }
    if !matched {
        return false;
    }
    match &s.topic_filter {
        Some(f) => {
            if !apply_topic_filter(topic, f) {
                return false;
            }
        },
        None => {},
    }
    match &s.correlation_filter {
        Some(f) => {
            if !apply_correlation_filter(m, f, now) {
                return false;
            }
        },
        None => {},
    }
    match &s.event_filter {
        Some(f) => apply_event_filter(e, f),
        None => true,
    }
}

/// The positions, in order, of the first `n` subscribers of `subs` that an event on
/// `topic` reaches.
pub open spec fn selected_upto(
    subs: StrMap<SubscriberInfo>,
    topic: Seq<char>,
    m: CorrelationMetadata,
    e: CollectionEvent,
    now: u64,
    n: nat,
) -> Seq<int>
    decreases n,
{
    if n == 0 {
        Seq::empty()
    } else {
        let r = selected_upto(subs, topic, m, e, now, (n - 1) as nat);
        if delivers(subs.value_at_spec(n - 1), topic, m, e, now) {
            r.push(n - 1)
        } else {
            r
        }
    }
}

/// The selected positions are increasing, below `n`, and exactly those of the reached
/// subscribers.
proof fn lemma_selected(
    subs: StrMap<SubscriberInfo>,
    topic: Seq<char>,
    m: CorrelationMetadata,
    e: CollectionEvent,
    now: u64,
    n: nat,
)
    ensures
        forall|q: int|
            0 <= q < selected_upto(subs, topic, m, e, now, n).len() ==> 0 <= #[trigger] selected_upto(
                subs,
                topic,
                m,
                e,
                now,
                n,
            )[q] < n,
        forall|a: int, b: int|
            0 <= a < b < selected_upto(subs, topic, m, e, now, n).len() ==> #[trigger] selected_upto(
                subs,
                topic,
                m,
                e,
                now,
                n,
            )[a] < #[trigger] selected_upto(subs, topic, m, e, now, n)[b],
        forall|j: int|
            0 <= j < n ==> (#[trigger] selected_upto(subs, topic, m, e, now, n).contains(j) <==> delivers(
                subs.value_at_spec(j),
                topic,
                m,
                e,
                now,
            )),
    decreases n,
{
    if n > 0 {
        lemma_selected(subs, topic, m, e, now, (n - 1) as nat);
        let r = selected_upto(subs, topic, m, e, now, (n - 1) as nat);
        let t = selected_upto(subs, topic, m, e, now, n);
        assert forall|j: int| 0 <= j < n implies (#[trigger] t.contains(j) <==> delivers(
            subs.value_at_spec(j),
            topic,
            m,
            e,
            now,
        )) by {
            if j < n - 1 {
                if t.contains(j) {
                    let q = choose|q: int| 0 <= q < t.len() && t[q] == j;
                    if q < r.len() {
                        assert(r[q] == j);
                        assert(r.contains(j));
                    }
                }
                if r.contains(j) {
                    let q = choose|q: int| 0 <= q < r.len() && r[q] == j;
                    assert(t[q] == j);
                }
            } else {
                if delivers(subs.value_at_spec(j), topic, m, e, now) {
                    assert(t[t.len() - 1] == j);
                } else {
                    if t.contains(j) {
                        let q = choose|q: int| 0 <= q < t.len() && t[q] == j;
                        assert(r[q] < n - 1);
                    }
                }
            }
        }
    }
}

/// Publication counters of the bus.
#[derive(Debug, Clone, Copy, PartialEq, Eq)]
pub struct BusCounters {
    /// Total events published
    pub events_published: u64,
    /// Total deliveries made
    pub events_delivered: u64,
    /// Active subscribers
    pub active_subscribers: usize,
}

/// The subscriber registry and counters of a local event bus.
#[derive(Debug)]
pub struct BusRouter {
    config: EventBusConfig,
    subscribers: StrMap<SubscriberInfo>,
    events_published: u64,
    events_delivered: u64,
}

/// `x + n`, saturating at the largest `u64`.
pub open spec fn sat_add_u64(x: u64, n: u64) -> u64 {
    if x + n <= u64::MAX {
        (x + n) as u64
    } else {
        u64::MAX
    }
}

impl BusRouter {
    /// The configuration.
    pub closed spec fn config(&self) -> EventBusConfig {
        self.config
    }

    /// The subscribers, by id.
    pub closed spec fn subscribers(&self) -> StrMap<SubscriberInfo> {
        self.subscribers
    }

    /// Events published so far.
    pub closed spec fn published(&self) -> u64 {
        self.events_published
    }

    /// Deliveries made so far.
    pub closed spec fn delivered(&self) -> u64 {
        self.events_delivered
    }

    /// A bus with no subscribers and nothing published.
    pub fn new(config: EventBusConfig) -> (b: Self)
        ensures
            b.config() == config,
            b.subscribers()@ == Map::<Seq<char>, SubscriberInfo>::empty(),
            b.subscribers().keys().len() == 0,
            b.published() == 0,
            b.delivered() == 0,
    {
        BusRouter { config, subscribers: StrMap::new(), events_published: 0, events_delivered: 0 }
    }

    /// Registers a subscription (replacing one with the same id). It is refused when the
    /// bus already has its maximum number of subscribers, or when one of its explicit
    /// patterns is malformed; without explicit patterns it gets the default ones for its
    /// capabilities.
    pub fn subscribe(&mut self, subscription: EventSubscription) -> (r: Result<(), BusError>)
        ensures
            old(self).subscribers().keys().len() >= old(self).config().max_subscribers ==> r
                == Err::<(), BusError>(BusError::SubscriberLimit(old(self).config().max_subscribers))
                && final(self).subscribers() == old(self).subscribers(),
            old(self).subscribers().keys().len() < old(self).config().max_subscribers ==> match subscription.topic_patterns {
                Some(ps) => (forall|i: int| 0 <= i < ps@.len() ==> pattern_check((#[trigger] ps@[i])@) is Ok) ==> r is Ok,
                None => r is Ok,
            },
            old(self).subscribers().keys().len() < old(self).config().max_subscribers && (
            subscription.topic_patterns matches Some(ps) && exists|i: int|
                0 <= i < ps@.len() && pattern_check((#[trigger] ps@[i])@) is Err) ==> r matches Err(
                BusError::InvalidTopicPattern(_),
            ),
            r matches Err(BusError::InvalidTopicPattern(e)) ==> (subscription.topic_patterns matches Some(ps)
                && exists|i: int| 0 <= i < ps@.len() && pattern_check((#[trigger] ps@[i])@) == Err::<(), TopicPatternError>(e)
                && forall|j: int| 0 <= j < i ==> pattern_check((#[trigger] ps@[j])@) is Ok),
            r is Err ==> final(self).subscribers() == old(self).subscribers(),
            r is Ok ==> {
                let info = final(self).subscribers()@[subscription.subscriber_id@];
                &&& final(self).subscribers()@ == old(self).subscribers()@.insert(
                    subscription.subscriber_id@,
                    info,
                )
                &&& info.subscriber_id == subscription.subscriber_id
                &&& info.enable_wildcards == subscription.enable_wildcards
                &&& info.topic_filter == subscription.topic_filter
                &&& info.correlation_filter == subscription.correlation_filter
                &&& info.event_filter == subscription.event_filter
                &&& match subscription.topic_patterns {
                    Some(ps) => info.topic_patterns == ps,
                    None => texts(info.topic_patterns@) == default_patterns(subscription.capabilities),
                }
            },
            final(self).config() == old(self).config(),
            final(self).published() == old(self).published(),
            final(self).delivered() == old(self).delivered(),
    {
        if self.subscribers.len() >= self.config.max_subscribers {
            return Err(BusError::SubscriberLimit(self.config.max_subscribers));
        }
        let EventSubscription {
            subscriber_id,
            capabilities,
            event_filter,
            correlation_filter,
            topic_patterns,
            enable_wildcards,
            topic_filter,
        } = subscription;
        let patterns = match topic_patterns {
            Some(ps) => {
                match validate_topic_patterns(&ps) {
                    Err(e) => {
                        return Err(BusError::InvalidTopicPattern(e));
                    },
                    Ok(()) => {},
                }
                ps
            },
            None => default_topic_patterns(capabilities),
        };
        let info = SubscriberInfo {
            subscriber_id: subscriber_id.clone(),
            topic_patterns: patterns,
            enable_wildcards,
            topic_filter,
            correlation_filter,
            event_filter,
        };
        self.subscribers.insert(subscriber_id, info);
        Ok(())
    }

    /// Removes a subscriber (nothing happens for an unknown id).
    pub fn unsubscribe(&mut self, subscriber_id: &str)
        ensures
            final(self).subscribers()@ == old(self).subscribers()@.remove(subscriber_id@),
            final(self).config() == old(self).config(),
            final(self).published() == old(self).published(),
            final(self).delivered() == old(self).delivered(),
    {
        self.subscribers.remove(subscriber_id);
    }

    /// Removes every subscriber.
    pub fn clear(&mut self)
        ensures
            final(self).subscribers()@ == Map::<Seq<char>, SubscriberInfo>::empty(),
            final(self).subscribers().keys().len() == 0,
            final(self).config() == old(self).config(),
            final(self).published() == old(self).published(),
            final(self).delivered() == old(self).delivered(),
    {
        self.subscribers.clear();
    }

    /// The topic of `e` and the ids, in registration order, of the subscribers it reaches
    /// at `now`.
    pub fn route(&self, e: &CollectionEvent, m: &CorrelationMetadata, now: u64) -> (r: (
        &'static str,
        Vec<String>,
    ))
        ensures
            r.0@ == event_topic(*e),
            forall|k: Seq<char>|
                #[trigger] texts(r.1@).contains(k) <==> (self.subscribers()@.contains_key(k) && delivers(
                    self.subscribers()@[k],
                    event_topic(*e),
                    *m,
                    *e,
                    now,
                )),
            forall|i: int, j: int| 0 <= i < j < r.1@.len() ==> #[trigger] r.1@[i]@ != #[trigger] r.1@[j]@,
    {
        let topic = generate_topic_for_event(e);
        let ghost subs = self.subscribers;
        proof {
            use_type_invariant(&self.subscribers);
            subs.lemma_keys();
        }
        let mut out: Vec<String> = Vec::new();
        let ghost mut idx: Seq<int> = Seq::empty();
        let mut i: usize = 0;
        while i < self.subscribers.len()
            invariant
                subs == self.subscribers,
                subs.wf(),
                i <= subs.keys().len(),
                topic@ == event_topic(*e),
                out@.len() == idx.len(),
                forall|j: int| 0 <= j < idx.len() ==> 0 <= #[trigger] idx[j] < i && out@[j]@ == subs.keys()[idx[j]],
                forall|a: int, b: int| 0 <= a < b < idx.len() ==> #[trigger] idx[a] < #[trigger] idx[b],
                idx == selected_upto(subs, topic@, *m, *e, now, i as nat),
            decreases subs.keys().len() - i,
        {
            let info = self.subscribers.value_at(i);
            if should_deliver(info, topic, m, e, now) {
                out.push(self.subscribers.key_at(i).clone());
                proof {
                    idx = idx.push(i as int);
                }
            }
            i = i + 1;
        }
        proof {
            subs.lemma_keys();
            lemma_selected(subs, topic@, *m, *e, now, i as nat);
            assert forall|k: Seq<char>| #[trigger] texts(out@).contains(k) <==> (subs@.contains_key(k) && delivers(subs@[k], event_topic(*e), *m, *e, now)) by {
                if texts(out@).contains(k) {
                    let q = choose|q: int| 0 <= q < texts(out@).len() && texts(out@)[q] == k;
                    let j = idx[q];
                    assert(subs.keys()[j] == k);
                    assert(idx.contains(j));
                    assert(subs@.contains_key(subs.keys()[j]));
                    assert(subs@[subs.keys()[j]] == subs.value_at_spec(j));
                    assert(delivers(subs.value_at_spec(j), topic@, *m, *e, now));
                }
                if subs@.contains_key(k) && delivers(subs@[k], event_topic(*e), *m, *e, now) {
                    assert(subs.keys().contains(k));
                    let j = choose|j: int| 0 <= j < subs.keys().len() && subs.keys()[j] == k;
                    assert(subs@.contains_key(subs.keys()[j]));
                    assert(subs@[subs.keys()[j]] == subs.value_at_spec(j));
                    assert(delivers(subs.value_at_spec(j), topic@, *m, *e, now));
                    assert(idx.contains(j));
                    let q = choose|q: int| 0 <= q < idx.len() && idx[q] == j;
                    assert(texts(out@)[q] == k);
                }
            }
            assert forall|a: int, b: int| 0 <= a < b < out@.len() implies #[trigger] out@[a]@ != #[trigger] out@[b]@ by {
                assert(idx[a] < idx[b]);
            }
        }
        (topic, out)
    }

    /// Records a publication: one more event published, `delivered` more deliveries, and
    /// the subscribers whose delivery failed are removed.
    pub fn record_publish(&mut self, delivered: u64, failed: &Vec<String>)
        ensures
            final(self).published() == sat_inc(old(self).published()),
            final(self).delivered() == sat_add_u64(old(self).delivered(), delivered),
            forall|k: Seq<char>|
                #[trigger] final(self).subscribers()@.contains_key(k) <==> (old(self).subscribers()@.contains_key(k)
                    && !texts(failed@).contains(k)),
            forall|k: Seq<char>|
                #[trigger] final(self).subscribers()@.contains_key(k) ==> final(self).subscribers()@[k]
                    == old(self).subscribers()@[k],
            final(self).config() == old(self).config(),
    {
        let ghost s0 = self.subscribers@;
        let mut i: usize = 0;
        while i < failed.len()
            invariant
                i <= failed@.len(),
                forall|k: Seq<char>|
                    #[trigger] self.subscribers@.contains_key(k) <==> (s0.contains_key(k) && !texts(failed@).take(i as int).contains(k)),
                forall|k: Seq<char>| #[trigger] self.subscribers@.contains_key(k) ==> self.subscribers@[k] == s0[k],
                self.config == old(self).config,
                self.events_published == old(self).events_published,
                self.events_delivered == old(self).events_delivered,
            decreases failed@.len() - i,
        {
            self.subscribers.remove(failed[i].as_str());
            proof {
                let t = texts(failed@);
                assert(t.take(i as int + 1) =~= t.take(i as int).push(t[i as int]));
                assert forall|k: Seq<char>| #[trigger] self.subscribers@.contains_key(k) <==> (s0.contains_key(k) && !t.take(i as int + 1).contains(k)) by {
                    if k != t[i as int] {
                        if t.take(i as int + 1).contains(k) {
                            let m = choose|m: int| 0 <= m < i + 1 && #[trigger] t.take(i as int + 1)[m] == k;
                            assert(t.take(i as int)[m] == k);
                        }
                        if t.take(i as int).contains(k) {
                            let m = choose|m: int| 0 <= m < i && #[trigger] t.take(i as int)[m] == k;
                            assert(t.take(i as int + 1)[m] == k);
                        }
                    } else {
                        assert(t.take(i as int + 1)[i as int] == k);
                    }
                }
            }
            i = i + 1;
        }
        proof {
            assert(texts(failed@).take(failed@.len() as int) =~= texts(failed@));
        }
        self.events_published = self.events_published.saturating_add(1);
        self.events_delivered = self.events_delivered.saturating_add(delivered);
    }

    /// The publication counters and the number of subscribers.
    pub fn get_statistics(&self) -> (c: BusCounters)
        ensures
            c == (BusCounters {
                events_published: self.published(),
                events_delivered: self.delivered(),
                active_subscribers: self.subscribers().keys().len() as usize,
            }),
    {
        BusCounters {
            events_published: self.events_published,
            events_delivered: self.events_delivered,
            active_subscribers: self.subscribers.len(),
        }
    }
}

/// An event reaches a subscriber only through one of its topic patterns and only past
/// every filter the subscriber set: its topic is not excluded, its correlation metadata
/// passes the correlation filter, and the event passes the event filter. A subscriber with a
/// matching pattern and no filters receives it.
pub proof fn law_delivery_respects_subscriber(
    s: SubscriberInfo,
    topic: Seq<char>,
    m: CorrelationMetadata,
    e: CollectionEvent,
    now: u64,
)
    ensures
        delivers(s, topic, m, e, now) ==> exists|i: int|
            0 <= i < s.topic_patterns@.len() && topic_matches(topic, (#[trigger] s.topic_patterns@[i])@, s.enable_wildcards),
        delivers(s, topic, m, e, now) ==> (s.topic_filter matches Some(f) ==> !listed(f.exclude_topics@, topic)),
        delivers(s, topic, m, e, now) ==> (s.correlation_filter matches Some(f) ==> correlation_passes(m, f, now)),
        delivers(s, topic, m, e, now) ==> (s.event_filter matches Some(f) ==> event_passes(e, f)),
        patterns_match(s.topic_patterns@, topic, s.enable_wildcards) && s.topic_filter is None
            && s.correlation_filter is None && s.event_filter is None ==> delivers(s, topic, m, e, now),
{
}

} // verus!
