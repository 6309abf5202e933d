//! Decisions of the high-performance event bus: which subscribers an event is routed
//! to (by capability, event filter and correlation id), how a blocking delivery retries
//! with exponential backoff, and the counters. Channels and the routing thread belong to
//! the caller. Durations are in milliseconds (microseconds for the retry backoff).

use crate::event::{event_type_name, CollectionEvent, TriggerPriority};
use crate::source::SourceCaps;
use crate::strmap::StrMap;
use crate::support::{decimal_string, new_uuid_string, unix_now_millis};
use crate::text::{str_eq, str_in_list};
use crate::topic::listed;
use crate::trigger_queue::sat_inc;
use vstd::prelude::*;

verus! {

/// Backpressure handling strategies.
#[derive(Debug, Clone, Copy, PartialEq, Eq, Structural)]
pub enum BackpressureStrategy {
    /// Block publishers when ring buffer is full
    Blocking,
    /// Drop newest events when ring buffer is full
    DropNewest,
}

/// High-performance event bus configuration.
#[derive(Debug, Clone, Copy, PartialEq, Eq)]
pub struct HighPerformanceEventBusConfig {
    /// Maximum number of events in the broadcast channel buffer
    pub channel_capacity: usize,
    /// Maximum number of events in each subscriber's channel buffer
    pub per_subscriber_channel_capacity: usize,
    /// Maximum number of concurrent subscribers
    pub max_subscribers: usize,
    /// Backpressure strategy when subscribers are slow
    pub backpressure_strategy: BackpressureStrategy,
    /// Enable event persistence for replay
    pub enable_persistence: bool,
    /// Maximum number of persisted events
    pub max_persisted_events: usize,
    /// Event correlation tracking
    pub enable_correlation_tracking: bool,
    /// Timeout for publish operations when the channel is full (milliseconds)
    pub publish_timeout_ms: u64,
    /// Maximum number of retries for blocking backpressure
    pub max_blocking_retries: usize,
    /// Maximum backoff delay for blocking backpressure (microseconds)
    pub blocking_backoff_max_delay_us: u64,
}

impl Default for HighPerformanceEventBusConfig {
    fn default() -> (c: HighPerformanceEventBusConfig)
        ensures
            c.channel_capacity == 1024 * 1024,
            c.per_subscriber_channel_capacity == 1024,
            c.max_subscribers == 1000,
            c.backpressure_strategy == BackpressureStrategy::Blocking,
            !c.enable_persistence,
            c.max_persisted_events == 10000,
            c.enable_correlation_tracking,
            c.publish_timeout_ms == 5000,
            c.max_blocking_retries == 1000,
            c.blocking_backoff_max_delay_us == 100_000,
    {
        HighPerformanceEventBusConfig {
            channel_capacity: 1024 * 1024,
            per_subscriber_channel_capacity: 1024,
            max_subscribers: 1000,
            backpressure_strategy: BackpressureStrategy::Blocking,
            enable_persistence: false,
            max_persisted_events: 10000,
            enable_correlation_tracking: true,
            publish_timeout_ms: 5000,
            max_blocking_retries: 1000,
            blocking_backoff_max_delay_us: 100_000,
        }
    }
}

/// Event filtering criteria.
#[derive(Debug)]
pub struct EventFilter {
    /// Event types to include
    pub event_types: Vec<String>,
    /// Minimum priority level
    pub min_priority: Option<u8>,
    /// Source filtering (not applied: events carry no source)
    pub source_filter: Option<String>,
}

/// Event subscription configuration.
#[derive(Debug)]
pub struct EventSubscription {
    /// Unique identifier for the subscriber
    pub subscriber_id: String,
    /// Capabilities this subscriber is interested in
    pub capabilities: SourceCaps,
    /// Optional event filtering criteria
    pub event_filter: Option<EventFilter>,
    /// Optional correlation ID filtering
    pub correlation_filter: Option<String>,
    /// Backpressure strategy for this subscriber
    pub backpressure_strategy: BackpressureStrategy,
}

/// The capability bit an event needs: process, network, filesystem or performance
/// monitoring for those events, real-time streaming for trigger requests.
pub open spec fn required_capability_bits(e: CollectionEvent) -> u32 {
    match e {
        CollectionEvent::Process(_) => 1,
        CollectionEvent::Network(_) => 2,
        CollectionEvent::Filesystem(_) => 4,
        CollectionEvent::Performance(_) => 8,
        CollectionEvent::TriggerRequest(_) => 16,
    }
}

/// Whether a subscriber with capabilities `c` takes event `e`.
pub open spec fn capability_matches(e: CollectionEvent, c: SourceCaps) -> bool {
    c.bits & required_capability_bits(e) == required_capability_bits(e)
}

/// Whether a subscriber with capabilities `c` takes event `e`.
pub fn matches_capabilities(e: &CollectionEvent, c: &SourceCaps) -> (r: bool)
    ensures
        r == capability_matches(*e, *c),
{
    match e {
        CollectionEvent::Process(_) => c.contains(SourceCaps::process()),
        CollectionEvent::Network(_) => c.contains(SourceCaps::network()),
        CollectionEvent::Filesystem(_) => c.contains(SourceCaps::filesystem()),
        CollectionEvent::Performance(_) => c.contains(SourceCaps::performance()),
        CollectionEvent::TriggerRequest(_) => c.contains(SourceCaps::realtime()),
    }
}

/// An event as the high-performance bus carries it to its subscribers.
#[derive(Debug)]
pub struct BusEvent {
    /// Unique event identifier
    pub event_id: String,
    /// The collection event
    pub event: CollectionEvent,
    /// Correlation id for event chaining
    pub correlation_id: String,
    /// Publisher identifier
    pub publisher_id: String,
    /// When the event was made (Unix milliseconds)
    pub timestamp_ms: u64,
    /// Event priority (higher is more important)
    pub priority: u8,
}

/// Wraps a collection event for the bus: a fresh identifier of 36 characters, published by
/// the bus itself at the current time, with the default priority 5. The time read is not
/// stated.
pub fn create_bus_event(event: CollectionEvent, correlation_id: String) -> (b: BusEvent)
    ensures
        b.event_id@.len() == 36,
        b.event == event,
        b.correlation_id == correlation_id,
        b.publisher_id@ == "high-performance-bus"@,
        b.priority == 5,
{
    BusEvent {
        event_id: new_uuid_string(),
        event,
        correlation_id,
        publisher_id: String::from_str("high-performance-bus"),
        timestamp_ms: unix_now_millis(),
        priority: 5,
    }
}

/// The priority of an event on this bus: a trigger request's level (1 to 4), otherwise 2.
pub open spec fn bus_priority(e: CollectionEvent) -> u8 {
    match e {
        CollectionEvent::TriggerRequest(t) => match t.priority {
            TriggerPriority::Low => 1,
            TriggerPriority::Normal => 2,
            TriggerPriority::High => 3,
            TriggerPriority::Critical => 4,
        },
        _ => 2,
    }
}

/// Whether an event passes a filter: its type listed (when types are given) and its
/// priority at least the minimum (when given).
pub open spec fn filter_matches(e: CollectionEvent, f: EventFilter) -> bool {
    &&& f.event_types@.len() > 0 ==> listed(f.event_types@, event_type_name(e))
    &&& f.min_priority matches Some(mp) ==> bus_priority(e) >= mp
}

/// Whether an event passes a filter.
pub fn matches_filter(e: &CollectionEvent, f: &EventFilter) -> (r: bool)
    ensures
        r == filter_matches(*e, *f),
{
    if f.event_types.len() > 0 && !str_in_list(e.event_type(), &f.event_types) {
        return false;
    }
    match f.min_priority {
        Some(mp) => {
            let p: u8 = match e {
                CollectionEvent::TriggerRequest(t) => match t.priority {
                    TriggerPriority::Low => 1,
                    TriggerPriority::Normal => 2,
                    TriggerPriority::High => 3,
                    TriggerPriority::Critical => 4,
                },
                _ => 2,
            };
            p >= mp
        },
        None => true,
    }
}

/// Whether an event with correlation id `cid` is routed to subscription `s`.
pub open spec fn routes_to(s: EventSubscription, e: CollectionEvent, cid: Seq<char>) -> bool {
    &&& capability_matches(e, s.capabilities)
    &&& s.event_filter matches Some(f) ==> filter_matches(e, f)
    &&& s.correlation_filter matches Some(c) ==> cid == c@
}

/// Whether an event with correlation id `cid` is routed to subscription `s`.
pub fn should_route(s: &EventSubscription, e: &CollectionEvent, cid: &str) -> (r: bool)
    ensures
        r == routes_to(*s, *e, cid@),
{
    if !matches_capabilities(e, &s.capabilities) {
        return false;
    }
    match &s.event_filter {
        Some(f) => {
            if !matches_filter(e, f) {
                return false;
            }
        },
        None => {},
    }
    match &s.correlation_filter {
        Some(c) => str_eq(cid, c.as_str()),
        None => true,
    }
}

/// The result of one attempt to hand an event to a subscriber channel.
#[derive(Debug, Clone, Copy, PartialEq, Eq, Structural)]
pub enum SendOutcome {
    /// The event was queued
    Sent,
    /// The channel is full
    Full,
    /// The receiving end is gone
    Disconnected,
}

/// What the router does next with a delivery.
#[derive(Debug, Clone, Copy, PartialEq, Eq, Structural)]
pub enum DeliveryStep {
    /// The event was delivered
    Delivered,
    /// The delivery is abandoned, counting this many drops
    Dropped(u64),
    /// Sleep this many microseconds, then try again with the next delay
    RetryAfter { sleep_us: u64, next_delay_us: u64 },
    /// Sleep this many microseconds, then give up counting one drop
    GiveUpAfter { sleep_us: u64 },
}

/// The next backoff delay: twice the current one, capped at `max_us`.
pub open spec fn next_backoff(delay_us: u64, max_us: u64) -> u64 {
    if delay_us * 2 <= max_us {
        (delay_us * 2) as u64
    } else {
        max_us
    }
}

/// The step of a blocking delivery after attempt number `retries + 1` (with `delay_us`
/// as the current backoff). A full channel is retried after sleeping, up to
/// `max_retries` attempts; during shutdown, or once the receiver is gone, the event is
/// abandoned, counting one drop.
pub open spec fn blocking_step_spec(
    retries: usize,
    delay_us: u64,
    outcome: SendOutcome,
    shutdown: bool,
    max_retries: usize,
    max_delay_us: u64,
) -> DeliveryStep {
    match outcome {
        SendOutcome::Sent => DeliveryStep::Delivered,
        SendOutcome::Disconnected => DeliveryStep::Dropped(1),
        SendOutcome::Full => if shutdown {
            DeliveryStep::Dropped(1)
        } else if retries + 1 >= max_retries {
            DeliveryStep::GiveUpAfter { sleep_us: delay_us }
        } else {
            DeliveryStep::RetryAfter { sleep_us: delay_us, next_delay_us: next_backoff(delay_us, max_delay_us) }
        },
    }
}

/// The step of a blocking delivery after an attempt.
pub fn blocking_step(
    retries: usize,
    delay_us: u64,
    outcome: SendOutcome,
    shutdown: bool,
    max_retries: usize,
    max_delay_us: u64,
) -> (s: DeliveryStep)
    ensures
        s == blocking_step_spec(retries, delay_us, outcome, shutdown, max_retries, max_delay_us),
{
    match outcome {
        SendOutcome::Sent => DeliveryStep::Delivered,
        SendOutcome::Disconnected => DeliveryStep::Dropped(1),
        SendOutcome::Full => {
            if shutdown {
                DeliveryStep::Dropped(1)
            } else if retries >= max_retries || max_retries - retries <= 1 {
                DeliveryStep::GiveUpAfter { sleep_us: delay_us }
            } else {
                let next = if delay_us <= max_delay_us / 2 {
                    delay_us * 2
                } else {
                    max_delay_us
                };
                DeliveryStep::RetryAfter { sleep_us: delay_us, next_delay_us: next }
            }
        },
    }
}

/// The step of a drop-newest delivery after its single attempt: delivered, or one drop.
pub fn drop_newest_step(outcome: SendOutcome) -> (s: DeliveryStep)
    ensures
        outcome == SendOutcome::Sent ==> s == DeliveryStep::Delivered,
        outcome != SendOutcome::Sent ==> s == DeliveryStep::Dropped(1),
{
    match outcome {
        SendOutcome::Sent => DeliveryStep::Delivered,
        _ => DeliveryStep::Dropped(1),
    }
}

/// The backoff never exceeds its cap once the first delay is within it.
pub proof fn law_backoff_capped(delay_us: u64, max_us: u64)
    requires
        delay_us <= max_us,
    ensures
        next_backoff(delay_us, max_us) <= max_us,
        next_backoff(delay_us, max_us) >= delay_us,
{
}

/// Why a subscription is refused.
#[derive(Debug, Clone, PartialEq, Eq)]
pub enum HpBusError {
    /// The bus already has its maximum number of subscribers
    SubscriberLimit(usize),
    /// A subscriber with this id exists
    DuplicateSubscriber(String),
}

impl HpBusError {
    /// A human-readable description.
    pub fn to_string(&self) -> (s: String)
        ensures
            self matches HpBusError::SubscriberLimit(max) ==> s@ == "Maximum number of subscribers ("@
                + crate::support::decimal(*max as nat) + ") reached"@,
            self matches HpBusError::DuplicateSubscriber(id) ==> s@ == "Subscriber '"@ + id@ + "' already exists"@,
    {
        match self {
            HpBusError::SubscriberLimit(max) => String::from_str("Maximum number of subscribers (").concat(
                decimal_string(*max as u64).as_str(),
            ).concat(") reached"),
            HpBusError::DuplicateSubscriber(id) => String::from_str("Subscriber '").concat(id.as_str()).concat(
                "' already exists",
            ),
        }
    }
}

/// Event bus statistics (the counters; latency, memory and update time are kept by the
/// caller).
#[derive(Debug, Clone, Copy, PartialEq, Eq)]
pub struct HpBusCounters {
    /// Total events published
    pub events_published: u64,
    /// Total events delivered to subscribers
    pub events_delivered: u64,
    /// Total events dropped due to backpressure
    pub events_dropped: u64,
    /// Current number of active subscribers
    pub active_subscribers: usize,
}

/// The subscriber registry and counters of a high-performance event bus.
#[derive(Debug)]
pub struct HpRouter {
    config: HighPerformanceEventBusConfig,
    subscribers: StrMap<EventSubscription>,
    events_published: u64,
    events_delivered: u64,
    events_dropped: u64,
}

/// `x + n`, saturating at the largest `u64`.
pub open spec fn sat_add(x: u64, n: u64) -> u64 {
    if x + n <= u64::MAX {
        (x + n) as u64
    } else {
        u64::MAX
    }
}

/// How many of the outcomes are deliveries.
pub open spec fn delivered_count(s: Seq<bool>) -> nat
    decreases s.len(),
{
    if s.len() == 0 {
        0
    } else {
        delivered_count(s.drop_last()) + if s.last() { 1nat } else { 0nat }
    }
}

/// Whether `new` is `old` after recording the `outcomes` of one routed event: each
/// delivery counts as delivered and each other outcome as dropped (both saturating), and
/// nothing else changes.
pub open spec fn deliveries_recorded(old: HpRouter, new: HpRouter, outcomes: Seq<bool>) -> bool {
    let d = delivered_count(outcomes);
    &&& d <= outcomes.len()
    &&& new.counters() == (
        old.counters().0,
        sat_add(old.counters().1, d as u64),
        sat_add(old.counters().2, (outcomes.len() - d) as u64),
    )
    &&& new.subscribers() == old.subscribers()
    &&& new.config() == old.config()
}

/// The outcome a final delivery step gives a subscriber: delivered, or dropped (given up
/// after its retries or abandoned); `None` while the delivery is still being retried.
pub fn delivery_result(step: DeliveryStep) -> (r: Option<bool>)
    ensures
        step is Delivered ==> r == Some(true),
        step is Dropped || step is GiveUpAfter ==> r == Some(false),
        step is RetryAfter ==> r is None,
{
    match step {
        DeliveryStep::Delivered => Some(true),
        DeliveryStep::Dropped(_) => Some(false),
        DeliveryStep::GiveUpAfter { .. } => Some(false),
        DeliveryStep::RetryAfter { .. } => None,
    }
}

impl HpRouter {
    /// The configuration.
    pub closed spec fn config(&self) -> HighPerformanceEventBusConfig {
        self.config
    }

    /// The subscriptions, by subscriber id.
    pub closed spec fn subscribers(&self) -> StrMap<EventSubscription> {
        self.subscribers
    }

    /// The counters.
    pub closed spec fn counters(&self) -> (u64, u64, u64) {
        (self.events_published, self.events_delivered, self.events_dropped)
    }

    /// A bus with no subscribers and nothing counted.
    pub fn new(config: HighPerformanceEventBusConfig) -> (r: Self)
        ensures
            r.config() == config,
            r.subscribers()@ == Map::<Seq<char>, EventSubscription>::empty(),
            r.subscribers().keys().len() == 0,
            r.counters() == (0u64, 0u64, 0u64),
    {
        HpRouter {
            config,
            subscribers: StrMap::new(),
            events_published: 0,
            events_delivered: 0,
            events_dropped: 0,
        }
    }

    /// Registers a subscription, unless the bus is full or the id is taken.
    pub fn subscribe(&mut self, subscription: EventSubscription) -> (r: Result<(), HpBusError>)
        ensures
            old(self).subscribers().keys().len() >= old(self).config().max_subscribers ==> r
                == Err::<(), HpBusError>(HpBusError::SubscriberLimit(old(self).config().max_subscribers)),
            old(self).subscribers().keys().len() < old(self).config().max_subscribers
                && old(self).subscribers()@.contains_key(subscription.subscriber_id@) ==> r
                == Err::<(), HpBusError>(HpBusError::DuplicateSubscriber(subscription.subscriber_id)),
            r is Err ==> final(self).subscribers() == old(self).subscribers(),
            old(self).subscribers().keys().len() < old(self).config().max_subscribers
                && !old(self).subscribers()@.contains_key(subscription.subscriber_id@) ==> r is Ok
                && final(self).subscribers()@ == old(self).subscribers()@.insert(
                subscription.subscriber_id@,
                subscription,
            ) && final(self).subscribers().keys() == old(self).subscribers().keys().push(
                subscription.subscriber_id@,
            ),
            final(self).config() == old(self).config(),
            final(self).counters() == old(self).counters(),
    {
        if self.subscribers.len() >= self.config.max_subscribers {
            return Err(HpBusError::SubscriberLimit(self.config.max_subscribers));
        }
        if self.subscribers.contains_key(subscription.subscriber_id.as_str()) {
            return Err(HpBusError::DuplicateSubscriber(subscription.subscriber_id));
        }
        let id = subscription.subscriber_id.clone();
        self.subscribers.insert(id, subscription);
        Ok(())
    }

    /// The ids, in registration order, of the subscribers an event with correlation id
    /// `cid` is routed to.
    pub fn route(&self, e: &CollectionEvent, cid: &str) -> (r: Vec<String>)
        ensures
            r@.len() == route_upto(self.subscribers(), *e, cid@, self.subscribers().keys().len()).len(),
            forall|j: int|
                0 <= j < r@.len() ==> (#[trigger] r@[j])@ == self.subscribers().keys()[route_upto(
                    self.subscribers(),
                    *e,
                    cid@,
                    self.subscribers().keys().len(),
                )[j]],
    {
        let ghost subs = self.subscribers;
        let mut out: Vec<String> = Vec::new();
        let mut i: usize = 0;
        while i < self.subscribers.len()
            invariant
                subs == self.subscribers,
                i <= subs.keys().len(),
                out@.len() == route_upto(subs, *e, cid@, i as nat).len(),
                forall|j: int|
                    0 <= j < out@.len() ==> (#[trigger] out@[j])@ == subs.keys()[route_upto(subs, *e, cid@, i as nat)[j]],
            decreases subs.keys().len() - i,
        {
            if should_route(self.subscribers.value_at(i), e, cid) {
                out.push(self.subscribers.key_at(i).clone());
            }
            i = i + 1;
        }
        out
    }

    /// Records a published event.
    pub fn record_published(&mut self)
        ensures
            final(self).counters() == (sat_inc(old(self).counters().0), old(self).counters().1, old(
                self,
            ).counters().2),
            final(self).subscribers() == old(self).subscribers(),
            final(self).config() == old(self).config(),
    {
        self.events_published = self.events_published.saturating_add(1);
    }

    /// Records the deliveries and drops of one routed event.
    pub fn record_routing(&mut self, delivered: u64, dropped: u64)
        ensures
            final(self).counters() == (old(self).counters().0, sat_add(old(self).counters().1, delivered), sat_add(
                old(self).counters().2,
                dropped,
            )),
            final(self).subscribers() == old(self).subscribers(),
            final(self).config() == old(self).config(),
    {
        self.events_delivered = self.events_delivered.saturating_add(delivered);
        self.events_dropped = self.events_dropped.saturating_add(dropped);
    }

    /// Records how one routed event fared with each subscriber it was routed to: `true` for
    /// a subscriber whose channel took it, `false` for one that dropped it.
    pub fn record_deliveries(&mut self, outcomes: &Vec<bool>)
        ensures
            deliveries_recorded(*old(self), *final(self), outcomes@),
    {
        let mut d: usize = 0;
        let mut i: usize = 0;
        while i < outcomes.len()
            invariant
                i <= outcomes@.len(),
                d as nat == delivered_count(outcomes@.take(i as int)),
                d <= i,
            decreases outcomes@.len() - i,
        {
            proof {
                assert(outcomes@.take(i as int + 1).drop_last() =~= outcomes@.take(i as int));
            }
            if outcomes[i] {
                d = d + 1;
            }
            i = i + 1;
        }
        proof {
            assert(outcomes@.take(i as int) =~= outcomes@);
        }
        let x = outcomes.len() - d;
        self.events_delivered = self.events_delivered.saturating_add(d as u64);
        self.events_dropped = self.events_dropped.saturating_add(x as u64);
    }

    /// The counters and the number of subscribers.
    pub fn get_statistics(&self) -> (c: HpBusCounters)
        ensures
            c == (HpBusCounters {
                events_published: self.counters().0,
                events_delivered: self.counters().1,
                events_dropped: self.counters().2,
                active_subscribers: self.subscribers().keys().len() as usize,
            }),
    {
        HpBusCounters {
            events_published: self.events_published,
            events_delivered: self.events_delivered,
            events_dropped: self.events_dropped,
            active_subscribers: self.subscribers.len(),
        }
    }
}

/// The positions, in order, of the first `n` subscriptions of `subs` that an event with
/// correlation id `cid` is routed to.
pub open spec fn route_upto(
    subs: StrMap<EventSubscription>,
    e: CollectionEvent,
    cid: Seq<char>,
    n: nat,
) -> Seq<int>
    decreases n,
{
    if n == 0 {
        Seq::empty()
    } else {
        let r = route_upto(subs, e, cid, (n - 1) as nat);
        if routes_to(subs.value_at_spec(n - 1), e, cid) {
            r.push(n - 1)
        } else {
            r
        }
    }
}

/// Raises a flag when the routing loop ends, however it ends.
#[derive(Debug)]
pub struct RoutingFinishedGuard {
    flag: std::sync::Arc<std::sync::atomic::AtomicBool>,
}

/// Sets an atomic flag with release ordering.
///
/// Trusted: calls `std::sync::atomic::AtomicBool::store`, which panics only for acquire
/// orderings, so it does not unwind here. Nothing is claimed of the flag's value: it is
/// shared with other threads.
#[verifier::external_body]
fn raise_flag(flag: &std::sync::atomic::AtomicBool)
    opens_invariants none
    no_unwind
{
    flag.store(true, std::sync::atomic::Ordering::Release);
}

impl RoutingFinishedGuard {
    /// The flag this guard raises.
    pub closed spec fn flag(&self) -> std::sync::Arc<std::sync::atomic::AtomicBool> {
        self.flag
    }

    /// A guard for `flag`.
    pub fn new(flag: std::sync::Arc<std::sync::atomic::AtomicBool>) -> (g: Self)
        ensures
            g.flag() == flag,
    {
        RoutingFinishedGuard { flag }
    }
}

impl Drop for RoutingFinishedGuard {
    fn drop(&mut self)
        opens_invariants none
        no_unwind
    {
        raise_flag(&self.flag);
    }
}

/// Routing one event counts every subscriber it is routed to exactly once: the delivered
/// and dropped counters together grow by the number of subscribers that accept the event
/// (its capabilities, event filter and correlation filter), when one outcome is recorded
/// for each of them and the counters do not saturate. The published count is unchanged.
pub proof fn law_routing_counts_each_accepting_subscriber(
    before: HpRouter,
    after: HpRouter,
    e: CollectionEvent,
    cid: Seq<char>,
    outcomes: Seq<bool>,
)
    requires
        outcomes.len() == route_upto(before.subscribers(), e, cid, before.subscribers().keys().len()).len(),
        deliveries_recorded(before, after, outcomes),
        before.counters().1 + before.counters().2 + outcomes.len() <= u64::MAX,
    ensures
        after.counters().1 + after.counters().2 == before.counters().1 + before.counters().2
            + route_upto(before.subscribers(), e, cid, before.subscribers().keys().len()).len(),
        after.counters().0 == before.counters().0,
{
}

/// Routing honours every part of a subscription: an event reaches a subscriber only if the
/// subscriber has the event's capability, the event passes the subscriber's event filter,
/// and, when the subscriber filters on a correlation id, the event carries exactly that id.
/// A subscriber with the capability and no filters receives every such event.
pub proof fn law_routing_respects_subscription(s: EventSubscription, e: CollectionEvent, cid: Seq<char>)
    ensures
        routes_to(s, e, cid) ==> capability_matches(e, s.capabilities),
        routes_to(s, e, cid) ==> (s.event_filter matches Some(f) ==> filter_matches(e, f)),
        routes_to(s, e, cid) ==> (s.correlation_filter matches Some(c) ==> cid == c@),
        capability_matches(e, s.capabilities) && s.event_filter is None && s.correlation_filter is None
            ==> routes_to(s, e, cid),
{
}

} // verus!
