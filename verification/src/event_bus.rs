//! Event bus configuration, subscription, filter and correlation types.
//!
//! Correlation metadata travels with every published event: correlation, parent and
//! root ids, tracing ids, a sequence number, a workflow stage, free-form tags, and the
//! broker-level record of topic chains, collector coordination and per-subscriber
//! delivery.

use crate::source::SourceCaps;
use crate::strmap::StrMap;
use crate::support::unix_now_secs;
use crate::topic::TopicFilter;
use vstd::prelude::*;

verus! {

/// Event bus configuration.
#[derive(Debug, Clone, Copy, PartialEq, Eq)]
pub struct EventBusConfig {
    /// Maximum number of subscribers
    pub max_subscribers: usize,
    /// Event buffer size
    pub buffer_size: usize,
    /// Enable statistics collection
    pub enable_statistics: bool,
}

impl Default for EventBusConfig {
    fn default() -> (c: EventBusConfig)
        ensures
            c.max_subscribers == 1000,
            c.buffer_size == 10000,
            c.enable_statistics,
    {
        EventBusConfig { max_subscribers: 1000, buffer_size: 10000, enable_statistics: true }
    }
}

/// Event subscription configuration with topic pattern support.
#[derive(Debug)]
pub struct EventSubscription {
    /// Unique subscriber identifier
    pub subscriber_id: String,
    /// Source capabilities
    pub capabilities: SourceCaps,
    /// Event filter
    pub event_filter: Option<EventFilter>,
    /// Correlation filter
    pub correlation_filter: Option<CorrelationFilter>,
    /// Hierarchical topic patterns such as `events.process.*` or `control.#`:
    /// `+` matches one level, `#` (last) any number of remaining levels
    pub topic_patterns: Option<Vec<String>>,
    /// Enable wildcards
    pub enable_wildcards: bool,
    /// Topic filter applied after pattern matching
    pub topic_filter: Option<TopicFilter>,
}

/// Event filtering criteria for subscribers.
#[derive(Debug)]
pub struct EventFilter {
    /// Event types
    pub event_types: Vec<String>,
    /// Process IDs
    pub pids: Vec<u32>,
    /// Minimum priority
    pub min_priority: Option<u8>,
    /// Metadata filters
    pub metadata_filters: StrMap<String>,
    /// Topic filters (superseded by the subscription's topic patterns)
    pub topic_filters: Vec<String>,
    /// Source collectors
    pub source_collectors: Vec<String>,
    /// Broker-level filters
    pub eventbus_filters: Option<EventBusFilters>,
}

/// Broker-level filtering configuration.
#[derive(Debug)]
pub struct EventBusFilters {
    /// Message type filters (Event, Control, Heartbeat, Shutdown)
    pub message_types: Vec<String>,
    /// Sequence number range filtering
    pub sequence_range: Option<(u64, u64)>,
    /// Timestamp range filtering (Unix timestamps)
    pub timestamp_range: Option<(u64, u64)>,
    /// Topic domain filters (events, control)
    pub topic_domains: Vec<String>,
    /// Subscriber capability filters
    pub capability_filters: StrMap<String>,
}

/// Event correlation filter.
#[derive(Debug)]
pub struct CorrelationFilter {
    /// Correlation ID
    pub correlation_id: Option<String>,
    /// Parent correlation ID for hierarchical relationships
    pub parent_correlation_id: Option<String>,
    /// Root correlation ID for entire workflow
    pub root_correlation_id: Option<String>,
    /// Workflow stage filter
    pub workflow_stage: Option<String>,
    /// Correlation tags for flexible filtering
    pub correlation_tags: StrMap<String>,
    /// Process ID filters (read from the `pid` tag)
    pub process_ids: Vec<u32>,
    /// Broker-level correlation patterns
    pub eventbus_correlation: Option<EventBusCorrelation>,
}

/// Broker-level correlation tracking.
#[derive(Debug)]
pub struct EventBusCorrelation {
    /// Message sequence correlation
    pub sequence_correlation: Option<SequenceCorrelation>,
    /// Topic-based correlation
    pub topic_correlation: Option<TopicCorrelation>,
    /// Temporal correlation
    pub temporal_correlation: Option<TemporalCorrelation>,
    /// Cross-collector correlation
    pub cross_collector_correlation: Option<CrossCollectorCorrelation>,
}

/// Sequence-based correlation for message ordering.
#[derive(Debug)]
pub struct SequenceCorrelation {
    /// Base sequence number for correlation group
    pub base_sequence: u64,
    /// Sequence window size for correlation
    pub window_size: u64,
    /// Correlation group identifier
    pub group_id: String,
}

/// Topic-based correlation for cross-topic event tracking.
#[derive(Debug)]
pub struct TopicCorrelation {
    /// Source topic patterns to correlate from
    pub source_patterns: Vec<String>,
    /// Target topic patterns to correlate to
    pub target_patterns: Vec<String>,
    /// Correlation key extraction rules
    pub correlation_keys: StrMap<String>,
}

/// Temporal correlation for time-based event grouping.
#[derive(Debug)]
pub struct TemporalCorrelation {
    /// Time window for correlation (seconds)
    pub window_seconds: u64,
    /// Maximum events per correlation group
    pub max_events: Option<usize>,
    /// Correlation trigger conditions
    pub trigger_conditions: Vec<String>,
}

/// Cross-collector correlation for multi-collector workflows.
#[derive(Debug)]
pub struct CrossCollectorCorrelation {
    /// Source collector types
    pub source_collectors: Vec<String>,
    /// Target collector types
    pub target_collectors: Vec<String>,
    /// Correlation metadata keys
    pub correlation_metadata: StrMap<String>,
    /// Workflow stage progression
    pub stage_progression: Vec<String>,
}

/// Correlation metadata carried by published events.
#[derive(Debug)]
pub struct CorrelationMetadata {
    /// Primary correlation ID for tracking related events across collectors
    pub correlation_id: String,
    /// Parent correlation ID for hierarchical event relationships
    pub parent_correlation_id: Option<String>,
    /// Root correlation ID for the entire workflow
    pub root_correlation_id: String,
    /// Trace ID for distributed tracing integration
    pub trace_id: Option<String>,
    /// Span ID for distributed tracing integration
    pub span_id: Option<String>,
    /// Event sequence number within correlation group
    pub sequence_number: u64,
    /// Workflow stage identifier
    pub workflow_stage: Option<String>,
    /// Custom correlation tags for flexible grouping
    pub correlation_tags: StrMap<String>,
    /// Broker-level correlation metadata
    pub eventbus_metadata: Option<EventBusMetadata>,
}

/// Broker-level correlation metadata.
#[derive(Debug)]
pub struct EventBusMetadata {
    /// Message broker instance ID
    pub broker_id: Option<String>,
    /// Topic routing path through the broker
    pub routing_path: Vec<String>,
    /// Message delivery timestamp (Unix seconds)
    pub delivery_timestamp: u64,
    /// Subscriber delivery tracking
    pub delivery_tracking: StrMap<DeliveryStatus>,
    /// Cross-topic correlation chains
    pub topic_chains: Vec<TopicChain>,
    /// Collector coordination metadata
    pub collector_coordination: Option<CollectorCoordination>,
}

/// Message delivery status tracking.
#[derive(Debug, Clone, PartialEq, Eq)]
pub struct DeliveryStatus {
    /// Delivery attempt timestamp (Unix seconds)
    pub timestamp: u64,
    /// Delivery success status
    pub success: bool,
    /// Error message if delivery failed
    pub error_message: Option<String>,
    /// Retry count
    pub retry_count: u32,
}

/// Topic correlation chain for cross-topic event tracking.
#[derive(Debug, Clone, PartialEq, Eq)]
pub struct TopicChain {
    /// Source topic
    pub source_topic: String,
    /// Target topic
    pub target_topic: String,
    /// Chain correlation ID
    pub chain_id: String,
    /// Chain sequence number
    pub chain_sequence: u64,
}

/// Collector coordination metadata for multi-collector workflows.
#[derive(Debug)]
pub struct CollectorCoordination {
    /// Initiating collector ID
    pub initiator_collector: String,
    /// Target collectors for coordination
    pub target_collectors: Vec<String>,
    /// Coordination workflow ID
    pub workflow_id: String,
    /// Coordination stage
    pub coordination_stage: String,
    /// Coordination metadata
    pub coordination_data: StrMap<String>,
}

/// Whether `new` is broker metadata created fresh, with nothing recorded but what the
/// caller adds.
pub open spec fn fresh_eventbus_metadata(m: EventBusMetadata) -> bool {
    &&& m.broker_id is None
    &&& m.routing_path@.len() == 0
    &&& m.collector_coordination is None
}

impl CorrelationMetadata {
    /// New metadata whose correlation id is also its root; no parent, tracing ids, stage,
    /// tags or broker metadata, sequence number 0.
    pub fn new(correlation_id: String) -> (m: Self)
        ensures
            m.correlation_id == correlation_id,
            m.root_correlation_id == correlation_id,
            m.parent_correlation_id is None,
            m.trace_id is None,
            m.span_id is None,
            m.sequence_number == 0,
            m.workflow_stage is None,
            m.correlation_tags@ == Map::<Seq<char>, String>::empty(),
            m.eventbus_metadata is None,
    {
        let root_id = correlation_id.clone();
        CorrelationMetadata {
            correlation_id,
            parent_correlation_id: None,
            root_correlation_id: root_id,
            trace_id: None,
            span_id: None,
            sequence_number: 0,
            workflow_stage: None,
            correlation_tags: StrMap::new(),
            eventbus_metadata: None,
        }
    }

    /// New metadata with a parent and a root.
    pub fn with_parent(
        correlation_id: String,
        parent_correlation_id: String,
        root_correlation_id: String,
    ) -> (m: Self)
        ensures
            m.correlation_id == correlation_id,
            m.parent_correlation_id == Some(parent_correlation_id),
            m.root_correlation_id == root_correlation_id,
            m.trace_id is None,
            m.span_id is None,
            m.sequence_number == 0,
            m.workflow_stage is None,
            m.correlation_tags@ == Map::<Seq<char>, String>::empty(),
            m.eventbus_metadata is None,
    {
        CorrelationMetadata {
            correlation_id,
            parent_correlation_id: Some(parent_correlation_id),
            root_correlation_id,
            trace_id: None,
            span_id: None,
            sequence_number: 0,
            workflow_stage: None,
            correlation_tags: StrMap::new(),
            eventbus_metadata: None,
        }
    }

    /// Sets the workflow stage.
    pub fn with_stage(self, stage: String) -> (m: Self)
        ensures
            m == (CorrelationMetadata { workflow_stage: Some(stage), ..self }),
    {
        let mut s = self;
        s.workflow_stage = Some(stage);
        s
    }

    /// Adds (or replaces) a correlation tag.
    pub fn with_tag(self, key: String, value: String) -> (m: Self)
        ensures
            m.correlation_tags@ == self.correlation_tags@.insert(key@, value),
            m.correlation_id == self.correlation_id,
            m.parent_correlation_id == self.parent_correlation_id,
            m.root_correlation_id == self.root_correlation_id,
            m.trace_id == self.trace_id,
            m.span_id == self.span_id,
            m.sequence_number == self.sequence_number,
            m.workflow_stage == self.workflow_stage,
            m.eventbus_metadata == self.eventbus_metadata,
    {
        let mut s = self;
        s.correlation_tags.insert(key, value);
        s
    }

    /// Sets the sequence number.
    pub fn with_sequence(self, sequence: u64) -> (m: Self)
        ensures
            m == (CorrelationMetadata { sequence_number: sequence, ..self }),
    {
        let mut s = self;
        s.sequence_number = sequence;
        s
    }

    /// Sets the trace ID.
    pub fn with_trace_id(self, trace_id: String) -> (m: Self)
        ensures
            m == (CorrelationMetadata { trace_id: Some(trace_id), ..self }),
    {
        let mut s = self;
        s.trace_id = Some(trace_id);
        s
    }

    /// Sets the span ID.
    pub fn with_span_id(self, span_id: String) -> (m: Self)
        ensures
            m == (CorrelationMetadata { span_id: Some(span_id), ..self }),
    {
        let mut s = self;
        s.span_id = Some(span_id);
        s
    }

    /// Sets the broker metadata.
    pub fn with_eventbus_metadata(self, metadata: EventBusMetadata) -> (m: Self)
        ensures
            m == (CorrelationMetadata { eventbus_metadata: Some(metadata), ..self }),
    {
        let mut s = self;
        s.eventbus_metadata = Some(metadata);
        s
    }

    /// Appends a topic chain stamped with the current sequence number, creating the broker
    /// metadata (stamped with the current time) when there is none.
    pub fn add_topic_chain(self, source_topic: String, target_topic: String, chain_id: String) -> (m:
        Self)
        ensures
            m.correlation_id == self.correlation_id,
            m.parent_correlation_id == self.parent_correlation_id,
            m.root_correlation_id == self.root_correlation_id,
            m.trace_id == self.trace_id,
            m.span_id == self.span_id,
            m.sequence_number == self.sequence_number,
            m.workflow_stage == self.workflow_stage,
            m.correlation_tags == self.correlation_tags,
            m.eventbus_metadata is Some,
            ({
                let chain = TopicChain {
                    source_topic,
                    target_topic,
                    chain_id,
                    chain_sequence: self.sequence_number,
                };
                let em = m.eventbus_metadata.unwrap();
                match self.eventbus_metadata {
                    Some(old) => em == (EventBusMetadata {
                        topic_chains: em.topic_chains,
                        ..old
                    }) && em.topic_chains@ == old.topic_chains@.push(chain),
                    None => fresh_eventbus_metadata(em) && em.delivery_tracking@.len() == 0
                        && em.topic_chains@ == seq![chain],
                }
            }),
    {
        let chain = TopicChain {
            source_topic,
            target_topic,
            chain_id,
            chain_sequence: self.sequence_number,
        };
        let mut s = self;
        match s.eventbus_metadata {
            Some(mut em) => {
                em.topic_chains.push(chain);
                s.eventbus_metadata = Some(em);
            },
            None => {
                let mut chains: Vec<TopicChain> = Vec::new();
                chains.push(chain);
                s.eventbus_metadata = Some(
                    EventBusMetadata {
                        broker_id: None,
                        routing_path: Vec::new(),
                        delivery_timestamp: unix_now_secs(),
                        delivery_tracking: StrMap::new(),
                        topic_chains: chains,
                        collector_coordination: None,
                    },
                );
            },
        }
        s
    }

    /// Sets the collector coordination, creating the broker metadata (stamped with the
    /// current time) when there is none.
    pub fn with_collector_coordination(self, coordination: CollectorCoordination) -> (m: Self)
        ensures
            m.correlation_id == self.correlation_id,
            m.parent_correlation_id == self.parent_correlation_id,
            m.root_correlation_id == self.root_correlation_id,
            m.trace_id == self.trace_id,
            m.span_id == self.span_id,
            m.sequence_number == self.sequence_number,
            m.workflow_stage == self.workflow_stage,
            m.correlation_tags == self.correlation_tags,
            m.eventbus_metadata is Some,
            ({
                let em = m.eventbus_metadata.unwrap();
                match self.eventbus_metadata {
                    Some(old) => em == (EventBusMetadata {
                        collector_coordination: Some(coordination),
                        ..old
                    }),
                    None => em.broker_id is None && em.routing_path@.len() == 0
                        && em.delivery_tracking@.len() == 0 && em.topic_chains@.len() == 0
                        && em.collector_coordination == Some(coordination),
                }
            }),
    {
        let mut s = self;
        match s.eventbus_metadata {
            Some(mut em) => {
                em.collector_coordination = Some(coordination);
                s.eventbus_metadata = Some(em);
            },
            None => {
                s.eventbus_metadata = Some(
                    EventBusMetadata {
                        broker_id: None,
                        routing_path: Vec::new(),
                        delivery_timestamp: unix_now_secs(),
                        delivery_tracking: StrMap::new(),
                        topic_chains: Vec::new(),
                        collector_coordination: Some(coordination),
                    },
                );
            },
        }
        s
    }

    /// Records at `now` a delivery to `subscriber_id` (no retries yet). The delivery
    /// timestamp of the broker metadata becomes `now`, creating the metadata when there is
    /// none.
    pub fn track_delivery_at(
        &mut self,
        subscriber_id: String,
        success: bool,
        error_message: Option<String>,
        now: u64,
    )
        ensures
            final(self).correlation_id == old(self).correlation_id,
            final(self).parent_correlation_id == old(self).parent_correlation_id,
            final(self).root_correlation_id == old(self).root_correlation_id,
            final(self).trace_id == old(self).trace_id,
            final(self).span_id == old(self).span_id,
            final(self).sequence_number == old(self).sequence_number,
            final(self).workflow_stage == old(self).workflow_stage,
            final(self).correlation_tags == old(self).correlation_tags,
            final(self).eventbus_metadata is Some,
            ({
                let status = DeliveryStatus {
                    timestamp: now,
                    success,
                    error_message,
                    retry_count: 0,
                };
                let em = final(self).eventbus_metadata.unwrap();
                &&& em.delivery_timestamp == now
                &&& match old(self).eventbus_metadata {
                    Some(o) => em.delivery_tracking@ == o.delivery_tracking@.insert(
                        subscriber_id@,
                        status,
                    ) && em.broker_id == o.broker_id && em.routing_path == o.routing_path
                        && em.topic_chains == o.topic_chains && em.collector_coordination
                        == o.collector_coordination,
                    None => fresh_eventbus_metadata(em) && em.topic_chains@.len() == 0
                        && em.delivery_tracking@ == Map::<Seq<char>, DeliveryStatus>::empty().insert(
                        subscriber_id@,
                        status,
                    ),
                }
            }),
    {
        let status = DeliveryStatus { timestamp: now, success, error_message, retry_count: 0 };
        let mut taken: Option<EventBusMetadata> = None;
        std::mem::swap(&mut taken, &mut self.eventbus_metadata);
        match taken {
            Some(mut em) => {
                em.delivery_timestamp = now;
                em.delivery_tracking.insert(subscriber_id, status);
                self.eventbus_metadata = Some(em);
            },
            None => {
                let mut tracking: StrMap<DeliveryStatus> = StrMap::new();
                tracking.insert(subscriber_id, status);
                self.eventbus_metadata = Some(
                    EventBusMetadata {
                        broker_id: None,
                        routing_path: Vec::new(),
                        delivery_timestamp: now,
                        delivery_tracking: tracking,
                        topic_chains: Vec::new(),
                        collector_coordination: None,
                    },
                );
            },
        }
    }

    /// Records a delivery to `subscriber_id` at the current time (see
    /// `track_delivery_at`).
    pub fn track_delivery(&mut self, subscriber_id: String, success: bool, error_message: Option<String>)
        ensures
            final(self).correlation_id == old(self).correlation_id,
            final(self).root_correlation_id == old(self).root_correlation_id,
            final(self).correlation_tags == old(self).correlation_tags,
            final(self).eventbus_metadata is Some,
            ({
                let em = final(self).eventbus_metadata.unwrap();
                &&& em.delivery_tracking@.contains_key(subscriber_id@)
                &&& em.delivery_tracking@[subscriber_id@].timestamp == em.delivery_timestamp
                &&& em.delivery_tracking@[subscriber_id@].success == success
                &&& em.delivery_tracking@[subscriber_id@].error_message == error_message
                &&& em.delivery_tracking@[subscriber_id@].retry_count == 0
                &&& match old(self).eventbus_metadata {
                    Some(o) => em.delivery_tracking@ == o.delivery_tracking@.insert(
                        subscriber_id@,
                        em.delivery_tracking@[subscriber_id@],
                    ) && em.topic_chains == o.topic_chains,
                    None => em.delivery_tracking@.dom() == set![subscriber_id@],
                }
            }),
    {
        let now = unix_now_secs();
        self.track_delivery_at(subscriber_id, success, error_message, now);
        proof {
            let em = self.eventbus_metadata.unwrap();
            assert(em.delivery_tracking@.dom() =~= em.delivery_tracking@.dom());
            if old(self).eventbus_metadata is None {
                assert(em.delivery_tracking@.dom() =~= set![subscriber_id@]);
            }
        }
    }
}

} // verus!
