use collector_core::bus_router::{BusError, BusRouter};
use collector_core::event::{CollectionEvent, ProcessEvent};
use collector_core::event_bus::{CorrelationMetadata, EventBusConfig, EventSubscription};
use collector_core::high_performance_event_bus::{
    blocking_step, create_bus_event, delivery_result, BackpressureStrategy, DeliveryStep, SendOutcome, HighPerformanceEventBusConfig, HpBusError, HpRouter, RoutingFinishedGuard,
    EventSubscription as HpSubscription,
};
use collector_core::load_balancer::LoadBalancerError;
use collector_core::monitor::MonitorConfigError;
use collector_core::result_aggregator::AggregationError;
use collector_core::source::SourceCaps;
use collector_core::topic::{validate_single_pattern, TopicPatternError};
use std::sync::atomic::{AtomicBool, Ordering};
use std::sync::Arc;

fn process_event(pid: u32) -> CollectionEvent {
    CollectionEvent::Process(ProcessEvent {
        pid,
        ppid: None,
        name: "p".to_string(),
        executable_path: None,
        command_line: vec![],
        start_time: None,
        cpu_usage_bits: None,
        memory_usage: None,
        executable_hash: None,
        hash_algorithm: None,
        user_id: None,
        accessible: true,
        file_exists: true,
        timestamp: 1,
        platform_metadata: None,
    })
}

#[test]
fn routing_guard_raises_flag_when_dropped() {
    let flag = Arc::new(AtomicBool::new(false));
    {
        let _guard = RoutingFinishedGuard::new(Arc::clone(&flag));
        assert!(!flag.load(Ordering::Acquire));
    }
    assert!(flag.load(Ordering::Acquire));
}

#[test]
fn hp_router_routes_by_capability_and_counts() {
    let config = HighPerformanceEventBusConfig { max_subscribers: 1, ..Default::default() };
    let mut router = HpRouter::new(config);
    let sub = HpSubscription {
        subscriber_id: "s1".to_string(),
        capabilities: SourceCaps::process(),
        event_filter: None,
        correlation_filter: None,
        backpressure_strategy: BackpressureStrategy::DropNewest,
    };
    assert!(router.subscribe(sub).is_ok());
    let again = HpSubscription {
        subscriber_id: "s2".to_string(),
        capabilities: SourceCaps::network(),
        event_filter: None,
        correlation_filter: None,
        backpressure_strategy: BackpressureStrategy::Blocking,
    };
    let err = router.subscribe(again).unwrap_err();
    assert_eq!(err, HpBusError::SubscriberLimit(1));
    assert_eq!(err.to_string(), "Maximum number of subscribers (1) reached");
    assert_eq!(HpBusError::DuplicateSubscriber("x".to_string()).to_string(), "Subscriber 'x' already exists");
    assert_eq!(router.route(&process_event(5), "c"), vec!["s1".to_string()]);
    router.record_published();
    router.record_routing(1, 2);
    let stats = router.get_statistics();
    assert_eq!(stats.events_published, 1);
    assert_eq!(stats.events_delivered, 1);
    assert_eq!(stats.events_dropped, 2);
    assert_eq!(stats.active_subscribers, 1);
}

fn subscription(id: &str, patterns: Option<Vec<String>>) -> EventSubscription {
    EventSubscription {
        subscriber_id: id.to_string(),
        capabilities: SourceCaps::process(),
        event_filter: None,
        correlation_filter: None,
        topic_patterns: patterns,
        enable_wildcards: true,
        topic_filter: None,
    }
}

#[test]
fn bus_router_delivers_by_topic_pattern() {
    let mut router = BusRouter::new(EventBusConfig::default());
    assert!(router.subscribe(subscription("all", Some(vec!["events.#".to_string()]))).is_ok());
    assert!(router.subscribe(subscription("net", Some(vec!["events.network.+".to_string()]))).is_ok());
    let bad = router.subscribe(subscription("bad", Some(vec!["events.#.x".to_string()]))).unwrap_err();
    assert_eq!(bad, BusError::InvalidTopicPattern(TopicPatternError::MisplacedMultiLevelWildcard));
    assert_eq!(bad.to_string(), "Multi-level wildcard '#' must be at the end of pattern");
    let meta = CorrelationMetadata::new("c".to_string());
    let (topic, targets) = router.route(&process_event(1), &meta, 0);
    assert!(topic.starts_with("events.process"));
    assert_eq!(targets, vec!["all".to_string()]);
    router.record_publish(1, &vec!["all".to_string()]);
    let stats = router.get_statistics();
    assert_eq!(stats.events_published, 1);
    assert_eq!(stats.events_delivered, 1);
    assert_eq!(stats.active_subscribers, 1);
}

#[test]
fn bus_router_subscriber_limit() {
    let mut router = BusRouter::new(EventBusConfig { max_subscribers: 0, ..Default::default() });
    let err = router.subscribe(subscription("a", None)).unwrap_err();
    assert_eq!(err.to_string(), "Maximum number of subscribers (0) reached");
}

#[test]
fn error_messages() {
    assert_eq!(validate_single_pattern("").unwrap_err().to_string(), "Empty topic pattern");
    assert_eq!(validate_single_pattern("a..b").unwrap_err().to_string(), "Empty segment in pattern");
    assert_eq!(LoadBalancerError::NoCollectors.to_string(), "No collectors available");
    assert_eq!(LoadBalancerError::NoHealthyCollectors.to_string(), "No healthy collectors available");
    assert_eq!(
        LoadBalancerError::NoFailoverCandidates.to_string(),
        "No available collectors for failover (all collectors filtered out)"
    );
    assert_eq!(AggregationError::NotFound.to_string(), "Aggregation not found");
    assert_eq!(
        MonitorConfigError::IntervalTooShort.to_string(),
        "Collection interval must be at least 1 second for performance safety"
    );
    assert_eq!(
        MonitorConfigError::EventsInFlightOutOfRange.to_string(),
        "Max events in flight must be between 1 and 100,000 for memory safety"
    );
    assert_eq!(MonitorConfigError::ShutdownTimeoutTooLong.to_string(), "Shutdown timeout must not exceed 5 minutes");
}

#[test]
fn dropped_delivery_counts_one_event() {
    assert_eq!(blocking_step(0, 100, SendOutcome::Disconnected, false, 3, 1000), DeliveryStep::Dropped(1));
    assert_eq!(blocking_step(0, 100, SendOutcome::Full, true, 3, 1000), DeliveryStep::Dropped(1));
    assert_eq!(blocking_step(0, 100, SendOutcome::Sent, true, 3, 1000), DeliveryStep::Delivered);
}

#[test]
fn bus_event_has_default_priority() {
    let b = create_bus_event(process_event(9), "corr".to_string());
    assert_eq!(b.priority, 5);
    assert_eq!(b.correlation_id, "corr");
    assert_eq!(b.publisher_id, "high-performance-bus");
    assert_eq!(b.event_id.len(), 36);
    assert!(matches!(b.event, CollectionEvent::Process(_)));
}

#[test]
fn malformed_explicit_pattern_is_refused() {
    let mut router = BusRouter::new(EventBusConfig::default());
    let err = router.subscribe(subscription("s", Some(vec!["events.process.+".to_string(), "a..b".to_string()]))).unwrap_err();
    assert!(matches!(err, BusError::InvalidTopicPattern(TopicPatternError::EmptySegment { .. })));
    let err = router.subscribe(subscription("s", Some(vec![String::new()]))).unwrap_err();
    assert!(matches!(err, BusError::InvalidTopicPattern(TopicPatternError::Empty)));
    assert!(router.subscribe(subscription("s", Some(vec!["events.process.+".to_string()]))).is_ok());
}

#[test]
fn routing_counts_each_subscriber_once() {
    assert_eq!(delivery_result(DeliveryStep::Delivered), Some(true));
    assert_eq!(delivery_result(DeliveryStep::Dropped(1)), Some(false));
    assert_eq!(delivery_result(DeliveryStep::GiveUpAfter { sleep_us: 5 }), Some(false));
    assert_eq!(delivery_result(DeliveryStep::RetryAfter { sleep_us: 5, next_delay_us: 10 }), None);
    let mut router = HpRouter::new(HighPerformanceEventBusConfig::default());
    router.record_deliveries(&vec![true, false, true]);
    router.record_deliveries(&vec![]);
    let stats = router.get_statistics();
    assert_eq!(stats.events_delivered, 2);
    assert_eq!(stats.events_dropped, 1);
    assert_eq!(stats.events_published, 0);
}
