use collector_core::event::{
    AnalysisType, CollectionEvent, MetaValue, NetworkEvent, ProcessEvent, TriggerPriority, TriggerRequest,
};
use collector_core::event_bus::{CorrelationMetadata, EventBusMetadata};
use collector_core::source::SourceCaps;
use collector_core::strmap::StrMap;
use collector_core::topic::{is_rpc_response_topic, topic_matches_pattern, validate_single_pattern};

fn now_secs() -> u64 {
    std::time::SystemTime::now().duration_since(std::time::UNIX_EPOCH).unwrap_or_default().as_secs()
}

fn process(pid: u32, name: &str, hash: Option<&str>, algo: Option<&str>) -> ProcessEvent {
    ProcessEvent {
        pid,
        ppid: None,
        name: name.to_owned(),
        executable_path: None,
        command_line: vec![],
        start_time: None,
        cpu_usage_bits: None,
        memory_usage: None,
        executable_hash: hash.map(|s| s.to_owned()),
        hash_algorithm: algo.map(|s| s.to_owned()),
        user_id: None,
        accessible: true,
        file_exists: true,
        timestamp: now_secs(),
        platform_metadata: None,
    }
}

fn sample_event() -> ProcessEvent {
    let mut e = process(1, "p", Some("abc"), Some("sha256"));
    e.executable_path = Some("/bin/p".to_owned());
    e
}

#[test]
fn test_process_event_creation() {
    let timestamp = now_secs();
    let event = ProcessEvent {
        pid: 1234,
        ppid: Some(1),
        name: "test_process".to_owned(),
        executable_path: Some("/usr/bin/test".to_owned()),
        command_line: vec!["test".to_owned(), "--flag".to_owned()],
        start_time: Some(timestamp),
        cpu_usage_bits: Some(5.5f64.to_bits()),
        memory_usage: Some(1024 * 1024),
        executable_hash: Some("abc123".to_owned()),
        hash_algorithm: Some("sha256".to_owned()),
        user_id: Some("1000".to_owned()),
        accessible: true,
        file_exists: true,
        timestamp,
        platform_metadata: None,
    };
    assert_eq!(event.pid, 1234);
    assert_eq!(event.ppid, Some(1));
    assert_eq!(event.name, "test_process");
    assert!(event.accessible);
    assert!(event.file_exists);
}

#[test]
fn integrity_signals_default_to_absent() {
    let event = sample_event();
    assert_eq!(event.ssdeep_hash(), None);
    assert!(!event.on_disk_mismatch());
    assert!(!event.ssdeep_degraded());
}

#[test]
fn default_signals_do_not_materialize_metadata() {
    let mut event = sample_event();
    assert!(event.platform_metadata.is_none());
    event.set_on_disk_mismatch(false);
    event.set_ssdeep_signal(None, false);
    assert!(event.platform_metadata.is_none(), "default integrity signals must not create platform_metadata");
    assert!(!event.on_disk_mismatch());
    assert!(!event.ssdeep_degraded());
    assert_eq!(event.ssdeep_hash(), None);
}

#[test]
fn clearing_signals_drops_emptied_metadata() {
    let mut event = sample_event();
    event.set_ssdeep_signal(Some("3:x:y".to_owned()), true);
    assert!(event.platform_metadata.is_some());
    event.set_ssdeep_signal(None, false);
    assert!(event.platform_metadata.is_none());
}

#[test]
fn ssdeep_signal_round_trip() {
    let mut event = sample_event();
    event.set_ssdeep_signal(Some("3:abc:def".to_owned()), false);
    assert_eq!(event.ssdeep_hash(), Some("3:abc:def"));
    assert!(!event.ssdeep_degraded());
}

#[test]
fn ssdeep_degraded_is_decoupled_from_hash_invariant() {
    let mut event = sample_event();
    event.set_ssdeep_signal(None, true);
    assert_eq!(event.ssdeep_hash(), None);
    assert!(event.ssdeep_degraded());
    assert!(event.validate_hash_tuple().is_ok());
}

#[test]
fn ssdeep_and_mismatch_setters_compose_independently() {
    let mut event = sample_event();
    event.set_ssdeep_signal(Some("3:x:y".to_owned()), false);
    event.set_on_disk_mismatch(true);
    assert_eq!(event.ssdeep_hash(), Some("3:x:y"));
    assert!(event.on_disk_mismatch());
    assert!(!event.ssdeep_degraded());
}

#[test]
fn setters_preserve_existing_metadata() {
    let mut event = sample_event();
    let mut meta = StrMap::new();
    meta.insert("collector".to_owned(), MetaValue::Str("linux".to_owned()));
    event.platform_metadata = Some(meta);
    event.set_ssdeep_signal(Some("3:x:y".to_owned()), false);
    event.set_on_disk_mismatch(true);
    let meta = event.platform_metadata.as_ref().expect("metadata present");
    match meta.get("collector") {
        Some(MetaValue::Str(s)) => assert_eq!(s, "linux"),
        other => panic!("unexpected collector entry: {:?}", other),
    }
    assert_eq!(event.ssdeep_hash(), Some("3:x:y"));
    assert!(event.on_disk_mismatch());
}

#[test]
fn mismatch_flag_clears_without_touching_other_keys() {
    let mut event = sample_event();
    event.set_on_disk_mismatch(true);
    event.set_ssdeep_signal(Some("h".to_owned()), true);
    event.set_on_disk_mismatch(false);
    assert!(!event.on_disk_mismatch());
    assert_eq!(event.ssdeep_hash(), Some("h"));
    assert!(event.ssdeep_degraded());
    assert_eq!(event.platform_metadata.as_ref().map(|m| m.len()), Some(2));
}

#[test]
fn test_validate_hash_tuple_inconsistent_rejected() {
    assert!(process(1, "bad", Some("abc"), None).validate_hash_tuple().is_err());
    assert!(process(2, "bad", None, Some("sha256")).validate_hash_tuple().is_err());
    assert!(process(3, "ok", None, None).validate_hash_tuple().is_ok());
    assert!(process(4, "ok", Some("abc"), Some("sha256")).validate_hash_tuple().is_ok());
}

#[test]
fn test_collection_event_timestamp() {
    let p = process(1234, "test", None, None);
    let timestamp = p.timestamp;
    let collection_event = CollectionEvent::Process(p);
    assert_eq!(collection_event.timestamp(), timestamp);
    assert_eq!(collection_event.event_type(), "process");
    assert_eq!(collection_event.pid(), Some(1234));
}

#[test]
fn test_network_event_creation() {
    let event = NetworkEvent {
        connection_id: "conn_123".to_owned(),
        source_addr: "192.168.1.100:12345".to_owned(),
        dest_addr: "10.0.0.1:80".to_owned(),
        protocol: "TCP".to_owned(),
        state: "ESTABLISHED".to_owned(),
        pid: Some(1234),
        bytes_sent: 1024,
        bytes_received: 2048,
        timestamp: now_secs(),
    };
    let collection_event = CollectionEvent::Network(event);
    assert_eq!(collection_event.event_type(), "network");
    assert_eq!(collection_event.pid(), Some(1234));
}

fn trigger_request(id: &str, priority: TriggerPriority, pid: Option<u32>, timestamp: u64) -> TriggerRequest {
    TriggerRequest {
        trigger_id: id.to_owned(),
        target_collector: "binary-hasher".to_owned(),
        analysis_type: AnalysisType::BinaryHash,
        priority,
        target_pid: pid,
        target_path: Some("/usr/bin/suspicious".to_owned()),
        correlation_id: "corr_456".to_owned(),
        metadata: StrMap::new(),
        timestamp,
    }
}

#[test]
fn test_trigger_request_creation() {
    let timestamp = now_secs();
    let mut trigger = trigger_request("trigger_123", TriggerPriority::High, Some(1234), timestamp);
    trigger.metadata.insert("test_key".to_owned(), "test_value".to_owned());
    let collection_event = CollectionEvent::TriggerRequest(trigger);
    assert_eq!(collection_event.event_type(), "trigger_request");
    assert_eq!(collection_event.pid(), Some(1234));
    assert_eq!(collection_event.timestamp(), timestamp);
}

#[test]
fn trigger_request_validation_errors() {
    let ok = trigger_request("t", TriggerPriority::Low, Some(1), 0);
    assert!(ok.validate().is_ok());
    let no_id = trigger_request("", TriggerPriority::Low, Some(1), 0);
    assert!(no_id.validate().is_err());
    let no_target = trigger_request("t", TriggerPriority::Low, None, 0);
    let mut no_target = no_target;
    no_target.target_path = None;
    assert!(no_target.validate().is_err());
    let mut too_much = trigger_request("t", TriggerPriority::Low, Some(1), 0);
    for i in 0..101 {
        too_much.metadata.insert(format!("k{}", i), "v".to_owned());
    }
    assert!(too_much.validate().is_err());
}

#[test]
fn test_analysis_type_equality() {
    assert_eq!(AnalysisType::BinaryHash, AnalysisType::BinaryHash);
    assert_ne!(AnalysisType::BinaryHash, AnalysisType::MemoryAnalysis);
    let custom1 = AnalysisType::Custom("test".to_owned());
    let custom2 = AnalysisType::Custom("test".to_owned());
    let custom3 = AnalysisType::Custom("other".to_owned());
    assert_eq!(custom1, custom2);
    assert_ne!(custom1, custom3);
    assert!(custom1.same_as(&custom2));
    assert!(!custom1.same_as(&custom3));
}

#[test]
fn event_test_trigger_priority_ordering() {
    assert!(TriggerPriority::Critical > TriggerPriority::High);
    assert!(TriggerPriority::High > TriggerPriority::Normal);
    assert!(TriggerPriority::Normal > TriggerPriority::Low);
    let mut priorities = vec![TriggerPriority::Low, TriggerPriority::Critical, TriggerPriority::Normal, TriggerPriority::High];
    priorities.sort();
    assert_eq!(priorities, vec![TriggerPriority::Low, TriggerPriority::Normal, TriggerPriority::High, TriggerPriority::Critical]);
    assert!(TriggerPriority::Critical.rank() > TriggerPriority::Low.rank());
}

#[test]
fn test_source_caps_bitflags() {
    assert_eq!(SourceCaps::process().bits(), 1);
    assert_eq!(SourceCaps::network().bits(), 2);
    assert_eq!(SourceCaps::filesystem().bits(), 4);
    assert_eq!(SourceCaps::performance().bits(), 8);
    assert_eq!(SourceCaps::realtime().bits(), 16);
    assert_eq!(SourceCaps::kernel_level().bits(), 32);
    assert_eq!(SourceCaps::system_wide().bits(), 64);
}

#[test]
fn test_source_caps_combinations() {
    let process_caps = SourceCaps::process().union(SourceCaps::realtime()).union(SourceCaps::system_wide());
    assert!(process_caps.contains(SourceCaps::process()));
    assert!(process_caps.contains(SourceCaps::realtime()));
    assert!(process_caps.contains(SourceCaps::system_wide()));
    assert!(!process_caps.contains(SourceCaps::network()));
    assert!(!process_caps.contains(SourceCaps::filesystem()));
}

#[test]
fn test_source_caps_intersection() {
    let caps1 = SourceCaps::process().union(SourceCaps::realtime());
    let caps2 = SourceCaps::process().union(SourceCaps::network());
    let intersection = caps1.intersection(caps2);
    assert_eq!(intersection, SourceCaps::process());
}

#[test]
fn test_source_caps_union() {
    let caps1 = SourceCaps::process().union(SourceCaps::realtime());
    let caps2 = SourceCaps::network().union(SourceCaps::filesystem());
    let union = caps1.union(caps2);
    assert!(union.contains(SourceCaps::process()));
    assert!(union.contains(SourceCaps::realtime()));
    assert!(union.contains(SourceCaps::network()));
    assert!(union.contains(SourceCaps::filesystem()));
}

#[test]
fn source_caps_truncate_and_empty() {
    assert_eq!(SourceCaps::from_bits_truncate(0xff).bits(), 0x7f);
    assert!(SourceCaps::empty().is_empty());
    assert!(SourceCaps::all().contains(SourceCaps::system_wide()));
    assert!(SourceCaps::process().intersects(SourceCaps::all()));
    assert!(!SourceCaps::process().intersects(SourceCaps::network()));
}

fn check_topic_pattern_matching() {
    assert!(topic_matches_pattern("events.process.new", "events.process.new", false));
    assert!(!topic_matches_pattern("events.process.new", "events.network.new", false));
    assert!(topic_matches_pattern("events.process.new", "events.process.+", true));
    assert!(topic_matches_pattern("events.network.update", "events.network.+", true));
    assert!(!topic_matches_pattern("events.process.new", "events.network.+", true));
    assert!(topic_matches_pattern("events.process", "events.+", true));
    assert!(!topic_matches_pattern("events.process.new", "events.+", true));
    assert!(!topic_matches_pattern("control.trigger.request", "events.+", true));
    assert!(topic_matches_pattern("events.process.new", "events.#", true));
    assert!(topic_matches_pattern("events.network.connections.tcp", "events.#", true));
    assert!(!topic_matches_pattern("control.trigger.request", "events.#", true));
    assert!(topic_matches_pattern("events.process.new", "events.process.*", true));
    assert!(topic_matches_pattern("events.network.update", "events.network.*", true));
    assert!(!topic_matches_pattern("events.process.new", "events.network.*", true));
}

#[test]
fn event_bus_test_topic_pattern_matching() {
    check_topic_pattern_matching();
}

#[test]
fn local_bus_test_topic_pattern_matching() {
    check_topic_pattern_matching();
}

fn check_topic_pattern_validation() {
    assert!(validate_single_pattern("events.process.+").is_ok());
    assert!(validate_single_pattern("events.#").is_ok());
    assert!(validate_single_pattern("control.collector.lifecycle").is_ok());
    assert!(validate_single_pattern("").is_err());
    assert!(validate_single_pattern("events..process").is_err());
    assert!(validate_single_pattern("events.#.invalid").is_err());
}

#[test]
fn event_bus_test_topic_pattern_validation() {
    check_topic_pattern_validation();
}

#[test]
fn local_bus_test_topic_pattern_validation() {
    check_topic_pattern_validation();
}

fn check_wildcard_semantics() {
    assert!(topic_matches_pattern("events.process.lifecycle", "events.process.+", true));
    assert!(!topic_matches_pattern("events.process.lifecycle.detail", "events.process.+", true));
    assert!(topic_matches_pattern("events.process.lifecycle", "events.#", true));
    assert!(topic_matches_pattern("events.process.lifecycle.detail.extra", "events.#", true));
    assert!(topic_matches_pattern("events.process.lifecycle", "events.+.lifecycle", true));
    assert!(!topic_matches_pattern("events.network.connections", "events.+.lifecycle", true));
}

#[test]
fn event_bus_test_daemoneye_eventbus_wildcard_semantics() {
    check_wildcard_semantics();
}

#[test]
fn local_bus_test_daemoneye_eventbus_wildcard_semantics() {
    check_wildcard_semantics();
}

#[test]
fn wildcards_off_match_literally() {
    assert!(!topic_matches_pattern("events.process.new", "events.#", false));
    assert!(topic_matches_pattern("events.#", "events.#", false));
}

#[test]
fn test_rpc_response_topic_parsing() {
    assert!(is_rpc_response_topic("control.rpc.response.client123"));
    assert!(is_rpc_response_topic("rpc.response"));
    assert!(is_rpc_response_topic("control.rpc.response"));
    assert!(is_rpc_response_topic("a.b.rpc.response.c.d"));
    assert!(is_rpc_response_topic("rpc.response.client"));
    assert!(!is_rpc_response_topic("control.rpc.other.response"));
    assert!(!is_rpc_response_topic("control.response.rpc"));
    assert!(!is_rpc_response_topic("rpc.other.response"));
    assert!(!is_rpc_response_topic("response.rpc"));
    assert!(!is_rpc_response_topic("control.collector.collector"));
    assert!(!is_rpc_response_topic("rpc"));
    assert!(!is_rpc_response_topic("response"));
    assert!(!is_rpc_response_topic("rpc.other"));
    assert!(!is_rpc_response_topic("other.response"));
    assert!(!is_rpc_response_topic(""));
    assert!(!is_rpc_response_topic("."));
    assert!(is_rpc_response_topic("rpc.response."));
    assert!(is_rpc_response_topic(".rpc.response"));
}

const STALE_TIMESTAMP: u64 = 1_000_000_000;

#[test]
fn track_delivery_refreshes_stale_delivery_timestamp_on_existing_metadata() {
    let mut metadata = CorrelationMetadata::new("corr-1".to_owned());
    metadata.eventbus_metadata = Some(EventBusMetadata {
        broker_id: None,
        routing_path: Vec::new(),
        delivery_timestamp: STALE_TIMESTAMP,
        delivery_tracking: StrMap::new(),
        topic_chains: Vec::new(),
        collector_coordination: None,
    });
    metadata.track_delivery("subscriber-1".to_owned(), true, None);
    let eventbus_metadata = metadata.eventbus_metadata.as_ref().expect("eventbus metadata should be present");
    assert!(
        eventbus_metadata.delivery_timestamp > STALE_TIMESTAMP,
        "delivery_timestamp must be refreshed on every tracked delivery (was {}, expected > {})",
        eventbus_metadata.delivery_timestamp,
        STALE_TIMESTAMP
    );
    assert!(eventbus_metadata.delivery_timestamp >= now_secs().saturating_sub(5));
}

#[test]
fn track_delivery_records_status_on_first_create() {
    let mut metadata = CorrelationMetadata::new("corr-2".to_owned());
    assert!(metadata.eventbus_metadata.is_none());
    metadata.track_delivery("subscriber-1".to_owned(), false, Some("boom".to_owned()));
    let eventbus_metadata = metadata.eventbus_metadata.as_ref().expect("eventbus metadata should be created");
    assert!(eventbus_metadata.delivery_timestamp >= now_secs().saturating_sub(5));
    let status = eventbus_metadata.delivery_tracking.get("subscriber-1").expect("delivery status should be recorded");
    assert!(!status.success);
    assert_eq!(status.error_message.as_deref(), Some("boom"));
}

#[test]
fn track_delivery_at_uses_given_clock() {
    let mut metadata = CorrelationMetadata::new("corr-3".to_owned());
    metadata.track_delivery_at("s".to_owned(), true, None, 42);
    let em = metadata.eventbus_metadata.as_ref().unwrap();
    assert_eq!(em.delivery_timestamp, 42);
    assert_eq!(em.delivery_tracking.get("s").unwrap().timestamp, 42);
}

#[test]
fn correlation_builders_set_fields() {
    let m = CorrelationMetadata::new("c".to_owned())
        .with_stage("stage-1".to_owned())
        .with_tag("k".to_owned(), "v".to_owned())
        .with_sequence(7)
        .with_trace_id("trace".to_owned())
        .with_span_id("span".to_owned());
    assert_eq!(m.correlation_id, "c");
    assert_eq!(m.workflow_stage.as_deref(), Some("stage-1"));
    assert_eq!(m.correlation_tags.get("k").map(|s| s.as_str()), Some("v"));
    assert_eq!(m.sequence_number, 7);
}
