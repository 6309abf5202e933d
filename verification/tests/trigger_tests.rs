use collector_core::event::{AnalysisType, TriggerPriority, TriggerRequest};
use collector_core::sql_trigger::SqlTriggerEvaluator;
use collector_core::strmap::StrMap;
use collector_core::trigger::{
    ConditionType, DeduplicationKey, ProcessTriggerData, TriggerCapabilities, TriggerCondition, TriggerConfig,
    TriggerResourceLimits,
};
use collector_core::trigger_manager::TriggerManager;
use collector_core::trigger_queue::{PriorityTriggerQueue, TriggerError};

fn create_test_process_data() -> ProcessTriggerData {
    ProcessTriggerData {
        pid: 1234,
        name: "test_process".to_string(),
        executable_path: Some("/usr/bin/test".to_string()),
        file_exists: true,
        cpu_usage_bits: Some(5.0f64.to_bits()),
        memory_usage: Some(1024 * 1024),
        executable_hash: Some("abc123".to_string()),
    }
}

fn create_test_condition() -> TriggerCondition {
    TriggerCondition {
        id: "test_condition".to_string(),
        description: "Test condition".to_string(),
        analysis_type: AnalysisType::BinaryHash,
        priority: TriggerPriority::Normal,
        target_collector: "binary-hasher".to_string(),
        condition_type: ConditionType::ProcessNamePattern("test".to_string()),
    }
}

fn create_test_capabilities() -> TriggerCapabilities {
    TriggerCapabilities {
        collector_id: "binary-hasher".to_string(),
        supported_conditions: vec![
            ConditionType::ProcessNamePattern("test".to_string()),
            ConditionType::ExecutablePathPattern("".to_string()),
            ConditionType::MissingExecutable,
            ConditionType::HashMismatch,
        ],
        supported_analysis: vec![AnalysisType::BinaryHash, AnalysisType::MemoryAnalysis],
        max_trigger_rate: 100,
        max_concurrent_analysis: 10,
        supported_priorities: vec![TriggerPriority::Low, TriggerPriority::Normal, TriggerPriority::High, TriggerPriority::Critical],
        resource_limits: TriggerResourceLimits::default(),
    }
}

fn create_test_trigger_request() -> TriggerRequest {
    let mut metadata = StrMap::new();
    metadata.insert("test_key".to_string(), "test_value".to_string());
    TriggerRequest {
        trigger_id: "test_trigger_123".to_string(),
        target_collector: "binary-hasher".to_string(),
        analysis_type: AnalysisType::BinaryHash,
        priority: TriggerPriority::High,
        target_pid: Some(1234),
        target_path: Some("/usr/bin/test".to_string()),
        correlation_id: "test_correlation_456".to_string(),
        metadata,
        timestamp: 1_700_000_000,
    }
}

fn manager_with_condition(config: TriggerConfig) -> TriggerManager {
    let mut manager = TriggerManager::new(config);
    manager.register_collector_capabilities(create_test_capabilities()).unwrap();
    manager.register_condition(create_test_condition()).unwrap();
    manager
}

#[test]
fn test_trigger_manager_creation() {
    let manager = TriggerManager::new(TriggerConfig::default());
    let stats = manager.get_statistics().unwrap();
    assert_eq!(stats.registered_conditions, 0);
    assert_eq!(stats.pending_triggers, 0);
    assert_eq!(stats.registered_capabilities, 0);
}

#[test]
fn test_condition_registration() {
    let manager = manager_with_condition(TriggerConfig::default());
    let stats = manager.get_statistics().unwrap();
    assert_eq!(stats.registered_conditions, 1);
    assert_eq!(stats.registered_capabilities, 1);
}

#[test]
fn test_process_name_pattern_matching() {
    let mut manager = manager_with_condition(TriggerConfig::default());
    let triggers = manager.evaluate_triggers(&create_test_process_data()).unwrap();
    assert_eq!(triggers.len(), 1);
    assert_eq!(triggers[0].target_collector, "binary-hasher");
    assert_eq!(triggers[0].analysis_type, AnalysisType::BinaryHash);
    assert_eq!(triggers[0].target_pid, Some(1234));
}

#[test]
fn test_missing_executable_condition() {
    let mut manager = TriggerManager::new(TriggerConfig::default());
    manager.register_collector_capabilities(create_test_capabilities()).unwrap();
    let condition = TriggerCondition {
        id: "missing_exe".to_string(),
        description: "Missing executable".to_string(),
        analysis_type: AnalysisType::BinaryHash,
        priority: TriggerPriority::High,
        target_collector: "binary-hasher".to_string(),
        condition_type: ConditionType::MissingExecutable,
    };
    manager.register_condition(condition).unwrap();
    let mut process_data = create_test_process_data();
    process_data.file_exists = false;
    let triggers = manager.evaluate_triggers(&process_data).unwrap();
    assert_eq!(triggers.len(), 1);
    assert_eq!(triggers[0].priority, TriggerPriority::High);
}

#[test]
fn test_resource_anomaly_condition() {
    let mut manager = TriggerManager::new(TriggerConfig::default());
    let mut capabilities = create_test_capabilities();
    capabilities.collector_id = "behavior-analyzer".to_string();
    capabilities.supported_analysis = vec![AnalysisType::BehavioralAnalysis];
    capabilities
        .supported_conditions
        .push(ConditionType::ResourceAnomaly { cpu_threshold_bits: 0.0f64.to_bits(), memory_threshold: 0 });
    manager.register_collector_capabilities(capabilities).unwrap();
    let condition = TriggerCondition {
        id: "resource_anomaly".to_string(),
        description: "Resource anomaly".to_string(),
        analysis_type: AnalysisType::BehavioralAnalysis,
        priority: TriggerPriority::High,
        target_collector: "behavior-analyzer".to_string(),
        condition_type: ConditionType::ResourceAnomaly { cpu_threshold_bits: 80.0f64.to_bits(), memory_threshold: 1024 * 1024 * 1024 },
    };
    manager.register_condition(condition).unwrap();
    let mut process_data = create_test_process_data();
    process_data.cpu_usage_bits = Some(90.0f64.to_bits());
    let triggers = manager.evaluate_triggers(&process_data).unwrap();
    assert_eq!(triggers.len(), 1);
    assert_eq!(triggers[0].analysis_type, AnalysisType::BehavioralAnalysis);
}

#[test]
fn resource_anomaly_below_thresholds_does_not_fire() {
    let mut manager = TriggerManager::new(TriggerConfig::default());
    let mut capabilities = create_test_capabilities();
    capabilities.supported_conditions.push(ConditionType::ResourceAnomaly { cpu_threshold_bits: 0, memory_threshold: 0 });
    manager.register_collector_capabilities(capabilities).unwrap();
    let condition = TriggerCondition {
        id: "ra".to_string(),
        description: "ra".to_string(),
        analysis_type: AnalysisType::BinaryHash,
        priority: TriggerPriority::High,
        target_collector: "binary-hasher".to_string(),
        condition_type: ConditionType::ResourceAnomaly { cpu_threshold_bits: 80.0f64.to_bits(), memory_threshold: 1 << 30 },
    };
    manager.register_condition(condition).unwrap();
    let triggers = manager.evaluate_triggers(&create_test_process_data()).unwrap();
    assert_eq!(triggers.len(), 0);
}

#[test]
fn test_deduplication() {
    let config = TriggerConfig { deduplication_window_secs: 60, ..Default::default() };
    let mut manager = manager_with_condition(config);
    let process_data = create_test_process_data();
    let triggers1 = manager.evaluate_triggers(&process_data).unwrap();
    assert_eq!(triggers1.len(), 1);
    let triggers2 = manager.evaluate_triggers(&process_data).unwrap();
    assert_eq!(triggers2.len(), 0);
}

#[test]
fn deduplication_window_expires_at_fixed_clock() {
    let config = TriggerConfig { deduplication_window_secs: 60, ..Default::default() };
    let mut manager = manager_with_condition(config);
    let process_data = create_test_process_data();
    assert_eq!(manager.evaluate_triggers_at(&process_data, 1000).unwrap().len(), 1);
    assert_eq!(manager.evaluate_triggers_at(&process_data, 1059).unwrap().len(), 0);
    assert_eq!(manager.evaluate_triggers_at(&process_data, 1061).unwrap().len(), 1);
}

#[test]
fn test_rate_limiting() {
    let config = TriggerConfig {
        max_triggers_per_collector: 2,
        rate_limit_window_secs: 60,
        deduplication_window_secs: 0,
        ..Default::default()
    };
    let mut manager = manager_with_condition(config);
    for i in 0..5u32 {
        let mut process_data = create_test_process_data();
        process_data.pid = 1000 + i;
        let triggers = manager.evaluate_triggers(&process_data).unwrap();
        if i < 2 {
            assert_eq!(triggers.len(), 1, "Trigger {} should be allowed", i);
        } else {
            assert_eq!(triggers.len(), 0, "Trigger {} should be rate limited", i);
        }
    }
}

#[test]
fn test_trigger_metadata() {
    let config = TriggerConfig { enable_metadata_tracking: true, ..Default::default() };
    let mut manager = manager_with_condition(config);
    let triggers = manager.evaluate_triggers(&create_test_process_data()).unwrap();
    assert_eq!(triggers.len(), 1);
    let trigger = &triggers[0];
    assert!(trigger.metadata.contains_key("condition_id"));
    assert!(trigger.metadata.contains_key("source_pid"));
    assert!(!trigger.correlation_id.is_empty());
}

#[test]
fn test_cleanup() {
    let mut manager = TriggerManager::new(TriggerConfig::default());
    assert!(manager.cleanup().is_ok());
}

#[test]
fn test_deduplication_key_equality() {
    let key1 = DeduplicationKey {
        collector: "binary-hasher".to_string(),
        analysis_type: AnalysisType::BinaryHash,
        target_pid: Some(1234),
        target_path: Some("/usr/bin/test".to_string()),
    };
    let key2 = DeduplicationKey {
        collector: "binary-hasher".to_string(),
        analysis_type: AnalysisType::BinaryHash,
        target_pid: Some(1234),
        target_path: Some("/usr/bin/test".to_string()),
    };
    assert_eq!(key1, key2);
    assert!(key1.same_key(&key2));
}

#[test]
fn trigger_test_trigger_priority_ordering() {
    assert!(TriggerPriority::Critical > TriggerPriority::High);
    assert!(TriggerPriority::High > TriggerPriority::Normal);
    assert!(TriggerPriority::Normal > TriggerPriority::Low);
}

#[test]
fn test_collector_capability_registration() {
    let mut manager = TriggerManager::new(TriggerConfig::default());
    let capabilities = create_test_capabilities();
    let collector_id = capabilities.collector_id.clone();
    assert!(manager.register_collector_capabilities(capabilities).is_ok());
    assert_eq!(manager.get_statistics().unwrap().registered_capabilities, 1);
    let retrieved_caps = manager.get_collector_capabilities(&collector_id);
    assert!(retrieved_caps.is_some());
    assert_eq!(retrieved_caps.unwrap().collector_id, collector_id);
    let all = manager.get_all_collector_capabilities();
    assert_eq!(all.len(), 1);
    assert_eq!(all[0].collector_id, collector_id);
    assert_eq!(manager.registered_collectors(), vec![collector_id.clone()]);
}

#[test]
fn test_capability_validation() {
    let mut manager = TriggerManager::new(TriggerConfig::default());
    manager.register_collector_capabilities(create_test_capabilities()).unwrap();
    assert!(manager.validate_trigger_condition(&create_test_condition()).is_ok());
    let invalid_condition = TriggerCondition {
        id: "invalid_condition".to_string(),
        description: "Invalid condition".to_string(),
        analysis_type: AnalysisType::YaraScan,
        priority: TriggerPriority::Normal,
        target_collector: "binary-hasher".to_string(),
        condition_type: ConditionType::ProcessNamePattern("test".to_string()),
    };
    assert!(manager.validate_trigger_condition(&invalid_condition).is_err());
}

#[test]
fn condition_for_unknown_collector_is_refused() {
    let mut manager = TriggerManager::new(TriggerConfig::default());
    match manager.register_condition(create_test_condition()) {
        Err(TriggerError::ConfigError(m)) => assert_eq!(m, "No capabilities registered for collector: binary-hasher"),
        other => panic!("unexpected outcome: {:?}", other),
    }
}

#[test]
fn test_sql_trigger_evaluation() {
    let mut manager = manager_with_condition(TriggerConfig::default());
    let triggers = manager.evaluate_triggers(&create_test_process_data()).unwrap();
    assert_eq!(triggers.len(), 1);
    assert_eq!(triggers[0].target_collector, "binary-hasher");
}

fn queue_request(id: &str, priority: TriggerPriority, pid: u32) -> TriggerRequest {
    TriggerRequest {
        trigger_id: id.to_string(),
        target_collector: "test".to_string(),
        analysis_type: AnalysisType::BinaryHash,
        priority,
        target_pid: Some(pid),
        target_path: None,
        correlation_id: format!("corr_{}", id),
        metadata: StrMap::new(),
        timestamp: 0,
    }
}

#[test]
fn test_priority_queue_operations() {
    let mut queue = PriorityTriggerQueue::new(100, 80);
    assert!(queue.enqueue(queue_request("low", TriggerPriority::Low, 5678)).is_ok());
    assert!(queue.enqueue(queue_request("high", TriggerPriority::High, 1234)).is_ok());
    let first = queue.dequeue().unwrap();
    assert_eq!(first.trigger_id, "high");
    assert_eq!(first.priority, TriggerPriority::High);
    let second = queue.dequeue().unwrap();
    assert_eq!(second.trigger_id, "low");
    assert_eq!(second.priority, TriggerPriority::Low);
    assert!(queue.dequeue().is_none());
}

#[test]
fn test_backpressure_handling() {
    let mut queue = PriorityTriggerQueue::new(10, 50);
    for i in 0..5u32 {
        assert!(queue.enqueue(queue_request(&format!("trigger_{}", i), TriggerPriority::Normal, i)).is_ok());
    }
    assert!(queue.is_backpressure_active());
    let result = queue.enqueue(queue_request("low_priority", TriggerPriority::Low, 9999));
    assert!(result.is_err());
    assert!(matches!(result.unwrap_err(), TriggerError::BackpressureActive));
    assert!(queue.enqueue(queue_request("high_priority", TriggerPriority::Critical, 8888)).is_ok());
    let stats = queue.get_statistics();
    assert_eq!(stats.dropped_backpressure, 1);
}

#[test]
fn full_lane_refuses_every_priority() {
    let mut queue = PriorityTriggerQueue::new(4, 100);
    assert!(queue.enqueue(queue_request("a", TriggerPriority::Critical, 1)).is_ok());
    assert!(queue.enqueue(queue_request("b", TriggerPriority::Critical, 2)).is_ok());
    assert!(matches!(queue.enqueue(queue_request("c", TriggerPriority::Critical, 3)), Err(TriggerError::QueueFull(_))));
    assert_eq!(queue.len(), 2);
}

#[test]
fn test_trigger_statistics_collection() {
    let mut manager = manager_with_condition(TriggerConfig::default());
    let stats = manager.get_statistics().unwrap();
    assert_eq!(stats.registered_conditions, 1);
    assert_eq!(stats.registered_capabilities, 1);
    assert_eq!(stats.queue_stats.total_enqueued, 0);
    assert_eq!(stats.sql_evaluation_stats.total_evaluations, 0);
    let _triggers = manager.evaluate_sql_triggers("binary-hasher", &create_test_process_data()).unwrap();
    assert!(manager.get_statistics().unwrap().sql_evaluation_stats.total_evaluations > 0);
}

#[test]
fn test_invalid_capability_registration() {
    let mut manager = TriggerManager::new(TriggerConfig::default());
    let mut invalid = create_test_capabilities();
    invalid.collector_id = String::new();
    assert!(manager.register_collector_capabilities(invalid).is_err());
    let mut invalid = create_test_capabilities();
    invalid.max_trigger_rate = 0;
    assert!(manager.register_collector_capabilities(invalid).is_err());
    let mut invalid = create_test_capabilities();
    invalid.resource_limits.max_memory_per_task = 0;
    assert!(manager.register_collector_capabilities(invalid).is_err());
}

#[test]
fn test_trigger_request_validation() {
    let mut manager = TriggerManager::new(TriggerConfig::default());
    manager.register_collector_capabilities(create_test_capabilities()).unwrap();
    assert!(manager.validate_trigger_request(&create_test_trigger_request()).is_ok());
    let mut unknown = create_test_trigger_request();
    unknown.target_collector = "unknown-collector".to_string();
    assert!(matches!(manager.validate_trigger_request(&unknown), Err(TriggerError::ValidationError(_))));
    let mut unsupported = create_test_trigger_request();
    unsupported.analysis_type = AnalysisType::Custom("unsupported".to_string());
    assert!(matches!(manager.validate_trigger_request(&unsupported), Err(TriggerError::ValidationError(_))));
    let mut oversized = create_test_trigger_request();
    oversized.metadata.insert("large_key".to_string(), "x".repeat(70000));
    assert!(matches!(manager.validate_trigger_request(&oversized), Err(TriggerError::ValidationError(_))));
}

#[test]
fn test_trigger_request_emission() {
    let mut manager = TriggerManager::new(TriggerConfig::default());
    manager.register_collector_capabilities(create_test_capabilities()).unwrap();
    let result = manager.prepare_emission(&create_test_trigger_request(), false);
    assert!(matches!(result, Err(TriggerError::EventBusError(_))));
    let stats = manager.get_statistics().unwrap();
    assert_eq!(stats.emission_stats.total_emitted, 0);
    assert_eq!(stats.emission_stats.successful_emissions, 0);
}

#[test]
fn test_trigger_timeout_handling() {
    let mut manager = TriggerManager::new(TriggerConfig::default());
    manager.register_collector_capabilities(create_test_capabilities()).unwrap();
    let trigger = create_test_trigger_request();
    manager.track_trigger_timeout_at(&trigger, 1000);
    assert!(manager.is_trigger_tracked(&trigger.trigger_id));
    assert!(manager.complete_trigger_request(&trigger.trigger_id).is_ok());
    assert!(!manager.is_trigger_tracked(&trigger.trigger_id));

    manager.track_trigger_timeout_at(&trigger, 1000);
    let early = manager.handle_trigger_timeouts_at(1010).unwrap();
    assert!(early.is_empty());
    let timed_out = manager.handle_trigger_timeouts_at(1000 + 3600).unwrap();
    assert_eq!(timed_out, vec![trigger.trigger_id.clone()]);
    assert!(!manager.is_trigger_tracked(&trigger.trigger_id));
    assert_eq!(manager.get_statistics().unwrap().emission_stats.timeouts, 1);
}

#[test]
fn sql_expression_screening() {
    let evaluator = SqlTriggerEvaluator::new();
    assert!(evaluator.parse_sql_expression("name = 'test'").is_ok());
    assert!(matches!(evaluator.parse_sql_expression("name = 'a' or 1 in (select 1)"), Err(TriggerError::SqlParsingError(_))));
    assert!(matches!(evaluator.parse_sql_expression("pid > 1 from t"), Err(TriggerError::SqlParsingError(_))));
    assert!(matches!(evaluator.parse_sql_expression("p.name = 'x'"), Err(TriggerError::SqlParsingError(_))));
    match evaluator.parse_sql_expression("name = = 'x'") {
        Err(TriggerError::SqlParsingError(m)) => assert!(m.starts_with("Failed to parse SQL expression: ")),
        other => panic!("unexpected: {:?}", other.is_ok()),
    }
}

#[test]
fn test_trigger_timeout_tracking() {
    let mut manager = TriggerManager::new(TriggerConfig::default());
    manager.register_collector_capabilities(create_test_capabilities()).unwrap();
    let trigger = create_test_trigger_request();
    assert!(manager.track_trigger_timeout(&trigger).is_ok());
    assert!(manager.is_trigger_tracked(&trigger.trigger_id));
    assert!(manager.complete_trigger_request(&trigger.trigger_id).is_ok());
    assert!(!manager.is_trigger_tracked(&trigger.trigger_id));
}

#[test]
fn test_emission_statistics_tracking() {
    let mut manager = TriggerManager::new(TriggerConfig::default());
    manager.register_collector_capabilities(create_test_capabilities()).unwrap();
    let initial = manager.get_statistics().unwrap();
    assert_eq!(initial.emission_stats.total_emitted, 0);
    assert_eq!(initial.emission_stats.successful_emissions, 0);
    assert_eq!(initial.emission_stats.validation_failures, 0);
    let mut invalid = create_test_trigger_request();
    invalid.trigger_id = "invalid_trigger".to_string();
    invalid.target_collector = "unknown-collector".to_string();
    invalid.target_path = None;
    assert!(manager.prepare_emission(&invalid, true).is_err());
    assert_eq!(manager.get_statistics().unwrap().emission_stats.total_emitted, 0);
}

#[test]
fn validation_failure_is_counted() {
    let mut manager = TriggerManager::new(TriggerConfig::default());
    manager.register_collector_capabilities(create_test_capabilities()).unwrap();
    let mut invalid = create_test_trigger_request();
    invalid.target_collector = "unknown-collector".to_string();
    assert!(matches!(manager.prepare_emission(&invalid, true), Err(TriggerError::ValidationError(_))));
    let stats = manager.get_statistics().unwrap();
    assert_eq!(stats.emission_stats.validation_failures, 1);
    assert_eq!(stats.emission_stats.total_emitted, 0);
    assert!(manager.prepare_emission(&create_test_trigger_request(), true).is_ok());
    assert!(matches!(manager.prepare_emission(&create_test_trigger_request(), false), Err(TriggerError::EventBusError(_))));
    assert_eq!(manager.get_statistics().unwrap().emission_stats.validation_failures, 1);
}

#[test]
fn statistics_report_queue_depth_and_counters() {
    let mut manager = manager_with_condition(TriggerConfig::default());
    let triggers = manager.evaluate_sql_triggers("binary-hasher", &create_test_process_data()).unwrap();
    assert_eq!(triggers.len(), 1);
    let stats = manager.get_statistics().unwrap();
    assert_eq!(stats.pending_triggers, 1);
    assert_eq!(stats.pending_triggers, manager.get_queue_depth());
    assert_eq!(stats.queue_stats.total_enqueued, 1);
    assert_eq!(stats.queue_stats.dropped_backpressure, 0);
    assert_eq!(stats.queue_stats.dropped_queue_full, 0);
    assert_eq!(stats.sql_evaluation_stats.total_evaluations, 1);
}

#[test]
fn emission_correlation_is_tagged() {
    let trigger = create_test_trigger_request();
    let m = TriggerManager::emission_correlation(&trigger);
    assert_eq!(m.correlation_id, "test_correlation_456");
    assert_eq!(m.root_correlation_id, "test_correlation_456");
    assert_eq!(m.sequence_number, 0);
    assert!(m.parent_correlation_id.is_none());
    assert_eq!(m.correlation_tags.len(), 1);
    assert_eq!(m.correlation_tags.get("trigger_source").map(|s| s.as_str()), Some("trigger_manager"));
}
