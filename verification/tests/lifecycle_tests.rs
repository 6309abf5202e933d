use collector_core::bridge::{
    event_from_task, translate_busrt_event_to_detection_result, BusProcessRecord, BusrtEvent, BusrtTopic, EventPayload,
    IpcBridgeConfig, IpcBusrtBridge, PlaceholderBusrtClient, ProcessEventType, TranslationAction, TranslationMessage,
};
use collector_core::event::{CollectionEvent, ProcessEvent, TriggerPriority, TriggerRequest, AnalysisType};
use collector_core::health::{
    aggregate_worst_of, CollectorConfigProvider, CollectorHealthProvider, CollectorRegistrationProvider, ComponentHealthStatus,
    HealthMonitor, HealthStatus, ProviderError, RegistrationRequest,
};
use collector_core::ipc::{source_caps_to_proto_capabilities, CollectorIpcServer, MonitoringDomain, TaskRejection, TaskType};
use collector_core::monitor::{
    monitor_health_check, CollectorConfig, CollectorConfigError, MonitorCollectorConfig, MonitorCollectorStats,
};
use collector_core::performance::{PerformanceConfig, PerformanceMonitor};
use collector_core::pushdown::{
    ColumnDescriptor, DescriptorOp, DetectionTask, Predicate, PredicateOp, PushdownBounds, PushdownPlan, PushdownRejection,
    PushdownTasks, SchemaDescriptor, TableDescriptor, TaskStatus,
};
use collector_core::rpc::{
    response_topic, CollectorRpcServiceManager, MessageRoute, RpcOperation, RpcPayload, RpcRequest, RpcServiceConfig,
    RpcServiceError, RpcStatus, TaskRun,
};
use collector_core::shutdown::{
    shutdown_steps, task_response, ShutdownConfig, ShutdownCoordinator, ShutdownError, ShutdownEvent, ShutdownPhase,
    ShutdownRequest, ShutdownResponse, ShutdownStep,
};
use collector_core::source::SourceCaps;
use collector_core::strmap::StrMap;

#[test]
fn test_worst_of_aggregation() {
    assert_eq!(aggregate_worst_of(&vec![]), HealthStatus::Unknown);
    assert_eq!(aggregate_worst_of(&vec![HealthStatus::Healthy]), HealthStatus::Healthy);
    assert_eq!(aggregate_worst_of(&vec![HealthStatus::Healthy, HealthStatus::Degraded]), HealthStatus::Degraded);
    assert_eq!(
        aggregate_worst_of(&vec![HealthStatus::Healthy, HealthStatus::Degraded, HealthStatus::Unhealthy]),
        HealthStatus::Unhealthy
    );
    assert_eq!(aggregate_worst_of(&vec![HealthStatus::Unknown, HealthStatus::Unknown]), HealthStatus::Unknown);
}

#[test]
fn health_monitor_tracks_components() {
    let mut monitor = HealthMonitor::new("c1".to_string(), 1000);
    assert_eq!(monitor.get_overall_health(), HealthStatus::Unknown);
    monitor.register_component("db", HealthStatus::Degraded, 5);
    let db = monitor.get_component_health("db").unwrap();
    assert_eq!(db.check_count, 1);
    assert_eq!(db.failure_count, 1);
    monitor.update_component_health("db", HealthStatus::Healthy, Some("ok".to_string()), 6);
    monitor.update_component_health("net", HealthStatus::Unhealthy, None, 7);
    let db = monitor.get_component_health("db").unwrap();
    assert_eq!(db.check_count, 2);
    assert_eq!(db.failure_count, 1);
    assert_eq!(db.message.as_deref(), Some("ok"));
    assert_eq!(monitor.get_component_health("net").unwrap().check_count, 1);
    assert_eq!(monitor.get_overall_health(), HealthStatus::Unknown);
    assert_eq!(monitor.refresh_overall_health(), HealthStatus::Unhealthy);
    assert_eq!(monitor.get_overall_health(), HealthStatus::Unhealthy);
    assert_eq!(monitor.get_all_components().len(), 2);
    let fresh = ComponentHealthStatus::new("x", HealthStatus::Healthy, None, 9);
    assert_eq!(fresh.check_count, 0);
    assert_eq!(fresh.last_check_ms, 9);
}

#[test]
fn health_provider_answers_for_its_collector() {
    let provider = CollectorHealthProvider { collector_id: "procmond".to_string() };
    assert!(matches!(provider.get_collector_health("other", None, 1), Err(ProviderError::ProcessNotFound(id)) if id == "other"));
    let none = provider.get_collector_health("procmond", None, 1).unwrap();
    assert_eq!(none.status, HealthStatus::Unknown);
    assert!(none.components.is_empty());
    let some = provider.get_collector_health("procmond", Some(HealthStatus::Degraded), 1).unwrap();
    assert_eq!(some.status, HealthStatus::Degraded);
    assert_eq!(some.components[0].message.as_deref(), Some("Status: Degraded"));
}

#[test]
fn config_and_registration_providers() {
    let config = CollectorConfigProvider { collector_id: "c".to_string() };
    assert!(config.get_config("c").is_ok());
    assert!(matches!(config.get_config("d"), Err(ProviderError::ConfigNotFound(m)) if m == "Collector d not found"));
    let update = config.update_config("c", vec!["a".to_string()], 3).unwrap();
    assert_eq!(update.version, 1);
    assert_eq!(update.changed_fields, vec!["a".to_string()]);
    let mut reg = CollectorRegistrationProvider::new("c".to_string());
    let req = RegistrationRequest { collector_id: "c".to_string(), heartbeat_interval_ms: None };
    assert_eq!(reg.register_collector(req.clone()).unwrap().heartbeat_interval_ms, 30000);
    assert!(matches!(reg.register_collector(req), Err(ProviderError::AlreadyRegistered(_))));
    let wrong = RegistrationRequest { collector_id: "x".to_string(), heartbeat_interval_ms: Some(5) };
    assert!(matches!(reg.register_collector(wrong), Err(ProviderError::Validation(m)) if m == "Collector ID mismatch: expected c, got x"));
    assert!(reg.deregister_collector("c".to_string()).is_ok());
    assert!(matches!(reg.deregister_collector("c".to_string()), Err(ProviderError::NotFound(_))));
    assert!(reg.update_heartbeat("c").is_ok());
    assert!(reg.update_heartbeat("z").is_err());
}

#[test]
fn test_config_validation() {
    let valid_config = MonitorCollectorConfig::default();
    assert!(valid_config.validate().is_ok());
    let invalid_interval_config = MonitorCollectorConfig { collection_interval_ms: 500, ..Default::default() };
    assert!(invalid_interval_config.validate().is_err());
    let invalid_events_config = MonitorCollectorConfig { max_events_in_flight: 0, ..Default::default() };
    assert!(invalid_events_config.validate().is_err());
    let invalid_timeout_config = MonitorCollectorConfig { shutdown_timeout_ms: 400_000, ..Default::default() };
    assert!(invalid_timeout_config.validate().is_err());
}

#[test]
fn test_stats_snapshot() {
    let mut stats = MonitorCollectorStats::default();
    stats.collection_cycles = 10;
    stats.lifecycle_events = 25;
    stats.events_in_flight = 5;
    let snapshot = stats.snapshot();
    assert_eq!(snapshot.collection_cycles, 10);
    assert_eq!(snapshot.lifecycle_events, 25);
    assert_eq!(snapshot.events_in_flight, 5);
    assert_eq!(snapshot.trigger_requests, 0);
    assert_eq!(snapshot.backpressure_events, 0);
}

#[test]
fn monitor_health_check_error_rate() {
    let mut stats = MonitorCollectorStats::default();
    assert!(monitor_health_check(&stats.snapshot()).is_ok());
    stats.collection_cycles = 10;
    stats.collection_errors = 2;
    assert!(monitor_health_check(&stats.snapshot()).is_ok());
    stats.collection_errors = 3;
    let err = monitor_health_check(&stats.snapshot()).unwrap_err();
    assert_eq!(err.total_errors, 3);
    assert_eq!(err.total_operations, 10);
}

#[test]
fn collector_config_validation() {
    let mut config = CollectorConfig::default();
    config.binary_path = "/nope".to_string();
    assert_eq!(config.validate(false), Err(CollectorConfigError::BinaryMissing("/nope".to_string())));
    assert_eq!(config.validate(false).unwrap_err().to_string(), "Binary path does not exist: /nope");
    assert!(config.validate(true).is_ok());
    config.max_restarts = 101;
    assert_eq!(config.validate(true), Err(CollectorConfigError::TooManyRestarts));
}

#[test]
fn test_performance_config_default() {
    let config = PerformanceConfig::default();
    assert!(config.enabled);
    assert_eq!(config.collection_interval_ms, 10_000);
    assert_eq!(config.max_latency_samples, 1000);
    assert_eq!(config.max_throughput_samples, 100);
    assert!(config.enable_trigger_latency_tracking);
}

fn sample_process_event() -> CollectionEvent {
    CollectionEvent::Process(ProcessEvent {
        pid: 1234,
        ppid: Some(1),
        name: "test_process".to_string(),
        executable_path: Some("/usr/bin/test".to_string()),
        command_line: vec!["test".to_string()],
        start_time: Some(1),
        cpu_usage_bits: Some(1.5f64.to_bits()),
        memory_usage: Some(1024 * 1024),
        executable_hash: Some("test_hash".to_string()),
        hash_algorithm: Some("sha256".to_string()),
        user_id: Some("1000".to_string()),
        accessible: true,
        file_exists: true,
        timestamp: 1,
        platform_metadata: None,
    })
}

#[test]
fn test_performance_monitor_creation() {
    let monitor = PerformanceMonitor::new(PerformanceConfig::default(), 0);
    assert_eq!(monitor.events_processed(), 0);
    assert_eq!(monitor.trigger_count(), 0);
}

#[test]
fn test_event_recording() {
    let mut monitor = PerformanceMonitor::new(PerformanceConfig::default(), 0);
    monitor.record_event(&sample_process_event());
    assert_eq!(monitor.events_processed(), 1);
    assert_eq!(monitor.events_in_current_window(), 1);
}

#[test]
fn test_memory_usage_update() {
    let mut monitor = PerformanceMonitor::new(PerformanceConfig::default(), 0);
    monitor.update_memory_usage(1024 * 1024, 1);
    monitor.update_memory_usage(2 * 1024 * 1024, 2);
    monitor.update_memory_usage(1536 * 1024, 3);
    let (current, peak, avg) = monitor.memory_summary();
    assert_eq!(current, 1536 * 1024);
    assert_eq!(peak, 2 * 1024 * 1024);
    assert_eq!(avg, 1536 * 1024);
}

#[test]
fn test_window_reset() {
    let mut monitor = PerformanceMonitor::new(PerformanceConfig::default(), 0);
    for _ in 0..50 {
        monitor.record_event(&sample_process_event());
    }
    monitor.reset_window(10);
    assert_eq!(monitor.events_in_current_window(), 0);
    assert_eq!(monitor.events_processed(), 50);
    assert_eq!(monitor.window_start_ms(), 10);
}

#[test]
fn test_disabled_monitoring() {
    let config = PerformanceConfig { enabled: false, ..Default::default() };
    let mut monitor = PerformanceMonitor::new(config, 0);
    monitor.record_event(&sample_process_event());
    monitor.update_memory_usage(2 * 1024 * 1024, 1);
    assert_eq!(monitor.events_processed(), 0);
    assert!(monitor.memory_samples().is_empty());
}

#[test]
fn test_trigger_latency_tracking() {
    let mut monitor = PerformanceMonitor::new(PerformanceConfig::default(), 0);
    let trigger = TriggerRequest {
        trigger_id: "test_trigger".to_string(),
        target_collector: "test_collector".to_string(),
        analysis_type: AnalysisType::YaraScan,
        priority: TriggerPriority::Normal,
        target_pid: Some(1234),
        target_path: None,
        correlation_id: "test_correlation".to_string(),
        metadata: StrMap::new(),
        timestamp: 0,
    };
    monitor.record_trigger_start("test_trigger", 100);
    assert_eq!(monitor.record_trigger_completion("test_trigger", &trigger, 112), Some(12));
    assert_eq!(monitor.trigger_count(), 1);
    assert_eq!(monitor.latency_samples(), &vec![12]);
    assert_eq!(monitor.record_trigger_completion("test_trigger", &trigger, 130), None);
}

#[test]
fn memory_window_keeps_the_newest_samples() {
    let config = PerformanceConfig { max_throughput_samples: 2, ..Default::default() };
    let mut monitor = PerformanceMonitor::new(config, 0);
    monitor.update_memory_usage(1, 1);
    monitor.update_memory_usage(2, 2);
    monitor.update_memory_usage(3, 3);
    assert_eq!(monitor.memory_samples(), &vec![2, 3]);
}

#[test]
fn default_config_is_consistent() {
    assert!(RpcServiceConfig::default().validate().is_ok());
}

#[test]
fn validate_accepts_consistent_topic() {
    let config = RpcServiceConfig {
        collector_id: "process".to_owned(),
        rpc_topic: RpcServiceConfig::topic_for_collector("process"),
        default_timeout_ms: 30_000,
    };
    assert!(config.validate().is_ok());
}

#[test]
fn validate_rejects_drifted_topic() {
    let config = RpcServiceConfig {
        collector_id: "process".to_owned(),
        rpc_topic: "control.collector.network".to_owned(),
        default_timeout_ms: 30_000,
    };
    let error = config.validate().unwrap_err().to_string();
    assert!(error.contains("inconsistent"), "unexpected error: {error}");
    assert_eq!(
        error,
        "rpc_topic 'control.collector.network' is inconsistent with collector_id 'process' (expected 'control.collector.process')"
    );
}

#[test]
fn validate_rejects_empty_collector_id() {
    let config = RpcServiceConfig {
        collector_id: String::new(),
        rpc_topic: "control.collector.".to_owned(),
        default_timeout_ms: 30_000,
    };
    assert!(config.validate().is_err());
}

fn request(op: RpcOperation) -> RpcRequest {
    RpcRequest { request_id: "r1".to_string(), client_id: "cli".to_string(), operation: op, payload: RpcPayload::Other }
}

#[test]
fn rpc_manager_routes_and_answers() {
    let mut manager = CollectorRpcServiceManager::new(RpcServiceConfig::default());
    assert!(manager.start(Err("down".to_string())).is_err());
    assert!(!manager.is_started());
    assert!(manager.start(Ok(())).is_ok());
    assert!(matches!(manager.start(Ok(())), Err(RpcServiceError::AlreadyStarted)));
    assert_eq!(RpcServiceError::AlreadyStarted.to_string(), "RPC service already started");

    assert_eq!(manager.route("control.rpc.response.x", Some(RpcOperation::Start)), MessageRoute::Skip);
    assert_eq!(manager.route("control.collector.collector", None), MessageRoute::Skip);
    assert_eq!(manager.route("control.collector.collector", Some(RpcOperation::Start)), MessageRoute::Delegate);
    assert_eq!(manager.route("control.collector.collector", Some(RpcOperation::ExecuteTask)), MessageRoute::ExecuteTask);
    assert_eq!(manager.route("control.collector.collector", Some(RpcOperation::ForceShutdown)), MessageRoute::Shutdown);
    assert_eq!(manager.route("control.collector.collector", Some(RpcOperation::HealthCheck)), MessageRoute::Delegate);
    manager.set_runtime();
    assert_eq!(manager.route("control.collector.collector", Some(RpcOperation::Stop)), MessageRoute::Lifecycle);

    let start = manager.lifecycle_reply(&request(RpcOperation::Start), 5);
    assert_eq!(start.status, RpcStatus::Success);
    assert!(!manager.shutdown_requested());
    let stop = manager.lifecycle_reply(&request(RpcOperation::Stop), 6);
    assert_eq!(stop.operation, RpcOperation::Stop);
    assert_eq!(stop.service_id, "collector");
    assert!(manager.shutdown_requested());
    assert_eq!(response_topic("cli"), "control.rpc.response.cli");
    assert!(manager.stop());
}

#[test]
fn rpc_task_replies_name_the_failed_step() {
    let manager = CollectorRpcServiceManager::new(RpcServiceConfig::default());
    let req = request(RpcOperation::ExecuteTask);
    let ok = manager.task_reply(&req, TaskRun::Done("{}".to_string()), 1, 2);
    assert_eq!(ok.status, RpcStatus::Success);
    assert_eq!(ok.payload, Some(RpcPayload::TaskResult("{}".to_string())));
    let failed = manager.task_reply(&req, TaskRun::HandlerFailed("boom".to_string()), 1, 2);
    assert_eq!(failed.status, RpcStatus::Error);
    let details = failed.error_details.unwrap();
    assert_eq!(details.code, "EXECUTION_ERROR");
    assert_eq!(details.message, "Task execution failed: boom");
    let none = manager.task_reply(&req, TaskRun::NoHandler, 1, 2);
    assert_eq!(none.error_details.unwrap().message, "No task handler registered");
    let ser = manager.serialization_error_reply(&req, "bad", 3);
    assert_eq!(ser.error_details.unwrap().message, "Failed to serialize RPC response for request r1: bad");
}

#[test]
fn test_graceful_shutdown() {
    let config = ShutdownConfig {
        graceful_timeout_ms: 5000,
        forced_timeout_ms: 1000,
        sequence_delay_ms: 100,
        enable_parallel_shutdown: false,
        max_concurrent_shutdowns: 1,
    };
    let mut coordinator = ShutdownCoordinator::new(config);
    let request = ShutdownRequest {
        collector_id: "test-collector".to_string(),
        reason: "Test shutdown".to_string(),
        force: false,
        timeout_ms: None,
    };
    let started = coordinator.begin_shutdown(&request, 0);
    assert!(matches!(started, ShutdownEvent::ShutdownInitiated { timeout_ms: 5000, .. }));
    let mut outcome = Ok(());
    for step in shutdown_steps(false) {
        if let ShutdownStep::EnterPhase(p) = step {
            if let Err(e) = coordinator.update_shutdown_phase("test-collector", p, 1) {
                outcome = Err(e);
            }
        } else if let ShutdownStep::Cleanup = step {
            coordinator.cleanup_collector_resources("test-collector");
        }
    }
    let (response, _event) = coordinator.finish_shutdown("test-collector", &outcome, 10, 2);
    assert!(response.success);
    assert_eq!(response.final_phase, ShutdownPhase::Completed);
}

#[test]
fn test_forced_shutdown() {
    let mut coordinator = ShutdownCoordinator::new(ShutdownConfig::default());
    let request = ShutdownRequest {
        collector_id: "test-collector".to_string(),
        reason: "Test forced shutdown".to_string(),
        force: true,
        timeout_ms: None,
    };
    assert_eq!(coordinator.shutdown_timeout(&request), 10_000);
    coordinator.begin_shutdown(&request, 0);
    let steps = shutdown_steps(true);
    assert_eq!(steps[0], ShutdownStep::EnterPhase(ShutdownPhase::Forced));
    for step in steps {
        if let ShutdownStep::EnterPhase(p) = step {
            coordinator.update_shutdown_phase("test-collector", p, 1).unwrap();
        }
    }
    let (response, _) = coordinator.finish_shutdown("test-collector", &Ok(()), 1, 1);
    assert!(response.success);
    assert_eq!(response.final_phase, ShutdownPhase::Completed);
}

#[test]
fn test_shutdown_events() {
    let mut coordinator = ShutdownCoordinator::new(ShutdownConfig::default());
    let request = ShutdownRequest {
        collector_id: "event-test".to_string(),
        reason: "Test events".to_string(),
        force: false,
        timeout_ms: None,
    };
    match coordinator.begin_shutdown(&request, 0) {
        ShutdownEvent::ShutdownInitiated { collector_id, .. } => assert_eq!(collector_id, "event-test"),
        other => panic!("Expected ShutdownInitiated event, got {:?}", other),
    }
}

#[test]
fn unknown_collector_phase_update_fails() {
    let mut coordinator = ShutdownCoordinator::new(ShutdownConfig::default());
    let err = coordinator.update_shutdown_phase("ghost", ShutdownPhase::Preparing, 1).unwrap_err();
    assert_eq!(err.to_string(), "Collector not found: ghost");
    let (response, event) = coordinator.finish_shutdown("ghost", &Err(err), 3, 4);
    assert!(!response.success);
    assert_eq!(response.final_phase, ShutdownPhase::Failed);
    assert_eq!(response.error_message.as_deref(), Some("Collector not found: ghost"));
    assert!(matches!(event, ShutdownEvent::ShutdownFailed { .. }));
    let _ = ShutdownError::CollectorNotFound { collector_id: "x".to_string() };
}

#[test]
fn global_shutdown_counts_outcomes() {
    let mut coordinator = ShutdownCoordinator::new(ShutdownConfig::default());
    for id in ["a", "b"] {
        coordinator.begin_shutdown(&ShutdownCoordinator::global_request(id, "r"), 0);
    }
    let (ids, event) = coordinator.begin_global_shutdown("stop all", 1);
    assert_eq!(ids, vec!["a".to_string(), "b".to_string()]);
    assert!(matches!(event, ShutdownEvent::GlobalShutdownInitiated { collector_count: 2, .. }));
    assert!(coordinator.is_global_shutdown_active());
    let ok = ShutdownResponse { success: true, error_message: None, duration_ms: 1, final_phase: ShutdownPhase::Completed };
    let failed = task_response(Err("Task join failed: x".to_string()));
    assert_eq!(failed.final_phase, ShutdownPhase::Failed);
    let event = coordinator.end_global_shutdown(&vec![ok, failed], 5, 6);
    assert!(matches!(event, ShutdownEvent::GlobalShutdownCompleted { successful_shutdowns: 1, failed_shutdowns: 1, .. }));
    assert!(!coordinator.is_global_shutdown_active());
}

fn schema() -> SchemaDescriptor {
    SchemaDescriptor {
        tables: vec![TableDescriptor {
            name: "processes".to_string(),
            columns: vec![
                ColumnDescriptor { name: "name".to_string(), supported_ops: vec![DescriptorOp::Eq, DescriptorOp::In] },
                ColumnDescriptor { name: "pid".to_string(), supported_ops: vec![DescriptorOp::Lt] },
            ],
        }],
    }
}

fn bounds() -> PushdownBounds {
    PushdownBounds { max_identifier_length: 64, max_ttl_ms: 60_000 }
}

fn task(id: &str, preds: Vec<Predicate>, projection: Vec<&str>, ttl: u64) -> DetectionTask {
    DetectionTask {
        task_id: id.to_string(),
        pushdown_plan: Some(PushdownPlan {
            table: "processes".to_string(),
            predicates: preds,
            projection: projection.into_iter().map(|s| s.to_string()).collect(),
            ttl_ms: ttl,
        }),
    }
}

fn pred(column: &str, op: PredicateOp, n: usize) -> Predicate {
    Predicate { column: column.to_string(), op, values: vec!["v".to_string(); n] }
}

#[test]
fn pushdown_accepts_valid_task_and_expires_it() {
    let mut tasks = PushdownTasks::new(schema(), bounds());
    assert!(tasks.accept(&task("t1", vec![pred("name", PredicateOp::In, 2)], vec!["pid"], 1000), 100).is_ok());
    assert_eq!(tasks.status("t1", 100), TaskStatus::Active);
    assert_eq!(tasks.status("t1", 1099), TaskStatus::Active);
    assert_eq!(tasks.status("t1", 1100), TaskStatus::Expired);
    assert_eq!(tasks.status("nope", 100), TaskStatus::Unknown);
    assert_eq!(tasks.active_count(500), 1);
    assert_eq!(tasks.active_count(2000), 0);
}

#[test]
fn pushdown_refuses_whole_task() {
    let mut tasks = PushdownTasks::new(schema(), bounds());
    let bad = task("t2", vec![pred("name", PredicateOp::Eq, 1), pred("pid", PredicateOp::Eq, 1)], vec![], 1000);
    assert!(matches!(tasks.accept(&bad, 0), Err(PushdownRejection::UnsupportedOperation { op: DescriptorOp::Eq, .. })));
    assert_eq!(tasks.status("t2", 0), TaskStatus::Unknown);
    let no_plan = DetectionTask { task_id: "t3".to_string(), pushdown_plan: None };
    assert_eq!(tasks.accept(&no_plan, 0), Err(PushdownRejection::MissingPlan));
    assert_eq!(tasks.accept(&task("", vec![], vec![], 10), 0), Err(PushdownRejection::MissingTaskId));
    assert!(matches!(tasks.accept(&task("t4", vec![], vec!["cpu"], 10), 0), Err(PushdownRejection::UnknownColumn { .. })));
    assert!(matches!(tasks.accept(&task("t5", vec![pred("name", PredicateOp::Eq, 2)], vec![], 10), 0), Err(PushdownRejection::InvalidArity { values: 2, .. })));
    assert!(matches!(tasks.accept(&task("t6", vec![pred("name", PredicateOp::Unspecified, 1)], vec![], 10), 0), Err(PushdownRejection::UnspecifiedOperation { .. })));
    assert_eq!(tasks.accept(&task("t7", vec![], vec![], 0), 0), Err(PushdownRejection::InvalidTtl { ttl_ms: 0 }));
    assert_eq!(tasks.accept(&task("t8", vec![], vec![], 60_001), 0), Err(PushdownRejection::InvalidTtl { ttl_ms: 60_001 }));
    let long = "x".repeat(65);
    assert_eq!(tasks.accept(&task(&long, vec![], vec![], 10), 0), Err(PushdownRejection::IdentifierTooLong { length: 65 }));
    let mut unknown_table = task("t9", vec![], vec![], 10);
    unknown_table.pushdown_plan.as_mut().unwrap().table = "sockets".to_string();
    assert!(matches!(tasks.accept(&unknown_table, 0), Err(PushdownRejection::UnknownTable { .. })));
    assert_eq!(tasks.active_count(0), 0);
}

#[test]
fn test_busrt_event_translation() {
    let mut bridge = IpcBusrtBridge::new(IpcBridgeConfig::default(), 7);
    assert_eq!(bridge.mapped_topic("enumerate_processes"), Some(BusrtTopic::EventsProcessEnumeration));
    assert_eq!(bridge.mapped_topic("agent_tasks"), Some(BusrtTopic::ControlAgentTasks));
    assert_eq!(bridge.mapped_topic("nothing"), None);
    let action = bridge.process_translation_message(TranslationMessage::IpcToBusrt {
        task_id: "test-task-123".to_string(),
        task_type: 0,
        correlation_id: "test-correlation-456".to_string(),
        ticket: 9,
    });
    match action {
        TranslationAction::Publish(e) => {
            assert_eq!(e.correlation_id.as_deref(), Some("test-correlation-456"));
            assert_eq!(e.topic, BusrtTopic::EventsProcessEnumeration);
        },
        other => panic!("unexpected action {:?}", other),
    }
    let event = BusrtEvent {
        event_id: "test-event-789".to_string(),
        correlation_id: Some("test-correlation-456".to_string()),
        timestamp_ms: 1234567890,
        source_collector: "test-collector".to_string(),
        topic: BusrtTopic::EventsProcessEnumeration,
        payload: EventPayload::Process {
            process: BusProcessRecord { pid: 1234, name: "test_process".to_string(), executable_path: Some("/usr/bin/test".to_string()) },
            collection_cycle_id: "cycle-123".to_string(),
            event_type: ProcessEventType::Discovery,
        },
    };
    match bridge.process_translation_message(TranslationMessage::BusrtToIpc { event, correlation_id: "test-correlation-456".to_string() }) {
        TranslationAction::Deliver { ticket, result } => {
            assert_eq!(ticket, 9);
            assert!(result.success);
            assert_eq!(result.processes.len(), 1);
            assert_eq!(result.processes[0].pid, 1234);
            assert_eq!(result.processes[0].name, "test_process");
        },
        other => panic!("unexpected action {:?}", other),
    }
    let stats = bridge.get_statistics();
    assert_eq!(stats.ipc_to_busrt_messages, 1);
    assert_eq!(stats.busrt_to_ipc_messages, 1);
    assert_eq!(stats.bridge_started_at_ms, 7);
}

#[test]
fn test_bridge_config_defaults() {
    let config = IpcBridgeConfig::default();
    assert!(config.enable_legacy_ipc);
    assert!(config.enable_busrt);
    assert_eq!(config.message_buffer_size, 1000);
    assert_eq!(config.topic_prefix, "daemoneye");
    let e = event_from_task("t", 2, "c".to_string(), "id".to_string(), 5);
    assert_eq!(e.topic, BusrtTopic::EventsProcessLifecycle);
    let r = translate_busrt_event_to_detection_result(BusrtEvent { correlation_id: None, payload: EventPayload::Other, ..e });
    assert_eq!(r.task_id, "id");
    assert!(r.processes.is_empty());
    let client = PlaceholderBusrtClient::new();
    assert!(client.is_connected());
    assert_eq!(client.get_broker_stats().topics_count, 5);
}

#[test]
fn test_source_caps_to_proto_capabilities() {
    let caps = SourceCaps::process().union(SourceCaps::realtime()).union(SourceCaps::system_wide());
    let proto_caps = source_caps_to_proto_capabilities(caps);
    assert!(proto_caps.supported_domains.contains(&MonitoringDomain::Process));
    assert!(!proto_caps.supported_domains.contains(&MonitoringDomain::Network));
    assert!(!proto_caps.supported_domains.contains(&MonitoringDomain::Filesystem));
    assert!(!proto_caps.supported_domains.contains(&MonitoringDomain::Performance));
    let advanced = proto_caps.advanced.as_ref().unwrap();
    assert!(!advanced.kernel_level);
    assert!(advanced.realtime);
    assert!(advanced.system_wide);
}

#[test]
fn test_task_validation() {
    let mut server = CollectorIpcServer::new(SourceCaps::process());
    assert!(server.admit_task(Some(TaskType::EnumerateProcesses), 0).is_ok());
    assert_eq!(server.admit_task(Some(TaskType::MonitorNetworkConnections), 4), Err(TaskRejection::NetworkUnsupported));
    assert_eq!(server.admit_task(Some(TaskType::Other), 9), Err(TaskRejection::UnsupportedType(9)));
    assert_eq!(server.admit_task(None, -3), Err(TaskRejection::UnknownType(-3)));
    assert_eq!(collector_core::ipc::rejection_message(&TaskRejection::UnknownType(-3)), "Unknown task type: -3");
    server.update_capabilities(SourceCaps::network());
    assert!(server.admit_task(Some(TaskType::MonitorNetworkConnections), 4).is_ok());
    server.shutdown();
    assert_eq!(server.admit_task(Some(TaskType::MonitorNetworkConnections), 4), Err(TaskRejection::ShuttingDown));
}

#[test]
fn test_bridge_creation() {
    let bridge = IpcBusrtBridge::new(IpcBridgeConfig::default(), 0);
    assert!(!bridge.is_shutting_down());
    assert_eq!(bridge.start_plan(), (true, true));
    assert_eq!(bridge.get_statistics().translation_errors, 0);
}

#[test]
fn test_topic_mapping() {
    let mapping = IpcBusrtBridge::create_default_topic_mapping();
    assert!(mapping.contains_key("enumerate_processes"));
    assert_eq!(mapping.get("enumerate_processes"), Some(&BusrtTopic::EventsProcessEnumeration));
    assert_eq!(mapping.len(), 7);
}

#[test]
fn test_detection_task_translation() {
    let correlation_id = "test-correlation-456".to_string();
    let busrt_event = collector_core::bridge::translate_detection_task_to_busrt_event("test-task-123", 0, correlation_id.clone());
    assert_eq!(busrt_event.correlation_id, Some(correlation_id));
    assert_eq!(busrt_event.topic, BusrtTopic::EventsProcessEnumeration);
    assert_eq!(busrt_event.event_id.len(), 36);
}

#[test]
fn test_placeholder_busrt_client() {
    let client = PlaceholderBusrtClient::new();
    assert!(client.is_connected());
    let stats = client.get_broker_stats();
    assert_eq!(stats.uptime_seconds, 3600);
    assert_eq!(stats.memory_usage_bytes, 1024 * 1024);
}

#[test]
fn test_collector_ipc_server_creation() {
    let server = CollectorIpcServer::new(SourceCaps::process());
    assert!(server.admit_task(Some(TaskType::EnumerateProcesses), 0).is_ok());
}

#[test]
fn test_capability_updates() {
    let mut server = CollectorIpcServer::new(SourceCaps::process());
    let caps = server.get_capabilities();
    assert!(caps.supported_domains.contains(&MonitoringDomain::Process));
    assert!(!caps.supported_domains.contains(&MonitoringDomain::Network));
    server.update_capabilities(SourceCaps::process().union(SourceCaps::network()));
    let caps = server.get_capabilities();
    assert!(caps.supported_domains.contains(&MonitoringDomain::Process));
    assert!(caps.supported_domains.contains(&MonitoringDomain::Network));
}

#[test]
fn network_task_rejection_message() {
    let rejection = collector_core::ipc::validate_task_capabilities(Some(TaskType::MonitorNetworkConnections), 4, SourceCaps::process()).unwrap_err();
    assert!(collector_core::ipc::rejection_message(&rejection).contains("Network monitoring not supported"));
}

#[test]
fn expired_task_stays_expired_after_later_acceptance() {
    let mut tasks = PushdownTasks::new(schema(), bounds());
    assert!(tasks.accept(&task("a", vec![], vec!["pid"], 1000), 0).is_ok());
    assert!(tasks.accept(&task("b", vec![], vec!["pid"], 1000), 2000).is_ok());
    assert_eq!(tasks.status("a", 2000), TaskStatus::Expired);
    assert_eq!(tasks.status("b", 2000), TaskStatus::Active);
    assert_eq!(tasks.status("c", 2000), TaskStatus::Unknown);
    assert_eq!(tasks.active_count(2000), 1);
}

#[test]
fn rpc_task_gate_decides_before_the_handler() {
    let mut manager = CollectorRpcServiceManager::new(RpcServiceConfig::default());
    let mut req = request(RpcOperation::ExecuteTask);
    req.payload = RpcPayload::Other;
    assert_eq!(manager.task_gate(&req, Ok(())), Some(TaskRun::InvalidPayload));
    req.payload = RpcPayload::Task("{}".to_string());
    assert_eq!(manager.task_gate(&req, Err("eof".to_string())), Some(TaskRun::DecodeFailed("eof".to_string())));
    assert_eq!(manager.task_gate(&req, Ok(())), Some(TaskRun::NoHandler));
    let reply = manager.task_reply(&req, TaskRun::DecodeFailed("eof".to_string()), 1, 2);
    assert_eq!(reply.error_details.unwrap().message, "Failed to deserialize task: eof");
    let invalid = manager.task_reply(&req, TaskRun::InvalidPayload, 1, 2);
    assert_eq!(invalid.error_details.unwrap().message, "Invalid payload for ExecuteTask");
    manager.set_task_handler();
    assert_eq!(manager.task_gate(&req, Ok(())), None);
    assert_eq!(manager.task_gate(&req, Err("eof".to_string())), Some(TaskRun::DecodeFailed("eof".to_string())));
}

#[test]
fn answered_request_gets_the_translated_result() {
    let mut bridge = IpcBusrtBridge::new(IpcBridgeConfig::default(), 7);
    let before = bridge.get_statistics();
    let published = match bridge.process_translation_message(TranslationMessage::IpcToBusrt {
        task_id: "task-1".to_string(),
        task_type: 1,
        correlation_id: "corr-1".to_string(),
        ticket: 3,
    }) {
        TranslationAction::Publish(e) => e,
        other => panic!("unexpected action {:?}", other),
    };
    assert_eq!(published.event_id.len(), 36);
    assert_eq!(published.source_collector, "ipc-bridge");
    assert_eq!(published.topic, BusrtTopic::EventsProcessHash);
    match &published.payload {
        EventPayload::Process { process, collection_cycle_id, .. } => {
            assert_eq!(collection_cycle_id, "task-1");
            assert_eq!(process.pid, 0);
            assert_eq!(process.name, "translated_task");
        },
        other => panic!("unexpected payload {:?}", other),
    }
    let answer = BusrtEvent {
        event_id: "ev".to_string(),
        correlation_id: Some("corr-1".to_string()),
        timestamp_ms: 42,
        source_collector: "procmond".to_string(),
        topic: BusrtTopic::EventsProcessHash,
        payload: EventPayload::Process {
            process: BusProcessRecord { pid: 77, name: "sshd".to_string(), executable_path: None },
            collection_cycle_id: "c".to_string(),
            event_type: ProcessEventType::Discovery,
        },
    };
    match bridge.process_translation_message(TranslationMessage::BusrtToIpc { event: answer, correlation_id: "corr-1".to_string() }) {
        TranslationAction::Deliver { ticket, result } => {
            assert_eq!(ticket, 3);
            assert_eq!(result.task_id, "corr-1");
            assert!(result.success);
            assert_eq!(result.processes.len(), 1);
            assert_eq!(result.processes[0].pid, 77);
            assert_eq!(result.processes[0].collection_time, 42);
        },
        other => panic!("unexpected action {:?}", other),
    }
    let after = bridge.get_statistics();
    assert_eq!(after.ipc_to_busrt_messages, before.ipc_to_busrt_messages + 1);
    assert_eq!(after.busrt_to_ipc_messages, before.busrt_to_ipc_messages + 1);
    let again = BusrtEvent {
        event_id: "ev2".to_string(),
        correlation_id: None,
        timestamp_ms: 1,
        source_collector: "procmond".to_string(),
        topic: BusrtTopic::EventsProcessHash,
        payload: EventPayload::Other,
    };
    match bridge.process_translation_message(TranslationMessage::BusrtToIpc { event: again, correlation_id: "corr-1".to_string() }) {
        TranslationAction::Discard(result) => {
            assert_eq!(result.task_id, "ev2");
            assert!(result.processes.is_empty());
        },
        other => panic!("unexpected action {:?}", other),
    }
}

#[test]
fn shutdown_run_through_steps_succeeds() {
    for force in [false, true] {
        let mut coordinator = ShutdownCoordinator::new(ShutdownConfig::default());
        let request = ShutdownRequest { collector_id: "c".to_string(), reason: "r".to_string(), force, timeout_ms: None };
        coordinator.begin_shutdown(&request, 0);
        let mut events = 0;
        for (i, step) in shutdown_steps(force).into_iter().enumerate() {
            let taken = coordinator.apply_step("c", step, i as u64).unwrap();
            if taken.is_some() {
                events += 1;
            }
        }
        assert_eq!(events, if force { 3 } else { 4 });
        assert_eq!(coordinator.get_shutdown_status("c"), Some(ShutdownPhase::Completed));
        let (response, _) = coordinator.finish_shutdown("c", &Ok(()), 1, 9);
        assert!(response.success);
        assert!(response.error_message.is_none());
        assert_eq!(response.final_phase, ShutdownPhase::Completed);
    }
    let mut coordinator = ShutdownCoordinator::new(ShutdownConfig::default());
    assert!(coordinator.apply_step("ghost", ShutdownStep::EnterPhase(ShutdownPhase::Preparing), 1).is_err());
    assert_eq!(coordinator.apply_step("ghost", ShutdownStep::Cleanup, 1).unwrap(), None);
    assert!(matches!(coordinator.apply_step("ghost", ShutdownStep::AnnounceForced, 1), Ok(Some(ShutdownEvent::ForcedShutdown { .. }))));
}
