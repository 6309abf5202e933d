use collector_core::event::{CollectionEvent, ProcessEvent};
use collector_core::load_balancer::{
    CollectorCapability, CollectorHealthStatus, LoadBalancer, LoadBalancerConfig, LoadBalancerError, LoadBalancingStrategy,
};
use collector_core::result_aggregator::{AggregationConfig, AggregationStatus, CollectorResult, ResultAggregator};
use collector_core::source::SourceCaps;
use collector_core::strmap::StrMap;
use collector_core::task_distributor::{DistributionTask, PriorityTaskQueue, TaskDistributor, TaskPriority};

fn create_test_task(priority: TaskPriority) -> DistributionTask {
    DistributionTask {
        task_id: format!("task-{:?}", priority),
        priority,
        required_capabilities: SourceCaps::process(),
        target_topic: "test.topic".to_string(),
        payload: vec![],
        correlation_id: "corr".to_string(),
        created_at: 0,
        timeout_secs: 30,
        metadata: StrMap::new(),
    }
}

#[test]
fn test_priority_queue_ordering() {
    let mut queue = PriorityTaskQueue::new();
    queue.push(create_test_task(TaskPriority::Low));
    queue.push(create_test_task(TaskPriority::High));
    queue.push(create_test_task(TaskPriority::Normal));
    queue.push(create_test_task(TaskPriority::Critical));
    assert_eq!(queue.pop().unwrap().priority, TaskPriority::Critical);
    assert_eq!(queue.pop().unwrap().priority, TaskPriority::High);
    assert_eq!(queue.pop().unwrap().priority, TaskPriority::Normal);
    assert_eq!(queue.pop().unwrap().priority, TaskPriority::Low);
    assert!(queue.pop().is_none());
    assert!(queue.is_empty());
}

#[test]
fn same_priority_tasks_leave_in_arrival_order() {
    let mut queue = PriorityTaskQueue::new();
    let mut a = create_test_task(TaskPriority::Normal);
    a.task_id = "a".to_string();
    let mut b = create_test_task(TaskPriority::Normal);
    b.task_id = "b".to_string();
    queue.push(a);
    queue.push(b);
    assert_eq!(queue.len(), 2);
    assert_eq!(queue.pop().unwrap().task_id, "a");
    assert_eq!(queue.pop().unwrap().task_id, "b");
}

#[test]
fn test_capability_routing() {
    let distributor = TaskDistributor::new();
    assert_eq!(distributor.route_task_by_capabilities(SourceCaps::process()), "control.collector.process");
    assert_eq!(distributor.route_task_by_capabilities(SourceCaps::network()), "control.collector.network");
    assert_eq!(distributor.route_task_by_capabilities(SourceCaps::filesystem()), "control.collector.filesystem");
    assert_eq!(distributor.route_task_by_capabilities(SourceCaps::performance()), "control.collector.performance");
    assert_eq!(distributor.route_task_by_capabilities(SourceCaps::realtime()), "control.collector.generic");
}

fn process_event(pid: u32) -> CollectionEvent {
    CollectionEvent::Process(ProcessEvent {
        pid,
        ppid: None,
        name: "test-process".to_string(),
        executable_path: None,
        command_line: vec![],
        start_time: Some(10),
        cpu_usage_bits: None,
        memory_usage: None,
        executable_hash: None,
        hash_algorithm: None,
        user_id: None,
        accessible: true,
        file_exists: true,
        timestamp: 10,
        platform_metadata: None,
    })
}

#[test]
fn test_task_creation_from_event() {
    let distributor = TaskDistributor::new();
    let task = distributor.create_task_from_event_at(&process_event(1234), TaskPriority::Normal, 30, vec![1, 2, 3], 99);
    assert_eq!(task.priority, TaskPriority::Normal);
    assert_eq!(task.target_topic, "control.collector.process");
    assert!(task.required_capabilities.contains(SourceCaps::process()));
    assert_eq!(task.payload, vec![1, 2, 3]);
    assert_eq!(task.created_at, 99);
    assert_eq!(task.timeout_secs, 30);
    assert_eq!(task.task_id.len(), 36);
}

fn create_test_collectors(count: usize) -> Vec<CollectorCapability> {
    (1..=count)
        .map(|i| CollectorCapability {
            collector_id: format!("collector-{}", i),
            collector_type: "procmond".to_string(),
            capabilities: SourceCaps::process(),
            topic_patterns: vec!["control.collector.process".to_string()],
            health_status: CollectorHealthStatus::Healthy,
            last_heartbeat: 0,
            metadata: StrMap::new(),
        })
        .collect()
}

fn balancer(strategy: LoadBalancingStrategy, n: usize) -> LoadBalancer {
    let config = LoadBalancerConfig { strategy, ..Default::default() };
    let mut b = LoadBalancer::new(config);
    for i in 1..=n {
        b.register_collector_at(format!("collector-{}", i), 1, 0);
    }
    b
}

#[test]
fn test_round_robin_selection() {
    let mut balancer = balancer(LoadBalancingStrategy::RoundRobin, 3);
    let collectors = create_test_collectors(3);
    let mut selections = Vec::new();
    for _ in 0..6 {
        selections.push(balancer.select_collector(SourceCaps::process(), &collectors).unwrap());
    }
    assert_eq!(selections[0], selections[3]);
    assert_eq!(selections[1], selections[4]);
    assert_eq!(selections[2], selections[5]);
    assert_eq!(selections[0], "collector-1");
    assert_eq!(selections[1], "collector-2");
}

#[test]
fn test_least_connections_selection() {
    let mut balancer = balancer(LoadBalancingStrategy::LeastConnections, 2);
    let collectors = create_test_collectors(2);
    let selected1 = balancer.select_collector(SourceCaps::process(), &collectors).unwrap();
    let selected2 = balancer.select_collector(SourceCaps::process(), &collectors).unwrap();
    assert_ne!(selected1, selected2);
    assert_eq!(balancer.get_collector_load("collector-1").map(|l| l.0), Some(1));
}

#[test]
fn selection_errors() {
    let mut balancer = balancer(LoadBalancingStrategy::RoundRobin, 1);
    assert!(matches!(balancer.select_collector(SourceCaps::process(), &vec![]), Err(LoadBalancerError::NoCollectors)));
    let mut sick = create_test_collectors(1);
    sick[0].health_status = CollectorHealthStatus::Unhealthy;
    assert!(matches!(balancer.select_collector(SourceCaps::process(), &sick), Err(LoadBalancerError::NoHealthyCollectors)));
    assert!(matches!(
        balancer.select_collector(SourceCaps::network(), &create_test_collectors(1)),
        Err(LoadBalancerError::NoHealthyCollectors)
    ));
}

#[test]
fn random_selection_picks_an_eligible_collector() {
    let mut balancer = balancer(LoadBalancingStrategy::Random, 3);
    let collectors = create_test_collectors(3);
    for _ in 0..10 {
        let id = balancer.select_collector(SourceCaps::process(), &collectors).unwrap();
        assert!(id.starts_with("collector-"));
    }
}

#[test]
fn test_failover_trigger() {
    let config = LoadBalancerConfig { failover_threshold: 2, ..Default::default() };
    let mut balancer = LoadBalancer::new(config);
    balancer.register_collector_at("collector-1".to_string(), 1, 0);
    balancer.register_collector_at("collector-2".to_string(), 1, 0);
    assert!(!balancer.record_failure("collector-1"));
    assert!(balancer.record_failure("collector-1"));
    let available: Vec<CollectorCapability> =
        create_test_collectors(2).into_iter().filter(|c| c.collector_id != "collector-1").collect();
    let event = balancer.trigger_failover_at("collector-1", &available, SourceCaps::process(), 5).unwrap();
    assert_eq!(event.failed_collector_id, "collector-1");
    assert_eq!(event.failover_collector_id, "collector-2");
    assert_eq!(balancer.get_failover_events(10).len(), 1);
}

fn result(collector: &str, pid: u32, timestamp: u64) -> CollectorResult {
    CollectorResult {
        collector_id: collector.to_string(),
        events: vec![process_event(pid)],
        timestamp,
        processing_duration_ms: 1,
        metadata: StrMap::new(),
    }
}

#[test]
fn test_aggregation_lifecycle() {
    let mut aggregator = ResultAggregator::new(AggregationConfig::default());
    aggregator.start_aggregation_at("corr-1".to_string(), Some(2), 0);
    assert!(aggregator.add_result_at("corr-1", result("a", 1, 20), 1).unwrap().is_none());
    let done = aggregator.add_result_at("corr-1", result("b", 2, 10), 2).unwrap().expect("complete");
    assert_eq!(done.status, AggregationStatus::Complete);
    assert_eq!(done.results.len(), 2);
    assert_eq!(done.results[0].collector_id, "b");
    assert_eq!(aggregator.get_stats().aggregations_completed, 1);
    assert_eq!(aggregator.get_completed(10).len(), 1);
    assert!(aggregator.add_result_at("missing", result("a", 1, 1), 3).is_err());
}

#[test]
fn test_aggregation_timeout() {
    let config = AggregationConfig { timeout_ms: 100, ..Default::default() };
    let mut aggregator = ResultAggregator::new(config);
    aggregator.start_aggregation_at("corr-t".to_string(), Some(3), 0);
    aggregator.add_result_at("corr-t", result("a", 1, 1), 1).unwrap();
    assert!(aggregator.check_timeouts_at(50).is_empty());
    let timed_out = aggregator.check_timeouts_at(200);
    assert_eq!(timed_out.len(), 1);
    assert_eq!(timed_out[0].status, AggregationStatus::TimedOut);
    assert_eq!(aggregator.get_stats().aggregations_timed_out, 1);
}

#[test]
fn test_result_deduplication() {
    let config = AggregationConfig { enable_deduplication: true, ..Default::default() };
    let mut aggregator = ResultAggregator::new(config);
    aggregator.start_aggregation_at("corr-d".to_string(), Some(2), 0);
    aggregator.add_result_at("corr-d", result("a", 1, 5), 1).unwrap();
    let done = aggregator.add_result_at("corr-d", result("a", 1, 5), 2).unwrap().expect("complete");
    assert_eq!(done.results.len(), 1);
}

#[test]
fn failover_counts_the_task_against_the_new_collector() {
    let config = LoadBalancerConfig { failover_threshold: 1, ..Default::default() };
    let mut balancer = LoadBalancer::new(config);
    balancer.register_collector_at("collector-1".to_string(), 1, 0);
    balancer.register_collector_at("collector-2".to_string(), 1, 0);
    balancer.register_collector_at("collector-3".to_string(), 1, 0);
    let all = create_test_collectors(3);
    let picked = balancer.select_collector(SourceCaps::process(), &all).unwrap();
    assert_eq!(picked, "collector-1");
    let mut available = create_test_collectors(3);
    available[1].health_status = CollectorHealthStatus::Unhealthy;
    let event = balancer.trigger_failover_at("collector-1", &available, SourceCaps::process(), 7).unwrap();
    assert_eq!(event.failover_collector_id, "collector-3");
    assert_eq!(event.tasks_redistributed, 1);
    assert_eq!(balancer.get_collector_load("collector-1").map(|l| l.0), Some(0));
    assert_eq!(balancer.get_collector_load("collector-3").map(|l| l.0), Some(1));
    assert_eq!(balancer.get_collector_load("collector-2").map(|l| l.0), Some(0));
    assert_eq!(balancer.get_stats().total_tasks_distributed, 2);
    assert_eq!(balancer.get_stats().total_failovers, 1);
}

#[test]
fn completed_aggregation_is_found_right_away() {
    let mut aggregator = ResultAggregator::new(AggregationConfig { max_buffer_size: 1, ..AggregationConfig::default() });
    aggregator.start_aggregation_at("corr-x".to_string(), Some(1), 0);
    aggregator.start_aggregation_at("corr-y".to_string(), Some(1), 0);
    let x = aggregator.add_result_at("corr-x", result("a", 1, 1), 1).unwrap().expect("complete");
    assert_eq!(aggregator.get_aggregation("corr-x").map(|a| a.aggregation_id), Some(x.aggregation_id));
    let y = aggregator.add_result_at("corr-y", result("b", 2, 2), 2).unwrap().expect("complete");
    assert!(aggregator.get_aggregation("corr-x").is_none());
    let found = aggregator.get_aggregation("corr-y").expect("kept");
    assert_eq!(found.correlation_id, "corr-y");
    assert_eq!(found.aggregation_id, y.aggregation_id);
    assert_eq!(aggregator.get_completed(10).len(), 1);
}

#[test]
fn least_connections_takes_the_first_on_ties() {
    let mut balancer = balancer(LoadBalancingStrategy::LeastConnections, 3);
    let collectors = create_test_collectors(3);
    assert_eq!(balancer.select_collector(SourceCaps::process(), &collectors).unwrap(), "collector-1");
    assert_eq!(balancer.select_collector(SourceCaps::process(), &collectors).unwrap(), "collector-2");
    assert_eq!(balancer.select_collector(SourceCaps::process(), &collectors).unwrap(), "collector-3");
    assert_eq!(balancer.select_collector(SourceCaps::process(), &collectors).unwrap(), "collector-1");
}

#[test]
fn weighted_takes_the_first_best_score() {
    let config = LoadBalancerConfig { strategy: LoadBalancingStrategy::WeightedRoundRobin, ..Default::default() };
    let mut balancer = LoadBalancer::new(config);
    balancer.register_collector_at("collector-1".to_string(), 2, 0);
    balancer.register_collector_at("collector-2".to_string(), 2, 0);
    balancer.register_collector_at("collector-3".to_string(), 1, 0);
    let collectors = create_test_collectors(3);
    assert_eq!(balancer.select_collector(SourceCaps::process(), &collectors).unwrap(), "collector-1");
    assert_eq!(balancer.select_collector(SourceCaps::process(), &collectors).unwrap(), "collector-2");
    assert_eq!(balancer.select_collector(SourceCaps::process(), &collectors).unwrap(), "collector-1");
}
