//! Verified core logic of a collector framework: capability negotiation, topic
//! routing, trigger coordination, task distribution, load balancing, result
//! aggregation, pushdown task acceptance and shutdown coordination.

pub mod strmap;
pub mod text;
pub mod topic;
pub mod source;
pub mod event;
pub mod trigger_queue;
pub mod support;
pub mod trigger;
pub mod trigger_manager;
pub mod sql_trigger;
pub mod event_bus;
pub mod bus_filters;
pub mod bus_router;
pub mod high_performance_event_bus;
pub mod task_distributor;
pub mod load_balancer;
pub mod event_eq;
pub mod result_aggregator;
pub mod pushdown;
pub mod shutdown;
pub mod rpc;
pub mod health;
pub mod bridge;
pub mod monitor;
pub mod ipc;
pub mod performance;
