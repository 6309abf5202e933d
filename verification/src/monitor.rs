//! Monitor collector settings and statistics, and the configuration of managed collector
//! processes. Durations are milliseconds.

use crate::strmap::StrMap;
use crate::trigger::TriggerConfig;
use vstd::prelude::*;

verus! {

/// Monitor collector configuration.
#[derive(Debug, Clone, Copy, PartialEq, Eq)]
pub struct MonitorCollectorConfig {
    /// Trigger system configuration
    pub trigger_config: TriggerConfig,
    /// Collection interval (at least one second)
    pub collection_interval_ms: u64,
    /// Largest number of events in flight (1 to 100,000)
    pub max_events_in_flight: usize,
    /// Timeout of a graceful shutdown (at most five minutes)
    pub shutdown_timeout_ms: u64,
    /// Event-driven operation
    pub enable_event_driven: bool,
    /// Debug logging
    pub enable_debug_logging: bool,
}

impl Default for MonitorCollectorConfig {
    fn default() -> (c: Self)
        ensures
            c.trigger_config.max_triggers_per_collector == 100,
            c.collection_interval_ms == 30_000,
            c.max_events_in_flight == 1000,
            c.shutdown_timeout_ms == 10_000,
            c.enable_event_driven,
            !c.enable_debug_logging,
    {
        MonitorCollectorConfig {
            trigger_config: TriggerConfig::default(),
            collection_interval_ms: 30_000,
            max_events_in_flight: 1000,
            shutdown_timeout_ms: 10_000,
            enable_event_driven: true,
            enable_debug_logging: false,
        }
    }
}

/// Why a monitor collector configuration is refused.
#[derive(Debug, Clone, Copy, PartialEq, Eq, Structural)]
pub enum MonitorConfigError {
    /// The collection interval is under one second
    IntervalTooShort,
    /// The events-in-flight bound is zero or above 100,000
    EventsInFlightOutOfRange,
    /// The shutdown timeout exceeds five minutes
    ShutdownTimeoutTooLong,
}

impl MonitorConfigError {
    /// The error's message.
    pub fn to_string(&self) -> (s: String)
        ensures
            *self == MonitorConfigError::IntervalTooShort ==> s@ == "Collection interval must be at least 1 second for performance safety"@,
            *self == MonitorConfigError::EventsInFlightOutOfRange ==> s@ == "Max events in flight must be between 1 and 100,000 for memory safety"@,
            *self == MonitorConfigError::ShutdownTimeoutTooLong ==> s@ == "Shutdown timeout must not exceed 5 minutes"@,
    {
        match self {
            MonitorConfigError::IntervalTooShort => String::from_str("Collection interval must be at least 1 second for performance safety"),
            MonitorConfigError::EventsInFlightOutOfRange => String::from_str("Max events in flight must be between 1 and 100,000 for memory safety"),
            MonitorConfigError::ShutdownTimeoutTooLong => String::from_str("Shutdown timeout must not exceed 5 minutes"),
        }
    }
}

/// The first rule a monitor collector configuration breaks, if any, in the order the
/// rules are checked.
pub open spec fn monitor_config_error(c: MonitorCollectorConfig) -> Option<MonitorConfigError> {
    if c.collection_interval_ms < 1000 {
        Some(MonitorConfigError::IntervalTooShort)
    } else if c.max_events_in_flight == 0 || c.max_events_in_flight > 100_000 {
        Some(MonitorConfigError::EventsInFlightOutOfRange)
    } else if c.shutdown_timeout_ms > 300_000 {
        Some(MonitorConfigError::ShutdownTimeoutTooLong)
    } else {
        None
    }
}

impl MonitorCollectorConfig {
    /// Checks the interval, the events-in-flight bound and the shutdown timeout.
    pub fn validate(&self) -> (r: Result<(), MonitorConfigError>)
        ensures
            monitor_config_error(*self) matches Some(e) ==> r == Err::<(), MonitorConfigError>(e),
            monitor_config_error(*self) is None ==> r is Ok,
    {
        if self.collection_interval_ms < 1000 {
            return Err(MonitorConfigError::IntervalTooShort);
        }
        if self.max_events_in_flight == 0 || self.max_events_in_flight > 100_000 {
            return Err(MonitorConfigError::EventsInFlightOutOfRange);
        }
        if self.shutdown_timeout_ms > 300_000 {
            return Err(MonitorConfigError::ShutdownTimeoutTooLong);
        }
        Ok(())
    }
}

/// Monitor collector counters.
#[derive(Debug, Clone, Copy, PartialEq, Eq)]
pub struct MonitorCollectorStats {
    /// Collection cycles completed
    pub collection_cycles: u64,
    /// Lifecycle events detected
    pub lifecycle_events: u64,
    /// Trigger requests generated
    pub trigger_requests: u64,
    /// Analysis workflows started
    pub analysis_workflows: u64,
    /// Events in flight
    pub events_in_flight: usize,
    /// Collection errors
    pub collection_errors: u64,
    /// Trigger errors
    pub trigger_errors: u64,
    /// Analysis errors
    pub analysis_errors: u64,
    /// Events dropped or buffered under backpressure
    pub backpressure_events: u64,
}

/// A snapshot of monitor collector counters.
#[derive(Debug, Clone, Copy, PartialEq, Eq)]
pub struct MonitorCollectorStatsSnapshot {
    /// Collection cycles completed
    pub collection_cycles: u64,
    /// Lifecycle events detected
    pub lifecycle_events: u64,
    /// Trigger requests generated
    pub trigger_requests: u64,
    /// Analysis workflows started
    pub analysis_workflows: u64,
    /// Events in flight
    pub events_in_flight: usize,
    /// Collection errors
    pub collection_errors: u64,
    /// Trigger errors
    pub trigger_errors: u64,
    /// Analysis errors
    pub analysis_errors: u64,
    /// Events dropped or buffered under backpressure
    pub backpressure_events: u64,
}

impl Default for MonitorCollectorStats {
    fn default() -> (s: Self)
        ensures
            s.collection_cycles == 0 && s.lifecycle_events == 0 && s.trigger_requests == 0 && s.analysis_workflows == 0
                && s.events_in_flight == 0 && s.collection_errors == 0 && s.trigger_errors == 0 && s.analysis_errors == 0
                && s.backpressure_events == 0,
    {
        MonitorCollectorStats {
            collection_cycles: 0,
            lifecycle_events: 0,
            trigger_requests: 0,
            analysis_workflows: 0,
            events_in_flight: 0,
            collection_errors: 0,
            trigger_errors: 0,
            analysis_errors: 0,
            backpressure_events: 0,
        }
    }
}

impl MonitorCollectorStats {
    /// A snapshot of every counter.
    pub fn snapshot(&self) -> (s: MonitorCollectorStatsSnapshot)
        ensures
            s == (MonitorCollectorStatsSnapshot {
                collection_cycles: self.collection_cycles,
                lifecycle_events: self.lifecycle_events,
                trigger_requests: self.trigger_requests,
                analysis_workflows: self.analysis_workflows,
                events_in_flight: self.events_in_flight,
                collection_errors: self.collection_errors,
                trigger_errors: self.trigger_errors,
                analysis_errors: self.analysis_errors,
                backpressure_events: self.backpressure_events,
            }),
    {
        MonitorCollectorStatsSnapshot {
            collection_cycles: self.collection_cycles,
            lifecycle_events: self.lifecycle_events,
            trigger_requests: self.trigger_requests,
            analysis_workflows: self.analysis_workflows,
            events_in_flight: self.events_in_flight,
            collection_errors: self.collection_errors,
            trigger_errors: self.trigger_errors,
            analysis_errors: self.analysis_errors,
            backpressure_events: self.backpressure_events,
        }
    }
}

/// A monitor collector whose errors exceed a fifth of its operations is unhealthy.
#[derive(Debug, Clone, Copy, PartialEq, Eq)]
pub struct HighErrorRate {
    /// Collection, trigger and analysis errors
    pub total_errors: u128,
    /// Collection cycles, trigger requests and analysis workflows
    pub total_operations: u128,
}

/// The operations a snapshot counts.
pub open spec fn operations_of(s: MonitorCollectorStatsSnapshot) -> int {
    s.collection_cycles + s.trigger_requests + s.analysis_workflows
}

/// The errors a snapshot counts.
pub open spec fn errors_of(s: MonitorCollectorStatsSnapshot) -> int {
    s.collection_errors + s.trigger_errors + s.analysis_errors
}

/// The monitor-specific health check: with operations recorded, an error rate above 20%
/// is refused.
pub fn monitor_health_check(stats: &MonitorCollectorStatsSnapshot) -> (r: Result<(), HighErrorRate>)
    ensures
        operations_of(*stats) > 0 && 5 * errors_of(*stats) > operations_of(*stats) ==> r == Err::<(), HighErrorRate>(
            HighErrorRate { total_errors: errors_of(*stats) as u128, total_operations: operations_of(*stats) as u128 },
        ),
        !(operations_of(*stats) > 0 && 5 * errors_of(*stats) > operations_of(*stats)) ==> r is Ok,
{
    let ops: u128 = stats.collection_cycles as u128 + stats.trigger_requests as u128 + stats.analysis_workflows as u128;
    let errs: u128 = stats.collection_errors as u128 + stats.trigger_errors as u128 + stats.analysis_errors as u128;
    if ops > 0 && 5 * errs > ops {
        return Err(HighErrorRate { total_errors: errs, total_operations: ops });
    }
    Ok(())
}

/// Resource limits of a collector process.
#[derive(Debug, Clone, Copy, PartialEq, Eq)]
pub struct ResourceLimits {
    /// Largest memory in bytes
    pub max_memory_bytes: Option<u64>,
    /// Largest CPU percentage (0-100)
    pub max_cpu_percent: Option<u32>,
}

/// Configuration of a managed collector process.
#[derive(Debug)]
pub struct CollectorConfig {
    /// Path of the collector executable
    pub binary_path: String,
    /// Command-line arguments
    pub args: Vec<String>,
    /// Environment variables
    pub env: StrMap<String>,
    /// Working directory
    pub working_dir: Option<String>,
    /// Resource constraints
    pub resource_limits: Option<ResourceLimits>,
    /// Restart after a crash
    pub auto_restart: bool,
    /// Largest number of restarts
    pub max_restarts: u32,
}

impl Default for CollectorConfig {
    fn default() -> (c: Self)
        ensures
            c.binary_path@.len() == 0,
            c.args@.len() == 0,
            c.env@ == Map::<Seq<char>, String>::empty(),
            c.working_dir is None,
            c.resource_limits is None,
            !c.auto_restart,
            c.max_restarts == 3,
    {
        CollectorConfig {
            binary_path: String::new(),
            args: Vec::new(),
            env: StrMap::new(),
            working_dir: None,
            resource_limits: None,
            auto_restart: false,
            max_restarts: 3,
        }
    }
}

/// Why a collector process configuration is refused.
#[derive(Debug, Clone, PartialEq, Eq)]
pub enum CollectorConfigError {
    /// The executable does not exist (its path)
    BinaryMissing(String),
    /// More than 100 restarts are allowed
    TooManyRestarts,
}

impl CollectorConfigError {
    /// The error's message.
    pub fn to_string(&self) -> (s: String)
        ensures
            self matches CollectorConfigError::BinaryMissing(p) ==> s@ == "Binary path does not exist: "@ + p@,
            self is TooManyRestarts ==> s@ == "max_restarts cannot exceed 100"@,
    {
        match self {
            CollectorConfigError::BinaryMissing(p) => String::from_str("Binary path does not exist: ").concat(p.as_str()),
            CollectorConfigError::TooManyRestarts => String::from_str("max_restarts cannot exceed 100"),
        }
    }
}

impl CollectorConfig {
    /// Checks the configuration, given whether its executable exists: a missing
    /// executable is refused first, then more than 100 restarts.
    pub fn validate(&self, binary_exists: bool) -> (r: Result<(), CollectorConfigError>)
        ensures
            !binary_exists ==> r == Err::<(), CollectorConfigError>(CollectorConfigError::BinaryMissing(self.binary_path)),
            binary_exists && self.max_restarts > 100 ==> r == Err::<(), CollectorConfigError>(CollectorConfigError::TooManyRestarts),
            binary_exists && self.max_restarts <= 100 ==> r is Ok,
    {
        if !binary_exists {
            return Err(CollectorConfigError::BinaryMissing(self.binary_path.clone()));
        }
        if self.max_restarts > 100 {
            return Err(CollectorConfigError::TooManyRestarts);
        }
        Ok(())
    }
}

} // verus!
