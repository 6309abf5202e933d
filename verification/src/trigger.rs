//! Trigger conditions and the data they are evaluated against.
//!
//! A trigger condition says when process monitoring should request analysis from
//! an analysis collector (binary hasher, memory analyzer, ...). Collectors
//! advertise the conditions, analysis types and priorities they support.

use crate::event::{
    analysis_key, lemma_same_analysis_key, opt_view, AnalysisType, TriggerPriority, TriggerRequest,
};
use crate::support::{decimal, decimal_string, new_uuid_string};
use crate::strmap::StrMap;
use crate::text::{contains_sub, str_contains, str_eq};
use crate::trigger_queue::QueueStatistics;
use vstd::prelude::*;

verus! {

/// Configuration for the trigger system.
#[derive(Debug, Clone, Copy, PartialEq, Eq)]
pub struct TriggerConfig {
    /// Maximum number of triggers per collector per time window
    pub max_triggers_per_collector: usize,
    /// Time window for rate limiting (in seconds)
    pub rate_limit_window_secs: u64,
    /// Deduplication window for identical triggers (in seconds)
    pub deduplication_window_secs: u64,
    /// Maximum number of pending triggers to track
    pub max_pending_triggers: usize,
    /// Enable trigger metadata collection for debugging
    pub enable_metadata_tracking: bool,
}

impl Default for TriggerConfig {
    fn default() -> (c: TriggerConfig)
        ensures
            c.max_triggers_per_collector == 100,
            c.rate_limit_window_secs == 60,
            c.deduplication_window_secs == 300,
            c.max_pending_triggers == 1000,
            c.enable_metadata_tracking,
    {
        TriggerConfig {
            max_triggers_per_collector: 100,
            rate_limit_window_secs: 60,
            deduplication_window_secs: 300,
            max_pending_triggers: 1000,
            enable_metadata_tracking: true,
        }
    }
}

/// Types of trigger conditions that can be evaluated.
#[derive(Debug, Clone, PartialEq, Eq)]
pub enum ConditionType {
    /// Process name contains the pattern
    ProcessNamePattern(String),
    /// Executable path contains the pattern
    ExecutablePathPattern(String),
    /// Process has no executable file
    MissingExecutable,
    /// Process hash mismatch detected (not evaluated yet: never matches)
    HashMismatch,
    /// Suspicious parent-child relationship (not evaluated yet: never matches)
    SuspiciousParentChild,
    /// High resource usage anomaly; the CPU threshold is the bit pattern of an `f64`
    ResourceAnomaly { cpu_threshold_bits: u64, memory_threshold: u64 },
    /// Custom SQL condition (not evaluated yet: never matches)
    Custom(String),
}

/// The variant number of a condition type (its data ignored).
pub open spec fn condition_kind(c: ConditionType) -> nat {
    match c {
        ConditionType::ProcessNamePattern(_) => 0,
        ConditionType::ExecutablePathPattern(_) => 1,
        ConditionType::MissingExecutable => 2,
        ConditionType::HashMismatch => 3,
        ConditionType::SuspiciousParentChild => 4,
        ConditionType::ResourceAnomaly { .. } => 5,
        ConditionType::Custom(_) => 6,
    }
}

impl ConditionType {
    /// The variant number (its data ignored).
    pub fn kind(&self) -> (k: u8)
        ensures
            k == condition_kind(*self),
    {
        match self {
            ConditionType::ProcessNamePattern(_) => 0,
            ConditionType::ExecutablePathPattern(_) => 1,
            ConditionType::MissingExecutable => 2,
            ConditionType::HashMismatch => 3,
            ConditionType::SuspiciousParentChild => 4,
            ConditionType::ResourceAnomaly { .. } => 5,
            ConditionType::Custom(_) => 6,
        }
    }
}

impl ConditionType {
    /// A copy of this condition type.
    pub fn duplicate(&self) -> (r: ConditionType)
        ensures
            r == *self,
    {
        match self {
            ConditionType::ProcessNamePattern(p) => ConditionType::ProcessNamePattern(p.clone()),
            ConditionType::ExecutablePathPattern(p) => ConditionType::ExecutablePathPattern(
                p.clone(),
            ),
            ConditionType::MissingExecutable => ConditionType::MissingExecutable,
            ConditionType::HashMismatch => ConditionType::HashMismatch,
            ConditionType::SuspiciousParentChild => ConditionType::SuspiciousParentChild,
            ConditionType::ResourceAnomaly { cpu_threshold_bits, memory_threshold } => {
                ConditionType::ResourceAnomaly {
                    cpu_threshold_bits: *cpu_threshold_bits,
                    memory_threshold: *memory_threshold,
                }
            },
            ConditionType::Custom(s) => ConditionType::Custom(s.clone()),
        }
    }
}

/// Whether `list` holds a condition type of the same kind as `c`.
pub open spec fn kind_listed(list: Seq<ConditionType>, c: ConditionType) -> bool {
    exists|i: int| 0 <= i < list.len() && condition_kind(#[trigger] list[i]) == condition_kind(c)
}

/// Whether two condition types are compatible: the same variant, whatever their data.
pub fn condition_types_compatible(supported: &ConditionType, requested: &ConditionType) -> (r: bool)
    ensures
        r == (condition_kind(*supported) == condition_kind(*requested)),
{
    supported.kind() == requested.kind()
}

/// Whether `list` holds a condition type of the same kind as `c`.
pub fn kind_in(list: &Vec<ConditionType>, c: &ConditionType) -> (r: bool)
    ensures
        r == kind_listed(list@, *c),
{
    let mut i: usize = 0;
    while i < list.len()
        invariant
            i <= list@.len(),
            forall|j: int| 0 <= j < i ==> condition_kind(#[trigger] list@[j]) != condition_kind(*c),
        decreases list@.len() - i,
    {
        if condition_types_compatible(&list[i], c) {
            return true;
        }
        i = i + 1;
    }
    false
}

/// Trigger condition: when to request which analysis from which collector.
#[derive(Debug, Clone)]
pub struct TriggerCondition {
    /// Condition identifier
    pub id: String,
    /// Human-readable description
    pub description: String,
    /// Analysis type to trigger
    pub analysis_type: AnalysisType,
    /// Priority level for triggered analysis
    pub priority: TriggerPriority,
    /// Target collector name
    pub target_collector: String,
    /// Condition evaluation function
    pub condition_type: ConditionType,
}

impl TriggerCondition {
    /// A copy of this condition.
    pub fn duplicate(&self) -> (r: TriggerCondition)
        ensures
            r == *self,
    {
        TriggerCondition {
            id: self.id.clone(),
            description: self.description.clone(),
            analysis_type: self.analysis_type.duplicate(),
            priority: self.priority,
            target_collector: self.target_collector.clone(),
            condition_type: self.condition_type.duplicate(),
        }
    }
}

/// Deduplication key for trigger requests: the same collector, analysis and target.
#[derive(Debug, Clone, PartialEq, Eq, Hash)]
pub struct DeduplicationKey {
    /// Target collector name
    pub collector: String,
    /// Analysis type
    pub analysis_type: AnalysisType,
    /// Target process ID (if applicable)
    pub target_pid: Option<u32>,
    /// Target file path (if applicable)
    pub target_path: Option<String>,
}

/// The view of a deduplication key.
pub type DedupView = (Seq<char>, (nat, Seq<char>), Option<u32>, Option<Seq<char>>);

/// The view of a deduplication key.
pub open spec fn dedup_view(k: DeduplicationKey) -> DedupView {
    (k.collector@, analysis_key(k.analysis_type), k.target_pid, opt_view(k.target_path))
}

/// A copy of an optional string.
pub fn clone_opt_string(o: &Option<String>) -> (r: Option<String>)
    ensures
        r == *o,
{
    match o {
        Some(s) => Some(s.clone()),
        None => None,
    }
}

/// Whether two optional strings hold the same text (or are both absent).
pub fn opt_str_eq(a: &Option<String>, b: &Option<String>) -> (r: bool)
    ensures
        r == (opt_view(*a) == opt_view(*b)),
{
    match (a, b) {
        (Some(x), Some(y)) => str_eq(x.as_str(), y.as_str()),
        (None, None) => true,
        _ => false,
    }
}

impl DeduplicationKey {
    /// A copy of this key.
    pub fn duplicate(&self) -> (r: DeduplicationKey)
        ensures
            r == *self,
    {
        DeduplicationKey {
            collector: self.collector.clone(),
            analysis_type: self.analysis_type.duplicate(),
            target_pid: self.target_pid,
            target_path: clone_opt_string(&self.target_path),
        }
    }

    /// Whether two keys identify the same request (equal views).
    pub fn same_key(&self, other: &DeduplicationKey) -> (r: bool)
        ensures
            r == (dedup_view(*self) == dedup_view(*other)),
    {
        proof { lemma_same_analysis_key(self.analysis_type, other.analysis_type); }
        str_eq(self.collector.as_str(), other.collector.as_str()) && self.analysis_type.same_as(
            &other.analysis_type,
        ) && self.target_pid == other.target_pid && opt_str_eq(
            &self.target_path,
            &other.target_path,
        )
    }
}

/// Trigger metadata for correlation and debugging.
#[derive(Debug)]
pub struct TriggerMetadata {
    /// Trigger generation timestamp (Unix seconds)
    pub generated_at: u64,
    /// Source event type that triggered the analysis
    pub source_event_type: String,
    /// Condition that matched
    pub matched_condition: String,
    /// Evaluation context
    pub evaluation_context: StrMap<String>,
    /// Correlation ID for tracking related events
    pub correlation_id: String,
}

/// Process data for trigger evaluation.
#[derive(Debug, Clone)]
pub struct ProcessTriggerData {
    /// Process ID
    pub pid: u32,
    /// Process name
    pub name: String,
    /// Executable path
    pub executable_path: Option<String>,
    /// Whether executable file exists
    pub file_exists: bool,
    /// CPU usage percentage, as the bit pattern of an `f64`
    pub cpu_usage_bits: Option<u64>,
    /// Memory usage in bytes
    pub memory_usage: Option<u64>,
    /// Process hash (if available)
    pub executable_hash: Option<String>,
}

/// Resource limits for trigger analysis.
#[derive(Debug, Clone, Copy, PartialEq, Eq)]
pub struct TriggerResourceLimits {
    /// Maximum memory usage per analysis task (bytes)
    pub max_memory_per_task: u64,
    /// Maximum analysis time per task (milliseconds)
    pub max_analysis_time_ms: u64,
    /// Maximum queue depth for pending analysis
    pub max_queue_depth: usize,
}

impl Default for TriggerResourceLimits {
    fn default() -> (l: TriggerResourceLimits)
        ensures
            l.max_memory_per_task == 100 * 1024 * 1024,
            l.max_analysis_time_ms == 30_000,
            l.max_queue_depth == 1000,
    {
        TriggerResourceLimits {
            max_memory_per_task: 100 * 1024 * 1024,
            max_analysis_time_ms: 30_000,
            max_queue_depth: 1000,
        }
    }
}

/// Trigger capabilities advertised by collectors.
#[derive(Debug, Clone)]
pub struct TriggerCapabilities {
    /// Collector identifier
    pub collector_id: String,
    /// Supported trigger condition types
    pub supported_conditions: Vec<ConditionType>,
    /// Supported analysis types
    pub supported_analysis: Vec<AnalysisType>,
    /// Maximum trigger rate per second
    pub max_trigger_rate: u32,
    /// Maximum concurrent analysis tasks
    pub max_concurrent_analysis: u32,
    /// Supported priority levels
    pub supported_priorities: Vec<TriggerPriority>,
    /// Resource limits for analysis
    pub resource_limits: TriggerResourceLimits,
}

/// Statistics for SQL trigger evaluation.
#[derive(Debug, Clone, Copy, Default, PartialEq, Eq)]
pub struct SqlEvaluationStats {
    /// Total evaluations performed
    pub total_evaluations: u64,
    /// Successful matches
    pub successful_matches: u64,
    /// Evaluation errors
    pub evaluation_errors: u64,
    /// Average evaluation time (microseconds)
    pub avg_evaluation_time_us: u64,
    /// SQL parsing errors
    pub sql_parsing_errors: u64,
}

/// Statistics for individual condition evaluation.
#[derive(Debug, Clone, Copy, Default, PartialEq, Eq)]
pub struct ConditionEvaluationStats {
    /// Number of times this condition was evaluated
    pub evaluation_count: u64,
    /// Number of times this condition matched
    pub match_count: u64,
    /// Total evaluation time (microseconds)
    pub total_evaluation_time_us: u64,
    /// Last evaluation timestamp (Unix seconds)
    pub last_evaluation: Option<u64>,
}

/// Statistics for trigger request emission and routing.
#[derive(Debug, Clone, Copy, Default, PartialEq, Eq)]
pub struct TriggerEmissionStats {
    /// Total trigger requests emitted
    pub total_emitted: u64,
    /// Successful emissions to event bus
    pub successful_emissions: u64,
    /// Failed emissions due to validation errors
    pub validation_failures: u64,
    /// Failed emissions due to event bus errors
    pub event_bus_failures: u64,
    /// Trigger requests that timed out
    pub timeouts: u64,
    /// Average emission latency in milliseconds
    pub avg_emission_latency_ms: u64,
    /// Trigger requests currently pending response
    pub pending_responses: usize,
}

impl TriggerEmissionStats {
    /// Statistics before any emission.
    pub open spec fn zero_spec() -> TriggerEmissionStats {
        TriggerEmissionStats {
            total_emitted: 0,
            successful_emissions: 0,
            validation_failures: 0,
            event_bus_failures: 0,
            timeouts: 0,
            avg_emission_latency_ms: 0,
            pending_responses: 0,
        }
    }

    /// Statistics before any emission.
    pub fn zero() -> (s: TriggerEmissionStats)
        ensures
            s == TriggerEmissionStats::zero_spec(),
    {
        TriggerEmissionStats {
            total_emitted: 0,
            successful_emissions: 0,
            validation_failures: 0,
            event_bus_failures: 0,
            timeouts: 0,
            avg_emission_latency_ms: 0,
            pending_responses: 0,
        }
    }
}

/// Trigger system statistics for monitoring.
#[derive(Debug, Clone, Copy, PartialEq, Eq)]
pub struct TriggerStatistics {
    /// Number of registered trigger conditions
    pub registered_conditions: usize,
    /// Number of pending triggers
    pub pending_triggers: usize,
    /// Size of deduplication cache
    pub deduplication_cache_size: usize,
    /// Number of rate limit states tracked
    pub rate_limit_states: usize,
    /// Number of registered collector capabilities
    pub registered_capabilities: usize,
    /// Priority queue statistics
    pub queue_stats: QueueStatistics,
    /// SQL evaluation statistics
    pub sql_evaluation_stats: SqlEvaluationStats,
    /// Trigger emission statistics
    pub emission_stats: TriggerEmissionStats,
}

/// Whether the `f64` with bit pattern `b` is a NaN.
pub open spec fn f64_is_nan(b: u64) -> bool {
    (b & 0x7ff0_0000_0000_0000) == 0x7ff0_0000_0000_0000 && (b & 0x000f_ffff_ffff_ffff) != 0
}

/// Whether the `f64` with bit pattern `b` is a zero of either sign.
pub open spec fn f64_is_zero(b: u64) -> bool {
    (b & 0x7fff_ffff_ffff_ffff) == 0
}

/// An integer that orders non-NaN `f64` bit patterns as their values are ordered
/// (the two zeros aside).
pub open spec fn f64_order_key(b: u64) -> int {
    if (b & 0x8000_0000_0000_0000) == 0 {
        b + 0x8000_0000_0000_0000
    } else {
        0xffff_ffff_ffff_ffff - b
    }
}

/// IEEE-754 `a > b` for the `f64` values with bit patterns `a` and `b`.
pub open spec fn f64_gt(a: u64, b: u64) -> bool {
    !f64_is_nan(a) && !f64_is_nan(b) && !(f64_is_zero(a) && f64_is_zero(b)) && f64_order_key(a)
        > f64_order_key(b)
}

fn order_key(b: u64) -> (k: u128)
    ensures
        k == f64_order_key(b),
{
    if (b & 0x8000_0000_0000_0000) == 0 {
        (b as u128) + 0x8000_0000_0000_0000
    } else {
        0xffff_ffff_ffff_ffffu128 - (b as u128)
    }
}

/// IEEE-754 `a > b` on `f64` bit patterns, computed with integers.
pub fn f64_bits_gt(a: u64, b: u64) -> (r: bool)
    ensures
        r == f64_gt(a, b),
{
    let a_nan = (a & 0x7ff0_0000_0000_0000) == 0x7ff0_0000_0000_0000 && (a & 0x000f_ffff_ffff_ffff)
        != 0;
    let b_nan = (b & 0x7ff0_0000_0000_0000) == 0x7ff0_0000_0000_0000 && (b & 0x000f_ffff_ffff_ffff)
        != 0;
    let both_zero = (a & 0x7fff_ffff_ffff_ffff) == 0 && (b & 0x7fff_ffff_ffff_ffff) == 0;
    !a_nan && !b_nan && !both_zero && order_key(a) > order_key(b)
}

/// Whether a condition matches the process data. Hash mismatch, parent-child and custom
/// conditions are not evaluated yet and never match.
pub open spec fn condition_matches(c: ConditionType, d: ProcessTriggerData) -> bool {
    match c {
        ConditionType::ProcessNamePattern(p) => contains_sub(d.name@, p@),
        ConditionType::ExecutablePathPattern(p) => match d.executable_path {
            Some(path) => contains_sub(path@, p@),
            None => false,
        },
        ConditionType::MissingExecutable => !d.file_exists,
        ConditionType::ResourceAnomaly { cpu_threshold_bits, memory_threshold } => {
            (match d.cpu_usage_bits {
                Some(cpu) => f64_gt(cpu, cpu_threshold_bits),
                None => false,
            }) || (match d.memory_usage {
                Some(m) => m > memory_threshold,
                None => false,
            })
        },
        _ => false,
    }
}

/// Evaluates a condition against process data.
pub fn evaluate_condition(c: &ConditionType, d: &ProcessTriggerData) -> (r: bool)
    ensures
        r == condition_matches(*c, *d),
{
    match c {
        ConditionType::ProcessNamePattern(p) => str_contains(d.name.as_str(), p.as_str()),
        ConditionType::ExecutablePathPattern(p) => match &d.executable_path {
            Some(path) => str_contains(path.as_str(), p.as_str()),
            None => false,
        },
        ConditionType::MissingExecutable => !d.file_exists,
        ConditionType::HashMismatch => false,
        ConditionType::SuspiciousParentChild => false,
        ConditionType::ResourceAnomaly { cpu_threshold_bits, memory_threshold } => {
            let cpu_anomaly = match d.cpu_usage_bits {
                Some(cpu) => f64_bits_gt(cpu, *cpu_threshold_bits),
                None => false,
            };
            let memory_anomaly = match d.memory_usage {
                Some(m) => m > *memory_threshold,
                None => false,
            };
            cpu_anomaly || memory_anomaly
        },
        ConditionType::Custom(_) => false,
    }
}

/// Whether `m` is the evaluation context recorded for condition `c` matched on `d`: the
/// condition id, the source pid in decimal, the executable path when known, and, for
/// requests made by the SQL evaluator, the evaluation method.
pub open spec fn context_ok(
    m: Map<Seq<char>, String>,
    c: TriggerCondition,
    d: ProcessTriggerData,
    sql: bool,
) -> bool {
    &&& m.contains_key("condition_id"@) && m["condition_id"@]@ == c.id@
    &&& m.contains_key("source_pid"@) && m["source_pid"@]@ == decimal(d.pid as nat)
    &&& (sql <==> m.contains_key("evaluation_method"@))
    &&& sql ==> m["evaluation_method"@]@ == "sql_trigger"@
    &&& match d.executable_path {
        Some(p) => m.contains_key("executable_path"@) && m["executable_path"@]@ == p@,
        None => !m.contains_key("executable_path"@),
    }
    &&& forall|k: Seq<char>|
        #[trigger] m.contains_key(k) ==> k == "condition_id"@ || k == "source_pid"@ || k
            == "evaluation_method"@ || k == "executable_path"@
}

/// Whether `t` is the request made for condition `c` matched on `d` at time `now`.
/// Its two identifiers are fresh random UUIDs (36 characters each).
pub open spec fn trigger_from(
    t: TriggerRequest,
    c: TriggerCondition,
    d: ProcessTriggerData,
    now: u64,
    sql: bool,
) -> bool {
    &&& t.target_collector == c.target_collector
    &&& t.analysis_type == c.analysis_type
    &&& t.priority == c.priority
    &&& t.target_pid == Some(d.pid)
    &&& t.target_path == d.executable_path
    &&& t.timestamp == now
    &&& context_ok(t.metadata@, c, d, sql)
    &&& t.trigger_id@.len() == 36
    &&& t.correlation_id@.len() == 36
}

/// Builds the evaluation context recorded for condition `c` matched on `d`.
pub fn trigger_context(c: &TriggerCondition, d: &ProcessTriggerData, sql: bool) -> (m: StrMap<
    String,
>)
    ensures
        context_ok(m@, *c, *d, sql),
{
    proof {
        reveal_strlit("condition_id");
        reveal_strlit("source_pid");
        reveal_strlit("evaluation_method");
        reveal_strlit("executable_path");
        reveal_strlit("sql_trigger");
    }
    let mut m: StrMap<String> = StrMap::new();
    m.insert(String::from_str("condition_id"), c.id.clone());
    m.insert(String::from_str("source_pid"), decimal_string(d.pid as u64));
    if sql {
        m.insert(String::from_str("evaluation_method"), String::from_str("sql_trigger"));
    }
    match &d.executable_path {
        Some(p) => {
            m.insert(String::from_str("executable_path"), p.clone());
        },
        None => {},
    }
    proof {
        assert(("condition_id"@)[0] != ("source_pid"@)[0]);
        assert(("condition_id"@)[0] != ("evaluation_method"@)[0]);
        assert(("condition_id"@) != ("source_pid"@));
        assert(("condition_id"@) != ("evaluation_method"@));
        assert(("condition_id"@) != ("executable_path"@));
        assert(("source_pid"@) != ("evaluation_method"@));
        assert(("source_pid"@) != ("executable_path"@));
        assert(("evaluation_method"@)[1] != ("executable_path"@)[1]);
        assert(("evaluation_method"@) != ("executable_path"@));
    }
    m
}

/// Makes the trigger request for condition `c` matched on `d` at time `now`, with fresh
/// random trigger and correlation identifiers.
pub fn make_trigger(c: &TriggerCondition, d: &ProcessTriggerData, now: u64, sql: bool) -> (t:
    TriggerRequest)
    ensures
        trigger_from(t, *c, *d, now, sql),
{
    let trigger_id = new_uuid_string();
    let correlation_id = new_uuid_string();
    TriggerRequest {
        trigger_id,
        target_collector: c.target_collector.clone(),
        analysis_type: c.analysis_type.duplicate(),
        priority: c.priority,
        target_pid: Some(d.pid),
        target_path: clone_opt_string(&d.executable_path),
        correlation_id,
        metadata: trigger_context(c, d, sql),
        timestamp: now,
    }
}

/// The `Debug` rendering of an analysis type (a custom one with its text in quotes).
pub open spec fn analysis_debug(a: AnalysisType) -> Seq<char> {
    match a {
        AnalysisType::BinaryHash => "BinaryHash"@,
        AnalysisType::MemoryAnalysis => "MemoryAnalysis"@,
        AnalysisType::YaraScan => "YaraScan"@,
        AnalysisType::NetworkAnalysis => "NetworkAnalysis"@,
        AnalysisType::BehavioralAnalysis => "BehavioralAnalysis"@,
        AnalysisType::Custom(s) => "Custom(\""@ + s@ + "\")"@,
    }
}

/// Renders an analysis type for messages.
pub fn analysis_text(a: &AnalysisType) -> (s: String)
    ensures
        s@ == analysis_debug(*a),
{
    match a {
        AnalysisType::BinaryHash => String::from_str("BinaryHash"),
        AnalysisType::MemoryAnalysis => String::from_str("MemoryAnalysis"),
        AnalysisType::YaraScan => String::from_str("YaraScan"),
        AnalysisType::NetworkAnalysis => String::from_str("NetworkAnalysis"),
        AnalysisType::BehavioralAnalysis => String::from_str("BehavioralAnalysis"),
        AnalysisType::Custom(c) => String::from_str("Custom(\"").concat(c.as_str()).concat("\")"),
    }
}

/// The name of a priority level.
pub open spec fn priority_name(p: TriggerPriority) -> Seq<char> {
    match p {
        TriggerPriority::Low => "Low"@,
        TriggerPriority::Normal => "Normal"@,
        TriggerPriority::High => "High"@,
        TriggerPriority::Critical => "Critical"@,
    }
}

/// Renders a priority level for messages.
pub fn priority_text(p: TriggerPriority) -> (s: String)
    ensures
        s@ == priority_name(p),
{
    match p {
        TriggerPriority::Low => String::from_str("Low"),
        TriggerPriority::Normal => String::from_str("Normal"),
        TriggerPriority::High => String::from_str("High"),
        TriggerPriority::Critical => String::from_str("Critical"),
    }
}

/// The name of a condition type's variant.
pub open spec fn condition_kind_name(c: ConditionType) -> Seq<char> {
    match c {
        ConditionType::ProcessNamePattern(_) => "ProcessNamePattern"@,
        ConditionType::ExecutablePathPattern(_) => "ExecutablePathPattern"@,
        ConditionType::MissingExecutable => "MissingExecutable"@,
        ConditionType::HashMismatch => "HashMismatch"@,
        ConditionType::SuspiciousParentChild => "SuspiciousParentChild"@,
        ConditionType::ResourceAnomaly { .. } => "ResourceAnomaly"@,
        ConditionType::Custom(_) => "Custom"@,
    }
}

/// Renders a condition type's variant for messages.
pub fn condition_kind_text(c: &ConditionType) -> (s: String)
    ensures
        s@ == condition_kind_name(*c),
{
    match c {
        ConditionType::ProcessNamePattern(_) => String::from_str("ProcessNamePattern"),
        ConditionType::ExecutablePathPattern(_) => String::from_str("ExecutablePathPattern"),
        ConditionType::MissingExecutable => String::from_str("MissingExecutable"),
        ConditionType::HashMismatch => String::from_str("HashMismatch"),
        ConditionType::SuspiciousParentChild => String::from_str("SuspiciousParentChild"),
        ConditionType::ResourceAnomaly { .. } => String::from_str("ResourceAnomaly"),
        ConditionType::Custom(_) => String::from_str("Custom"),
    }
}

/// Whether `b` holds the same capabilities as `a`.
pub open spec fn same_capabilities(a: TriggerCapabilities, b: TriggerCapabilities) -> bool {
    &&& a.collector_id == b.collector_id
    &&& a.supported_conditions@ == b.supported_conditions@
    &&& a.supported_analysis@ == b.supported_analysis@
    &&& a.max_trigger_rate == b.max_trigger_rate
    &&& a.max_concurrent_analysis == b.max_concurrent_analysis
    &&& a.supported_priorities@ == b.supported_priorities@
    &&& a.resource_limits == b.resource_limits
}

impl TriggerCapabilities {
    /// A copy of these capabilities.
    pub fn duplicate(&self) -> (r: TriggerCapabilities)
        ensures
            same_capabilities(r, *self),
    {
        let mut conds: Vec<ConditionType> = Vec::new();
        let mut i: usize = 0;
        while i < self.supported_conditions.len()
            invariant
                i <= self.supported_conditions@.len(),
                conds@ == self.supported_conditions@.take(i as int),
            decreases self.supported_conditions@.len() - i,
        {
            conds.push(self.supported_conditions[i].duplicate());
            i = i + 1;
            assert(conds@ =~= self.supported_conditions@.take(i as int));
        }
        let mut analyses: Vec<AnalysisType> = Vec::new();
        let mut j: usize = 0;
        while j < self.supported_analysis.len()
            invariant
                j <= self.supported_analysis@.len(),
                analyses@ == self.supported_analysis@.take(j as int),
            decreases self.supported_analysis@.len() - j,
        {
            analyses.push(self.supported_analysis[j].duplicate());
            j = j + 1;
            assert(analyses@ =~= self.supported_analysis@.take(j as int));
        }
        let mut prios: Vec<TriggerPriority> = Vec::new();
        let mut k: usize = 0;
        while k < self.supported_priorities.len()
            invariant
                k <= self.supported_priorities@.len(),
                prios@ == self.supported_priorities@.take(k as int),
            decreases self.supported_priorities@.len() - k,
        {
            prios.push(self.supported_priorities[k]);
            k = k + 1;
            assert(prios@ =~= self.supported_priorities@.take(k as int));
        }
        assert(conds@ =~= self.supported_conditions@);
        assert(analyses@ =~= self.supported_analysis@);
        assert(prios@ =~= self.supported_priorities@);
        TriggerCapabilities {
            collector_id: self.collector_id.clone(),
            supported_conditions: conds,
            supported_analysis: analyses,
            max_trigger_rate: self.max_trigger_rate,
            max_concurrent_analysis: self.max_concurrent_analysis,
            supported_priorities: prios,
            resource_limits: self.resource_limits,
        }
    }
}

/// An executable-path condition looks at the executable path alone: it never matches a
/// process without a path, always matches one whose path contains the pattern, matches
/// only when the path contains the pattern somewhere, and does not depend on the process
/// name or any other field.
pub proof fn law_executable_path_condition(
    p: String,
    d: ProcessTriggerData,
    d2: ProcessTriggerData,
    pre: Seq<char>,
    post: Seq<char>,
)
    ensures
        d.executable_path is None ==> !condition_matches(ConditionType::ExecutablePathPattern(p), d),
        (d.executable_path matches Some(path) && path@ == pre + p@ + post) ==> condition_matches(
            ConditionType::ExecutablePathPattern(p),
            d,
        ),
        condition_matches(ConditionType::ExecutablePathPattern(p), d) ==> (d.executable_path matches Some(
            path,
        ) && exists|a: Seq<char>, b: Seq<char>| #[trigger] (a + p@ + b) == path@),
        d2.executable_path == d.executable_path ==> condition_matches(ConditionType::ExecutablePathPattern(p), d2)
            == condition_matches(ConditionType::ExecutablePathPattern(p), d),
{
    if let Some(path) = d.executable_path {
        if path@ == pre + p@ + post {
            assert(path@.subrange(pre.len() as int, (pre.len() + p@.len()) as int) =~= p@);
        }
        if condition_matches(ConditionType::ExecutablePathPattern(p), d) {
            let i = choose|i: int| 0 <= i && i + p@.len() <= path@.len() && #[trigger] path@.subrange(i, i + p@.len()) == p@;
            let a = path@.subrange(0, i);
            let b = path@.subrange(i + p@.len(), path@.len() as int);
            assert(a + p@ + b =~= path@);
        }
    }
}

/// A process-name condition looks at the name alone: it matches a process whose name
/// contains the pattern, only such a process, and does not depend on the executable path or
/// any other field.
pub proof fn law_process_name_condition(
    p: String,
    d: ProcessTriggerData,
    d2: ProcessTriggerData,
    pre: Seq<char>,
    post: Seq<char>,
)
    ensures
        d.name@ == pre + p@ + post ==> condition_matches(ConditionType::ProcessNamePattern(p), d),
        condition_matches(ConditionType::ProcessNamePattern(p), d) ==> exists|a: Seq<char>, b: Seq<char>|
            #[trigger] (a + p@ + b) == d.name@,
        d2.name@ == d.name@ ==> condition_matches(ConditionType::ProcessNamePattern(p), d2)
            == condition_matches(ConditionType::ProcessNamePattern(p), d),
{
    if d.name@ == pre + p@ + post {
        assert(d.name@.subrange(pre.len() as int, (pre.len() + p@.len()) as int) =~= p@);
    }
    if condition_matches(ConditionType::ProcessNamePattern(p), d) {
        let i = choose|i: int| 0 <= i && i + p@.len() <= d.name@.len() && #[trigger] d.name@.subrange(i, i + p@.len()) == p@;
        let a = d.name@.subrange(0, i);
        let b = d.name@.subrange(i + p@.len(), d.name@.len() as int);
        assert(a + p@ + b =~= d.name@);
    }
}

/// The other conditions: a missing-executable condition matches exactly the processes whose
/// file is gone; a resource anomaly matches a process using more memory than its threshold
/// and never one with neither a CPU nor a memory reading; hash-mismatch, parent-child and
/// custom conditions never match.
pub proof fn law_other_conditions(d: ProcessTriggerData, cpu_bits: u64, mem: u64, name: String)
    ensures
        condition_matches(ConditionType::MissingExecutable, d) == !d.file_exists,
        (d.memory_usage matches Some(m) && m > mem) ==> condition_matches(
            ConditionType::ResourceAnomaly { cpu_threshold_bits: cpu_bits, memory_threshold: mem },
            d,
        ),
        d.memory_usage is None && d.cpu_usage_bits is None ==> !condition_matches(
            ConditionType::ResourceAnomaly { cpu_threshold_bits: cpu_bits, memory_threshold: mem },
            d,
        ),
        !condition_matches(ConditionType::HashMismatch, d),
        !condition_matches(ConditionType::SuspiciousParentChild, d),
        !condition_matches(ConditionType::Custom(name), d),
{
}

} // verus!
