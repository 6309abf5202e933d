//! Graceful shutdown coordination for collectors.
//!
//! The coordinator keeps one shutdown record per collector and moves it through its
//! phases. A shutdown is a fixed sequence of steps: phase changes, pauses that let a
//! collector wind down, and a resource cleanup. The caller runs the steps (it owns the
//! clock and the waiting) and reports each phase change back here; every decision about
//! phases, timeouts, responses and the global shutdown flag is made by this module.
//! Durations and instants are milliseconds.

use crate::strmap::StrMap;
use vstd::prelude::*;

verus! {

/// Shutdown coordination settings.
#[derive(Debug, Clone, Copy, PartialEq, Eq)]
pub struct ShutdownConfig {
    /// Graceful shutdown timeout
    pub graceful_timeout_ms: u64,
    /// Forced shutdown timeout
    pub forced_timeout_ms: u64,
    /// Pause between collectors in a sequential shutdown
    pub sequence_delay_ms: u64,
    /// Shut collectors down in parallel
    pub enable_parallel_shutdown: bool,
    /// Largest number of shutdowns running at once
    pub max_concurrent_shutdowns: usize,
}

impl Default for ShutdownConfig {
    fn default() -> (c: Self)
        ensures
            c.graceful_timeout_ms == 60_000,
            c.forced_timeout_ms == 10_000,
            c.sequence_delay_ms == 500,
            c.enable_parallel_shutdown,
            c.max_concurrent_shutdowns == 5,
    {
        ShutdownConfig {
            graceful_timeout_ms: 60_000,
            forced_timeout_ms: 10_000,
            sequence_delay_ms: 500,
            enable_parallel_shutdown: true,
            max_concurrent_shutdowns: 5,
        }
    }
}

/// Shutdown phases.
#[derive(Debug, Clone, Copy, PartialEq, Eq, Structural)]
pub enum ShutdownPhase {
    /// Shutdown initiated
    Initiated,
    /// Preparing for shutdown
    Preparing,
    /// Stopping active operations
    Stopping,
    /// Cleaning up resources
    Cleanup,
    /// Shutdown completed
    Completed,
    /// Shutdown failed
    Failed,
    /// Forced shutdown
    Forced,
}

/// The shutdown record of one collector.
#[derive(Debug)]
pub struct CollectorShutdownState {
    /// Collector identifier
    pub collector_id: String,
    /// Current phase
    pub phase: ShutdownPhase,
    /// When the shutdown started
    pub start_time_ms: u64,
    /// When the record last changed
    pub last_update_ms: u64,
    /// Timeout granted to the shutdown
    pub timeout_ms: u64,
    /// Whether the shutdown is forced
    pub force_shutdown: bool,
    /// Why the collector is shut down
    pub reason: String,
    /// Whether the resources were cleaned up
    pub cleanup_completed: bool,
}

/// Events a shutdown announces.
#[derive(Debug, Clone, PartialEq, Eq)]
pub enum ShutdownEvent {
    /// Shutdown initiated for a collector
    ShutdownInitiated { collector_id: String, reason: String, timeout_ms: u64, timestamp_ms: u64 },
    /// A collector changed phase
    PhaseChanged { collector_id: String, old_phase: ShutdownPhase, new_phase: ShutdownPhase, timestamp_ms: u64 },
    /// A collector shut down
    ShutdownCompleted { collector_id: String, duration_ms: u64, timestamp_ms: u64 },
    /// A collector's shutdown failed
    ShutdownFailed { collector_id: String, error: String, phase: ShutdownPhase, timestamp_ms: u64 },
    /// A forced shutdown was executed
    ForcedShutdown { collector_id: String, reason: String, timestamp_ms: u64 },
    /// A global shutdown began
    GlobalShutdownInitiated { reason: String, collector_count: usize, timestamp_ms: u64 },
    /// A global shutdown ended
    GlobalShutdownCompleted { duration_ms: u64, successful_shutdowns: usize, failed_shutdowns: usize, timestamp_ms: u64 },
}

/// A request to shut one collector down.
#[derive(Debug, Clone, PartialEq, Eq)]
pub struct ShutdownRequest {
    /// Collector identifier
    pub collector_id: String,
    /// Why the collector is shut down
    pub reason: String,
    /// Force the shutdown
    pub force: bool,
    /// Timeout overriding the configured one
    pub timeout_ms: Option<u64>,
}

/// The outcome of one collector's shutdown.
#[derive(Debug, Clone, PartialEq, Eq)]
pub struct ShutdownResponse {
    /// Whether the shutdown succeeded
    pub success: bool,
    /// Why it failed
    pub error_message: Option<String>,
    /// How long it took
    pub duration_ms: u64,
    /// The last phase reached
    pub final_phase: ShutdownPhase,
}

/// Why a shutdown step failed.
#[derive(Debug, Clone, PartialEq, Eq)]
pub enum ShutdownError {
    /// The collector has no shutdown record
    CollectorNotFound { collector_id: String },
}

impl ShutdownError {
    /// The error's message.
    pub fn to_string(&self) -> (s: String)
        ensures
            self matches ShutdownError::CollectorNotFound { collector_id } ==> s@ == "Collector not found: "@ + collector_id@,
    {
        match self {
            ShutdownError::CollectorNotFound { collector_id } => {
                let s = String::from_str("Collector not found: ");
                s.concat(collector_id.as_str())
            },
        }
    }
}

/// One step of a collector's shutdown sequence.
#[derive(Debug, Clone, Copy, PartialEq, Eq, Structural)]
pub enum ShutdownStep {
    /// Move the collector to a phase
    EnterPhase(ShutdownPhase),
    /// Give the collector time to wind down
    Pause { ms: u64 },
    /// Stop the collector's active operations (a pause of its own)
    StopOperations,
    /// Release the collector's resources
    Cleanup,
    /// Announce that the shutdown is forced
    AnnounceForced,
}

/// The steps of a graceful or forced shutdown, in order.
pub open spec fn steps_spec(force: bool) -> Seq<ShutdownStep> {
    if force {
        seq![
            ShutdownStep::EnterPhase(ShutdownPhase::Forced),
            ShutdownStep::AnnounceForced,
            ShutdownStep::Cleanup,
            ShutdownStep::EnterPhase(ShutdownPhase::Completed),
        ]
    } else {
        seq![
            ShutdownStep::EnterPhase(ShutdownPhase::Preparing),
            ShutdownStep::Pause { ms: 100 },
            ShutdownStep::EnterPhase(ShutdownPhase::Stopping),
            ShutdownStep::StopOperations,
            ShutdownStep::EnterPhase(ShutdownPhase::Cleanup),
            ShutdownStep::Cleanup,
            ShutdownStep::EnterPhase(ShutdownPhase::Completed),
        ]
    }
}

/// The steps of a graceful (`force` false) or forced shutdown, in order.
pub fn shutdown_steps(force: bool) -> (v: Vec<ShutdownStep>)
    ensures
        v@ == steps_spec(force),
{
    if force {
        let v = vec![
            ShutdownStep::EnterPhase(ShutdownPhase::Forced),
            ShutdownStep::AnnounceForced,
            ShutdownStep::Cleanup,
            ShutdownStep::EnterPhase(ShutdownPhase::Completed),
        ];
        assert(v@ =~= steps_spec(force));
        v
    } else {
        let v = vec![
            ShutdownStep::EnterPhase(ShutdownPhase::Preparing),
            ShutdownStep::Pause { ms: 100 },
            ShutdownStep::EnterPhase(ShutdownPhase::Stopping),
            ShutdownStep::StopOperations,
            ShutdownStep::EnterPhase(ShutdownPhase::Cleanup),
            ShutdownStep::Cleanup,
            ShutdownStep::EnterPhase(ShutdownPhase::Completed),
        ];
        assert(v@ =~= steps_spec(force));
        v
    }
}

/// The phase a collector in phase `start` is left in by `steps`.
pub open spec fn phase_after(start: ShutdownPhase, steps: Seq<ShutdownStep>) -> ShutdownPhase
    decreases steps.len(),
{
    if steps.len() == 0 {
        start
    } else {
        let next = match steps[0] {
            ShutdownStep::EnterPhase(p) => p,
            _ => start,
        };
        phase_after(next, steps.drop_first())
    }
}

/// Whether `step` can be taken for `id` with records `recs`: entering a phase needs the
/// collector's record; every other step always can.
pub open spec fn step_ok(recs: Map<Seq<char>, CollectorShutdownState>, id: Seq<char>, step: ShutdownStep) -> bool {
    !(step is EnterPhase) || recs.contains_key(id)
}

/// The records after `step` is taken for `id` at `now`: entering a phase moves the record
/// there, cleanup marks its resources released; an absent record stays absent and the
/// other steps change nothing.
pub open spec fn step_effect(
    recs: Map<Seq<char>, CollectorShutdownState>,
    id: Seq<char>,
    step: ShutdownStep,
    now: u64,
) -> Map<Seq<char>, CollectorShutdownState> {
    if !recs.contains_key(id) {
        recs
    } else {
        match step {
            ShutdownStep::EnterPhase(p) => recs.insert(id, CollectorShutdownState { phase: p, last_update_ms: now, ..recs[id] }),
            ShutdownStep::Cleanup => recs.insert(id, CollectorShutdownState { cleanup_completed: true, ..recs[id] }),
            _ => recs,
        }
    }
}

/// The records after `steps` are taken in order for `id`, the `i`-th at `times[i]`.
pub open spec fn records_after(
    recs: Map<Seq<char>, CollectorShutdownState>,
    id: Seq<char>,
    steps: Seq<ShutdownStep>,
    times: Seq<u64>,
) -> Map<Seq<char>, CollectorShutdownState>
    decreases steps.len(),
{
    if steps.len() == 0 {
        recs
    } else {
        records_after(step_effect(recs, id, steps[0], times[0]), id, steps.drop_first(), times.drop_first())
    }
}

/// Whether every one of `steps`, taken in order for `id`, can be taken.
pub open spec fn run_succeeds(
    recs: Map<Seq<char>, CollectorShutdownState>,
    id: Seq<char>,
    steps: Seq<ShutdownStep>,
    times: Seq<u64>,
) -> bool
    decreases steps.len(),
{
    if steps.len() == 0 {
        true
    } else {
        step_ok(recs, id, steps[0]) && run_succeeds(
            step_effect(recs, id, steps[0], times[0]),
            id,
            steps.drop_first(),
            times.drop_first(),
        )
    }
}

/// Whether `resp` is the response closing the shutdown of `id` with records `recs` after
/// steps that all succeeded (`ok`) or not: successful exactly when they did, with an error
/// message exactly when it is not, reporting the stored phase (`Failed` without a record).
pub open spec fn finished_response(
    recs: Map<Seq<char>, CollectorShutdownState>,
    id: Seq<char>,
    ok: bool,
    resp: ShutdownResponse,
) -> bool {
    &&& resp.success == ok
    &&& resp.success <==> resp.error_message is None
    &&& resp.final_phase == if recs.contains_key(id) { recs[id].phase } else { ShutdownPhase::Failed }
}

/// The timeout granted to `request` under `config`: its own, else the forced or the
/// graceful one.
pub open spec fn timeout_for(config: ShutdownConfig, request: ShutdownRequest) -> u64 {
    match request.timeout_ms {
        Some(t) => t,
        None => if request.force {
            config.forced_timeout_ms
        } else {
            config.graceful_timeout_ms
        },
    }
}

/// The response of a shutdown task that failed before producing one.
pub open spec fn failed_response_spec(message: String) -> ShutdownResponse {
    ShutdownResponse { success: false, error_message: Some(message), duration_ms: 0, final_phase: ShutdownPhase::Failed }
}

/// The response recorded for a shutdown task: its own response, or a failure carrying
/// the task's error.
pub fn task_response(outcome: Result<ShutdownResponse, String>) -> (r: ShutdownResponse)
    ensures
        outcome matches Ok(resp) ==> r == resp,
        outcome matches Err(m) ==> r == failed_response_spec(m),
{
    match outcome {
        Ok(resp) => resp,
        Err(m) => ShutdownResponse { success: false, error_message: Some(m), duration_ms: 0, final_phase: ShutdownPhase::Failed },
    }
}

/// The number of successful responses among the first `n` of `rs`.
pub open spec fn successes_upto(rs: Seq<ShutdownResponse>, n: int) -> int
    decreases n,
{
    if n <= 0 {
        0
    } else {
        successes_upto(rs, n - 1) + if rs[n - 1].success { 1int } else { 0int }
    }
}

proof fn lemma_successes_bounded(rs: Seq<ShutdownResponse>, n: int)
    requires
        0 <= n <= rs.len(),
    ensures
        0 <= successes_upto(rs, n) <= n,
    decreases n,
{
    if n > 0 {
        lemma_successes_bounded(rs, n - 1);
    }
}

/// Coordinates the shutdown of collectors.
#[derive(Debug)]
pub struct ShutdownCoordinator {
    config: ShutdownConfig,
    states: StrMap<CollectorShutdownState>,
    global_shutdown: bool,
}

impl ShutdownCoordinator {
    /// The configuration in force.
    pub closed spec fn config_spec(&self) -> ShutdownConfig {
        self.config
    }

    /// The shutdown records, by collector id.
    pub closed spec fn records(&self) -> Map<Seq<char>, CollectorShutdownState> {
        self.states@
    }

    /// The collector ids with a record, in the order they were first registered.
    pub closed spec fn record_order(&self) -> Seq<Seq<char>> {
        self.states.keys()
    }

    /// Whether a global shutdown is under way.
    pub closed spec fn global_active(&self) -> bool {
        self.global_shutdown
    }

    /// A coordinator with no records and no global shutdown.
    pub fn new(config: ShutdownConfig) -> (c: Self)
        ensures
            c.config_spec() == config,
            c.records() == Map::<Seq<char>, CollectorShutdownState>::empty(),
            c.record_order() == Seq::<Seq<char>>::empty(),
            !c.global_active(),
    {
        ShutdownCoordinator { config, states: StrMap::new(), global_shutdown: false }
    }

    /// The timeout granted to `request`.
    pub fn shutdown_timeout(&self, request: &ShutdownRequest) -> (t: u64)
        ensures
            t == timeout_for(self.config_spec(), *request),
    {
        match request.timeout_ms {
            Some(t) => t,
            None => if request.force {
                self.config.forced_timeout_ms
            } else {
                self.config.graceful_timeout_ms
            },
        }
    }

    /// Registers a fresh record (phase `Initiated`) for `request` at `now_ms`, replacing
    /// any earlier one, and returns the announcement.
    pub fn begin_shutdown(&mut self, request: &ShutdownRequest, now_ms: u64) -> (e: ShutdownEvent)
        ensures
            final(self).records() == old(self).records().insert(
                request.collector_id@,
                CollectorShutdownState {
                    collector_id: request.collector_id,
                    phase: ShutdownPhase::Initiated,
                    start_time_ms: now_ms,
                    last_update_ms: now_ms,
                    timeout_ms: timeout_for(old(self).config_spec(), *request),
                    force_shutdown: request.force,
                    reason: request.reason,
                    cleanup_completed: false,
                },
            ),
            old(self).records().contains_key(request.collector_id@) ==> final(self).record_order() == old(self).record_order(),
            !old(self).records().contains_key(request.collector_id@) ==> final(self).record_order() == old(self).record_order().push(request.collector_id@),
            final(self).config_spec() == old(self).config_spec(),
            final(self).global_active() == old(self).global_active(),
            e == (ShutdownEvent::ShutdownInitiated {
                collector_id: request.collector_id,
                reason: request.reason,
                timeout_ms: timeout_for(old(self).config_spec(), *request),
                timestamp_ms: now_ms,
            }),
    {
        let timeout_ms = self.shutdown_timeout(request);
        let state = CollectorShutdownState {
            collector_id: request.collector_id.clone(),
            phase: ShutdownPhase::Initiated,
            start_time_ms: now_ms,
            last_update_ms: now_ms,
            timeout_ms,
            force_shutdown: request.force,
            reason: request.reason.clone(),
            cleanup_completed: false,
        };
        self.states.insert(request.collector_id.clone(), state);
        ShutdownEvent::ShutdownInitiated {
            collector_id: request.collector_id.clone(),
            reason: request.reason.clone(),
            timeout_ms,
            timestamp_ms: now_ms,
        }
    }

    /// Moves `collector_id` to `new_phase` at `now_ms` and returns the announcement of the
    /// change; fails, changing nothing, when the collector has no record.
    pub fn update_shutdown_phase(&mut self, collector_id: &str, new_phase: ShutdownPhase, now_ms: u64) -> (r: Result<ShutdownEvent, ShutdownError>)
        ensures
            !old(self).records().contains_key(collector_id@) ==> {
                &&& r matches Err(ShutdownError::CollectorNotFound { collector_id: id }) && id@ == collector_id@
                &&& final(self).records() == old(self).records()
            },
            old(self).records().contains_key(collector_id@) ==> {
                let s = old(self).records()[collector_id@];
                &&& final(self).records() == old(self).records().insert(
                    collector_id@,
                    CollectorShutdownState { phase: new_phase, last_update_ms: now_ms, ..s },
                )
                &&& r matches Ok(ShutdownEvent::PhaseChanged { collector_id: id, old_phase, new_phase: np, timestamp_ms })
                    && id@ == collector_id@ && old_phase == s.phase && np == new_phase && timestamp_ms == now_ms
            },
            final(self).record_order() == old(self).record_order(),
            final(self).config_spec() == old(self).config_spec(),
            final(self).global_active() == old(self).global_active(),
    {
        match self.states.find(collector_id) {
            None => {
                Err(ShutdownError::CollectorNotFound { collector_id: String::from_str(collector_id) })
            },
            Some(i) => {
                let cur = self.states.value_at(i);
                let old_phase = cur.phase;
                let next = CollectorShutdownState {
                    collector_id: cur.collector_id.clone(),
                    phase: new_phase,
                    start_time_ms: cur.start_time_ms,
                    last_update_ms: now_ms,
                    timeout_ms: cur.timeout_ms,
                    force_shutdown: cur.force_shutdown,
                    reason: cur.reason.clone(),
                    cleanup_completed: cur.cleanup_completed,
                };
                self.states.replace_value(i, next);
                Ok(ShutdownEvent::PhaseChanged {
                    collector_id: String::from_str(collector_id),
                    old_phase,
                    new_phase,
                    timestamp_ms: now_ms,
                })
            },
        }
    }

    /// Marks the resources of `collector_id` as cleaned up; nothing else changes, and an
    /// unknown collector is left alone.
    pub fn cleanup_collector_resources(&mut self, collector_id: &str)
        ensures
            old(self).records().contains_key(collector_id@) ==> final(self).records() == old(self).records().insert(
                collector_id@,
                CollectorShutdownState { cleanup_completed: true, ..old(self).records()[collector_id@] },
            ),
            !old(self).records().contains_key(collector_id@) ==> final(self).records() == old(self).records(),
            final(self).record_order() == old(self).record_order(),
            final(self).config_spec() == old(self).config_spec(),
            final(self).global_active() == old(self).global_active(),
    {
        match self.states.find(collector_id) {
            None => {},
            Some(i) => {
                let cur = self.states.value_at(i);
                let next = CollectorShutdownState {
                    collector_id: cur.collector_id.clone(),
                    phase: cur.phase,
                    start_time_ms: cur.start_time_ms,
                    last_update_ms: cur.last_update_ms,
                    timeout_ms: cur.timeout_ms,
                    force_shutdown: cur.force_shutdown,
                    reason: cur.reason.clone(),
                    cleanup_completed: true,
                };
                self.states.replace_value(i, next);
            },
        }
    }

    /// The phase `collector_id` is in, if it has a record.
    pub fn get_shutdown_status(&self, collector_id: &str) -> (r: Option<ShutdownPhase>)
        ensures
            self.records().contains_key(collector_id@) ==> r == Some(self.records()[collector_id@].phase),
            !self.records().contains_key(collector_id@) ==> r is None,
    {
        match self.states.get(collector_id) {
            Some(s) => Some(s.phase),
            None => None,
        }
    }

    /// The final phase reported for `collector_id`: its record's phase, else `Failed`.
    pub open spec fn final_phase_spec(&self, collector_id: Seq<char>) -> ShutdownPhase {
        if self.records().contains_key(collector_id) {
            self.records()[collector_id].phase
        } else {
            ShutdownPhase::Failed
        }
    }

    /// Closes the shutdown of `collector_id` after its steps ran with `outcome`, taking
    /// `duration_ms`: the response (successful exactly when the steps were) and the
    /// announcement of completion or failure.
    pub fn finish_shutdown(&self, collector_id: &str, outcome: &Result<(), ShutdownError>, duration_ms: u64, now_ms: u64) -> (r: (ShutdownResponse, ShutdownEvent))
        ensures
            r.0.final_phase == self.final_phase_spec(collector_id@),
            r.0.duration_ms == duration_ms,
            finished_response(self.records(), collector_id@, outcome is Ok, r.0),
            outcome is Ok ==> {
                &&& r.0.success
                &&& r.0.error_message is None
                &&& r.1 matches ShutdownEvent::ShutdownCompleted { collector_id: id, duration_ms: d, timestamp_ms: t }
                    && id@ == collector_id@ && d == duration_ms && t == now_ms
            },
            outcome matches Err(ShutdownError::CollectorNotFound { collector_id: missing }) ==> {
                let msg = "Collector not found: "@ + missing@;
                &&& !r.0.success
                &&& r.0.error_message matches Some(m) && m@ == msg
                &&& r.1 matches ShutdownEvent::ShutdownFailed { collector_id: id, error, phase, timestamp_ms: t }
                    && id@ == collector_id@ && error@ == msg && phase == self.final_phase_spec(collector_id@) && t == now_ms
            },
    {
        let final_phase = match self.get_shutdown_status(collector_id) {
            Some(p) => p,
            None => ShutdownPhase::Failed,
        };
        match outcome {
            Ok(()) => (
                ShutdownResponse { success: true, error_message: None, duration_ms, final_phase },
                ShutdownEvent::ShutdownCompleted { collector_id: String::from_str(collector_id), duration_ms, timestamp_ms: now_ms },
            ),
            Err(e) => {
                let msg = e.to_string();
                let msg2 = e.to_string();
                (
                    ShutdownResponse { success: false, error_message: Some(msg), duration_ms, final_phase },
                    ShutdownEvent::ShutdownFailed {
                        collector_id: String::from_str(collector_id),
                        error: msg2,
                        phase: final_phase,
                        timestamp_ms: now_ms,
                    },
                )
            },
        }
    }

    /// Takes one step of the shutdown of `collector_id` at `now_ms` and returns its
    /// announcement, if any: entering a phase (which fails, changing nothing, without a
    /// record), releasing resources, or announcing a forced shutdown. Pauses change nothing
    /// here; the caller waits them out.
    pub fn apply_step(&mut self, collector_id: &str, step: ShutdownStep, now_ms: u64) -> (r: Result<
        Option<ShutdownEvent>,
        ShutdownError,
    >)
        ensures
            final(self).records() == step_effect(old(self).records(), collector_id@, step, now_ms),
            r is Ok <==> step_ok(old(self).records(), collector_id@, step),
            r matches Err(ShutdownError::CollectorNotFound { collector_id: id }) ==> id@ == collector_id@,
            step is EnterPhase && r is Ok ==> (r matches Ok(Some(ShutdownEvent::PhaseChanged { collector_id: id, old_phase, new_phase, timestamp_ms }))
                && id@ == collector_id@ && old_phase == old(self).records()[collector_id@].phase && new_phase == step->EnterPhase_0 && timestamp_ms == now_ms),
            step is AnnounceForced ==> (r matches Ok(Some(ShutdownEvent::ForcedShutdown { collector_id: id, reason, timestamp_ms }))
                && id@ == collector_id@ && reason@ == "Forced shutdown requested"@ && timestamp_ms == now_ms),
            step is Pause || step is StopOperations || step is Cleanup ==> r == Ok::<Option<ShutdownEvent>, ShutdownError>(None),
            final(self).record_order() == old(self).record_order(),
            final(self).config_spec() == old(self).config_spec(),
            final(self).global_active() == old(self).global_active(),
    {
        match step {
            ShutdownStep::EnterPhase(p) => match self.update_shutdown_phase(collector_id, p, now_ms) {
                Ok(e) => Ok(Some(e)),
                Err(e) => Err(e),
            },
            ShutdownStep::Cleanup => {
                self.cleanup_collector_resources(collector_id);
                Ok(None)
            },
            ShutdownStep::AnnounceForced => Ok(Some(ShutdownCoordinator::forced_shutdown_event(collector_id, now_ms))),
            _ => Ok(None),
        }
    }

    /// The announcement that `collector_id` is being forced down.
    pub fn forced_shutdown_event(collector_id: &str, now_ms: u64) -> (e: ShutdownEvent)
        ensures
            e matches ShutdownEvent::ForcedShutdown { collector_id: id, reason, timestamp_ms }
                && id@ == collector_id@ && reason@ == "Forced shutdown requested"@ && timestamp_ms == now_ms,
    {
        ShutdownEvent::ForcedShutdown {
            collector_id: String::from_str(collector_id),
            reason: String::from_str("Forced shutdown requested"),
            timestamp_ms: now_ms,
        }
    }

    /// Whether a global shutdown is under way.
    pub fn is_global_shutdown_active(&self) -> (b: bool)
        ensures
            b == self.global_active(),
    {
        self.global_shutdown
    }

    /// Starts a global shutdown at `now_ms`: raises the global flag and returns the ids of
    /// every collector with a record, in registration order, with the announcement.
    pub fn begin_global_shutdown(&mut self, reason: &str, now_ms: u64) -> (r: (Vec<String>, ShutdownEvent))
        ensures
            final(self).global_active(),
            final(self).records() == old(self).records(),
            final(self).record_order() == old(self).record_order(),
            final(self).config_spec() == old(self).config_spec(),
            r.0@.len() == old(self).record_order().len(),
            forall|i: int| 0 <= i < r.0@.len() ==> (#[trigger] r.0@[i])@ == old(self).record_order()[i],
            r.1 matches ShutdownEvent::GlobalShutdownInitiated { reason: why, collector_count, timestamp_ms }
                && why@ == reason@ && collector_count == r.0@.len() && timestamp_ms == now_ms,
    {
        self.global_shutdown = true;
        let mut ids: Vec<String> = Vec::new();
        let mut i: usize = 0;
        while i < self.states.len()
            invariant
                i <= self.states.keys().len(),
                ids@.len() == i,
                forall|j: int| 0 <= j < i ==> (#[trigger] ids@[j])@ == self.states.keys()[j],
            decreases self.states.keys().len() - i,
        {
            ids.push(self.states.key_at(i).clone());
            i = i + 1;
        }
        let n = ids.len();
        (ids, ShutdownEvent::GlobalShutdownInitiated { reason: String::from_str(reason), collector_count: n, timestamp_ms: now_ms })
    }

    /// Lowers the global flag, on every way out of a global shutdown.
    pub fn release_global_shutdown(&mut self)
        ensures
            !final(self).global_active(),
            final(self).records() == old(self).records(),
            final(self).record_order() == old(self).record_order(),
            final(self).config_spec() == old(self).config_spec(),
    {
        self.global_shutdown = false;
    }

    /// Ends a global shutdown that produced `responses` in `duration_ms`: lowers the
    /// global flag and returns the announcement with the counts of successes and failures.
    pub fn end_global_shutdown(&mut self, responses: &Vec<ShutdownResponse>, duration_ms: u64, now_ms: u64) -> (e: ShutdownEvent)
        ensures
            !final(self).global_active(),
            final(self).records() == old(self).records(),
            final(self).record_order() == old(self).record_order(),
            final(self).config_spec() == old(self).config_spec(),
            e == (ShutdownEvent::GlobalShutdownCompleted {
                duration_ms,
                successful_shutdowns: successes_upto(responses@, responses@.len() as int) as usize,
                failed_shutdowns: (responses@.len() - successes_upto(responses@, responses@.len() as int)) as usize,
                timestamp_ms: now_ms,
            }),
    {
        let mut ok: usize = 0;
        let mut i: usize = 0;
        while i < responses.len()
            invariant
                i <= responses@.len(),
                ok == successes_upto(responses@, i as int),
                ok <= i,
            decreases responses@.len() - i,
        {
            if responses[i].success {
                ok = ok + 1;
            }
            i = i + 1;
        }
        self.global_shutdown = false;
        ShutdownEvent::GlobalShutdownCompleted {
            duration_ms,
            successful_shutdowns: ok,
            failed_shutdowns: responses.len() - ok,
            timestamp_ms: now_ms,
        }
    }

    /// The request a global shutdown sends to each collector: graceful, with the default
    /// timeout.
    pub fn global_request(collector_id: &str, reason: &str) -> (r: ShutdownRequest)
        ensures
            r.collector_id@ == collector_id@,
            r.reason@ == reason@,
            !r.force,
            r.timeout_ms is None,
    {
        ShutdownRequest { collector_id: String::from_str(collector_id), reason: String::from_str(reason), force: false, timeout_ms: None }
    }

    /// The pause between collectors of a sequential shutdown, if any.
    pub fn sequence_pause(&self) -> (r: Option<u64>)
        ensures
            self.config_spec().sequence_delay_ms == 0 ==> r is None,
            self.config_spec().sequence_delay_ms != 0 ==> r == Some(self.config_spec().sequence_delay_ms),
    {
        if self.config.sequence_delay_ms == 0 {
            None
        } else {
            Some(self.config.sequence_delay_ms)
        }
    }

    /// Whether a global shutdown runs its collectors in parallel.
    pub fn parallel_shutdown(&self) -> (b: bool)
        ensures
            b == self.config_spec().enable_parallel_shutdown,
    {
        self.config.enable_parallel_shutdown
    }

    /// The largest number of shutdowns a global shutdown runs at once.
    pub fn max_concurrent_shutdowns(&self) -> (n: usize)
        ensures
            n == self.config_spec().max_concurrent_shutdowns,
    {
        self.config.max_concurrent_shutdowns
    }
}

/// Either shutdown sequence leaves the collector `Completed`, whatever phase it started in.
pub proof fn law_shutdown_ends_completed(force: bool, start: ShutdownPhase)
    ensures
        phase_after(start, steps_spec(force)) == ShutdownPhase::Completed,
{
    let s = steps_spec(force);
    reveal_with_fuel(phase_after, 8);
    assert(s.drop_first().drop_first().drop_first().drop_first().len() == s.len() - 4);
    if !force {
        assert(s.drop_first().drop_first().drop_first().drop_first().drop_first().drop_first().drop_first().len() == 0);
    }
}

/// A graceful shutdown passes through preparing, stopping and cleanup, in this order, and
/// ends completed; a forced one is marked forced, then completed.
pub proof fn law_phase_order(force: bool)
    ensures
        force ==> steps_spec(force)[0] == ShutdownStep::EnterPhase(ShutdownPhase::Forced)
            && steps_spec(force)[3] == ShutdownStep::EnterPhase(ShutdownPhase::Completed),
        !force ==> steps_spec(force)[0] == ShutdownStep::EnterPhase(ShutdownPhase::Preparing)
            && steps_spec(force)[2] == ShutdownStep::EnterPhase(ShutdownPhase::Stopping)
            && steps_spec(force)[4] == ShutdownStep::EnterPhase(ShutdownPhase::Cleanup)
            && steps_spec(force)[6] == ShutdownStep::EnterPhase(ShutdownPhase::Completed),
{
}

/// A global shutdown counts every response once: successes and failures add up to the
/// number of responses.
pub proof fn law_global_counts(responses: Seq<ShutdownResponse>)
    ensures
        0 <= successes_upto(responses, responses.len() as int) <= responses.len(),
        successes_upto(responses, responses.len() as int) + (responses.len() - successes_upto(responses, responses.len() as int)) == responses.len(),
{
    lemma_successes_bounded(responses, responses.len() as int);
}

/// Once a collector's shutdown has begun (its record exists), the steps never lose the
/// record: every step can be taken, and the record ends in `phase_after` its phase.
proof fn lemma_run_keeps_record(
    recs: Map<Seq<char>, CollectorShutdownState>,
    id: Seq<char>,
    steps: Seq<ShutdownStep>,
    times: Seq<u64>,
)
    requires
        recs.contains_key(id),
    ensures
        run_succeeds(recs, id, steps, times),
        records_after(recs, id, steps, times).contains_key(id),
        records_after(recs, id, steps, times)[id].phase == phase_after(recs[id].phase, steps),
    decreases steps.len(),
{
    if steps.len() > 0 {
        let next = step_effect(recs, id, steps[0], times[0]);
        lemma_run_keeps_record(next, id, steps.drop_first(), times.drop_first());
        let p = match steps[0] {
            ShutdownStep::EnterPhase(p) => p,
            _ => recs[id].phase,
        };
        assert(next[id].phase == p);
    }
}

/// A shutdown that has begun always succeeds: every step of the graceful or forced
/// sequence can be taken, whatever the times they are taken at, so the run ends without
/// error; the stored phase ends `Completed`; and the closing response is successful, has no
/// error message, and reports that stored phase.
pub proof fn law_shutdown_run_succeeds(
    recs: Map<Seq<char>, CollectorShutdownState>,
    id: Seq<char>,
    force: bool,
    times: Seq<u64>,
    resp: ShutdownResponse,
)
    requires
        recs.contains_key(id),
        finished_response(
            records_after(recs, id, steps_spec(force), times),
            id,
            run_succeeds(recs, id, steps_spec(force), times),
            resp,
        ),
    ensures
        run_succeeds(recs, id, steps_spec(force), times),
        records_after(recs, id, steps_spec(force), times)[id].phase == ShutdownPhase::Completed,
        resp.success,
        resp.error_message is None,
        resp.final_phase == records_after(recs, id, steps_spec(force), times)[id].phase,
        resp.final_phase == ShutdownPhase::Completed,
{
    lemma_run_keeps_record(recs, id, steps_spec(force), times);
    law_shutdown_ends_completed(force, recs[id].phase);
}

} // verus!
