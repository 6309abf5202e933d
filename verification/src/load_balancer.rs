//! Load balancing and failover for multi-collector coordination.
//!
//! A collector is chosen among the healthy collectors that have the required
//! capabilities, by round robin, least connections, weighted score or at random.
//! Consecutive failures past a threshold call for failover, which hands the failed
//! collector's tasks to another collector. Times are Unix seconds; weights are integers.

use crate::source::SourceCaps;
use rand::Rng;
use crate::strmap::StrMap;
use crate::support::new_uuid_string;
use crate::text::str_eq;
use crate::trigger_queue::sat_inc;
use vstd::prelude::*;

verus! {

/// Load balancing strategy.
#[derive(Debug, Clone, Copy, PartialEq, Eq, Structural)]
pub enum LoadBalancingStrategy {
    /// Round-robin distribution
    RoundRobin,
    /// Least connections (least loaded)
    LeastConnections,
    /// Weighted round-robin based on capacity
    WeightedRoundRobin,
    /// Random selection
    Random,
}

/// Load balancer configuration.
#[derive(Debug, Clone, Copy, PartialEq, Eq)]
pub struct LoadBalancerConfig {
    /// Load balancing strategy
    pub strategy: LoadBalancingStrategy,
    /// Health check interval (seconds)
    pub health_check_interval_secs: u64,
    /// Failover threshold (consecutive failures)
    pub failover_threshold: u32,
    /// Recovery check interval (seconds)
    pub recovery_check_interval_secs: u64,
    /// Maximum tasks per collector
    pub max_tasks_per_collector: usize,
}

impl Default for LoadBalancerConfig {
    fn default() -> (c: LoadBalancerConfig)
        ensures
            c.strategy == LoadBalancingStrategy::LeastConnections,
            c.health_check_interval_secs == 10,
            c.failover_threshold == 3,
            c.recovery_check_interval_secs == 30,
            c.max_tasks_per_collector == 100,
    {
        LoadBalancerConfig {
            strategy: LoadBalancingStrategy::LeastConnections,
            health_check_interval_secs: 10,
            failover_threshold: 3,
            recovery_check_interval_secs: 30,
            max_tasks_per_collector: 100,
        }
    }
}

/// Health of a collector as the capability registry reports it.
#[derive(Debug, Clone, Copy, PartialEq, Eq, Structural)]
pub enum CollectorHealthStatus {
    /// Working normally
    Healthy,
    /// Working with reduced capacity
    Degraded,
    /// Not working
    Unhealthy,
}

/// What the capability registry knows of a collector.
#[derive(Debug)]
pub struct CollectorCapability {
    /// Collector identifier
    pub collector_id: String,
    /// Collector type
    pub collector_type: String,
    /// Capabilities
    pub capabilities: SourceCaps,
    /// Topic patterns served
    pub topic_patterns: Vec<String>,
    /// Health
    pub health_status: CollectorHealthStatus,
    /// Last heartbeat (Unix seconds)
    pub last_heartbeat: u64,
    /// Free-form metadata
    pub metadata: StrMap<String>,
}

/// Collector load information.
#[derive(Debug, Clone, Copy, PartialEq, Eq)]
pub struct CollectorLoad {
    /// Current task count
    pub current_tasks: usize,
    /// Total tasks processed
    pub total_tasks: u64,
    /// Consecutive failures
    pub consecutive_failures: u32,
    /// Last health check (Unix seconds)
    pub last_health_check: u64,
    /// Collector weight (for weighted strategies)
    pub weight: u64,
}

/// Failover event record.
#[derive(Debug)]
pub struct FailoverEvent {
    /// Event identifier
    pub event_id: String,
    /// Failed collector ID
    pub failed_collector_id: String,
    /// Failover collector ID
    pub failover_collector_id: String,
    /// Failover timestamp (Unix seconds)
    pub timestamp: u64,
    /// Reason for failover
    pub reason: String,
    /// Tasks redistributed
    pub tasks_redistributed: usize,
}

/// Load balancing statistics.
#[derive(Debug, Clone, Copy, PartialEq, Eq)]
pub struct LoadBalancingStats {
    /// Total tasks distributed
    pub total_tasks_distributed: u64,
    /// Total failover events
    pub total_failovers: u64,
    /// Total tasks redistributed
    pub total_tasks_redistributed: u64,
    /// Sum of the current loads of the registered collectors (their average is this
    /// divided by `collector_count`)
    pub total_load: u64,
    /// Number of registered collectors
    pub collector_count: usize,
    /// Maximum load on any collector
    pub max_load: usize,
}

/// Why no collector could be chosen.
#[derive(Debug, Clone, PartialEq, Eq)]
pub enum LoadBalancerError {
    /// No collectors were offered
    NoCollectors,
    /// None of the offered collectors is healthy with the required capabilities
    NoHealthyCollectors,
    /// Every offered collector is the failed one
    NoFailoverCandidates,
}

impl LoadBalancerError {
    /// A human-readable description.
    pub fn to_string(&self) -> (s: String)
        ensures
            self is NoCollectors ==> s@ == "No collectors available"@,
            self is NoHealthyCollectors ==> s@ == "No healthy collectors available"@,
            self is NoFailoverCandidates ==> s@ == "No available collectors for failover (all collectors filtered out)"@,
    {
        match self {
            LoadBalancerError::NoCollectors => String::from_str("No collectors available"),
            LoadBalancerError::NoHealthyCollectors => String::from_str("No healthy collectors available"),
            LoadBalancerError::NoFailoverCandidates => String::from_str(
                "No available collectors for failover (all collectors filtered out)",
            ),
        }
    }
}

/// Whether a collector can take a task needing `required`: healthy, with those
/// capabilities.
pub open spec fn eligible(c: CollectorCapability, required: SourceCaps) -> bool {
    c.health_status == CollectorHealthStatus::Healthy && c.capabilities.bits & required.bits
        == required.bits
}

/// The positions of the eligible collectors among the first `n` of `cs`.
pub open spec fn eligible_upto(cs: Seq<CollectorCapability>, required: SourceCaps, n: nat) -> Seq<int>
    decreases n,
{
    if n == 0 {
        Seq::empty()
    } else {
        let r = eligible_upto(cs, required, (n - 1) as nat);
        if eligible(cs[n - 1], required) {
            r.push(n - 1)
        } else {
            r
        }
    }
}

/// The positions of the eligible collectors of `cs`, in order.
pub open spec fn eligible_positions(cs: Seq<CollectorCapability>, required: SourceCaps) -> Seq<int> {
    eligible_upto(cs, required, cs.len())
}

/// The tracked load of `id` (0 for an untracked collector).
pub open spec fn load_of(loads: Map<Seq<char>, CollectorLoad>, id: Seq<char>) -> nat {
    if loads.contains_key(id) {
        loads[id].current_tasks as nat
    } else {
        0
    }
}

/// The tracked weight of `id` (1 for an untracked collector).
pub open spec fn weight_of(loads: Map<Seq<char>, CollectorLoad>, id: Seq<char>) -> nat {
    if loads.contains_key(id) {
        loads[id].weight as nat
    } else {
        1
    }
}

/// Whether the score `weight / (load + 1)` of `a` exceeds that of `b`.
pub open spec fn scores_higher(loads: Map<Seq<char>, CollectorLoad>, a: Seq<char>, b: Seq<char>) -> bool {
    weight_of(loads, a) * (load_of(loads, b) + 1) > weight_of(loads, b) * (load_of(loads, a) + 1)
}

/// The load balancer's state.
#[derive(Debug)]
pub struct LoadBalancer {
    config: LoadBalancerConfig,
    loads: StrMap<CollectorLoad>,
    round_robin_counter: usize,
    failover_events: Vec<FailoverEvent>,
    stats: LoadBalancingStats,
}

/// A random index below `n`.
///
/// Trusted: calls `rand::Rng::random_range` on `rand::rng()` with the range `0..n`, which
/// panics only for an empty range (excluded by `requires`). Only the range of the result
/// is claimed: it is random.
#[verifier::external_body]
fn random_index(n: usize) -> (r: usize)
    requires
        n > 0,
    ensures
        r < n,
{
    rand::rng().random_range(0..n)
}

impl LoadBalancer {
    /// The configuration.
    pub closed spec fn config(&self) -> LoadBalancerConfig {
        self.config
    }

    /// The tracked load of each registered collector.
    pub closed spec fn loads(&self) -> Map<Seq<char>, CollectorLoad> {
        self.loads@
    }

    /// The round-robin counter.
    pub closed spec fn counter(&self) -> usize {
        self.round_robin_counter
    }

    /// The failover events, oldest first.
    pub closed spec fn events(&self) -> Seq<FailoverEvent> {
        self.failover_events@
    }

    /// The running counters (the load figures are computed on request).
    pub closed spec fn counters(&self) -> (u64, u64, u64) {
        (self.stats.total_tasks_distributed, self.stats.total_failovers, self.stats.total_tasks_redistributed)
    }

    /// A load balancer with no collectors.
    pub fn new(config: LoadBalancerConfig) -> (b: Self)
        ensures
            b.config() == config,
            b.loads() == Map::<Seq<char>, CollectorLoad>::empty(),
            b.counter() == 0,
            b.events().len() == 0,
            b.counters() == (0u64, 0u64, 0u64),
    {
        LoadBalancer {
            config,
            loads: StrMap::new(),
            round_robin_counter: 0,
            failover_events: Vec::new(),
            stats: LoadBalancingStats {
                total_tasks_distributed: 0,
                total_failovers: 0,
                total_tasks_redistributed: 0,
                total_load: 0,
                collector_count: 0,
                max_load: 0,
            },
        }
    }

    /// Registers a collector at `now` with no load (replacing an earlier registration).
    pub fn register_collector_at(&mut self, collector_id: String, weight: u64, now: u64)
        ensures
            final(self).loads() == old(self).loads().insert(
                collector_id@,
                CollectorLoad {
                    current_tasks: 0,
                    total_tasks: 0,
                    consecutive_failures: 0,
                    last_health_check: now,
                    weight,
                },
            ),
            final(self).config() == old(self).config(),
            final(self).counter() == old(self).counter(),
            final(self).events() == old(self).events(),
            final(self).counters() == old(self).counters(),
    {
        let load = CollectorLoad {
            current_tasks: 0,
            total_tasks: 0,
            consecutive_failures: 0,
            last_health_check: now,
            weight,
        };
        self.loads.insert(collector_id, load);
    }

    /// Deregisters a collector.
    pub fn deregister_collector(&mut self, collector_id: &str)
        ensures
            final(self).loads() == old(self).loads().remove(collector_id@),
            final(self).config() == old(self).config(),
            final(self).counter() == old(self).counter(),
            final(self).events() == old(self).events(),
            final(self).counters() == old(self).counters(),
    {
        self.loads.remove(collector_id);
    }

    /// Chooses a collector for a task needing `required` among `available` and counts the
    /// task against it. Only healthy collectors with the required capabilities are
    /// considered, taken in the order given: round robin takes the next in turn, least
    /// connections the first with the fewest current tasks, weighted the first with the
    /// highest `weight / (tasks + 1)`, random any of them.
    pub fn select_collector(&mut self, required: SourceCaps, available: &Vec<CollectorCapability>) -> (r:
        Result<String, LoadBalancerError>)
        ensures
            available@.len() == 0 ==> r == Err::<String, LoadBalancerError>(LoadBalancerError::NoCollectors),
            available@.len() > 0 && eligible_positions(available@, required).len() == 0 ==> r
                == Err::<String, LoadBalancerError>(LoadBalancerError::NoHealthyCollectors),
            r is Err ==> *final(self) == *old(self),
            r matches Ok(id) ==> selection_outcome(*old(self), *final(self), required, available@, id@),
            eligible_positions(available@, required).len() > 0 ==> r is Ok,
    {
        if available.len() == 0 {
            return Err(LoadBalancerError::NoCollectors);
        }
        let healthy = self.eligible_indices(required, available);
        if healthy.len() == 0 {
            return Err(LoadBalancerError::NoHealthyCollectors);
        }
        let ghost pos = eligible_positions(available@, required);
        let n = healthy.len();
        let k: usize = match self.config.strategy {
            LoadBalancingStrategy::RoundRobin => {
                let k = self.round_robin_counter % n;
                self.round_robin_counter = (self.round_robin_counter % n + 1) % n;
                k
            },
            LoadBalancingStrategy::LeastConnections => self.least_loaded(available, &healthy),
            LoadBalancingStrategy::WeightedRoundRobin => self.best_weighted(available, &healthy),
            LoadBalancingStrategy::Random => random_index(n),
        };
        let selected = available[healthy[k]].collector_id.clone();
        let ghost mid = *self;
        self.increment_task_count(selected.as_str());
        proof {
            assert(healthy@[k as int] as int == pos[k as int]);
            assert(available@[pos[k as int]].collector_id@ == selected@);
            assert(mid.loads() == old(self).loads());
            if self.config.strategy == LoadBalancingStrategy::LeastConnections {
                assert forall|j: int| 0 <= j < n implies load_of(old(self).loads(), selected@) <= load_of(old(self).loads(), (#[trigger] available@[pos[j]]).collector_id@) by {
                    assert(healthy@[j] as int == pos[j]);
                }
                assert forall|j: int| 0 <= j < k implies load_of(old(self).loads(), selected@) < load_of(old(self).loads(), (#[trigger] available@[pos[j]]).collector_id@) by {
                    assert(healthy@[j] as int == pos[j]);
                }
            }
            if self.config.strategy == LoadBalancingStrategy::WeightedRoundRobin {
                assert forall|j: int| 0 <= j < n implies !scores_higher(old(self).loads(), (#[trigger] available@[pos[j]]).collector_id@, selected@) by {
                    assert(healthy@[j] as int == pos[j]);
                }
                assert forall|j: int| 0 <= j < k implies scores_higher(old(self).loads(), selected@, (#[trigger] available@[pos[j]]).collector_id@) by {
                    assert(healthy@[j] as int == pos[j]);
                }
            }
            assert(selection_outcome(*old(self), *self, required, available@, selected@));
        }
        Ok(selected)
    }

    fn eligible_indices(&self, required: SourceCaps, available: &Vec<CollectorCapability>) -> (v: Vec<usize>)
        ensures
            v@.len() == eligible_positions(available@, required).len(),
            forall|j: int| 0 <= j < v@.len() ==> #[trigger] v@[j] as int == eligible_positions(available@, required)[j],
            forall|j: int| 0 <= j < v@.len() ==> #[trigger] v@[j] < available@.len(),
    {
        let mut v: Vec<usize> = Vec::new();
        let mut i: usize = 0;
        while i < available.len()
            invariant
                i <= available@.len(),
                v@.len() == eligible_upto(available@, required, i as nat).len(),
                forall|j: int| 0 <= j < v@.len() ==> #[trigger] v@[j] as int == eligible_upto(available@, required, i as nat)[j],
                forall|j: int| 0 <= j < v@.len() ==> #[trigger] v@[j] < i,
            decreases available@.len() - i,
        {
            let c = &available[i];
            if c.health_status == CollectorHealthStatus::Healthy && c.capabilities.contains(required) {
                v.push(i);
            }
            i = i + 1;
        }
        v
    }

    fn current_load(&self, id: &str) -> (n: usize)
        ensures
            n == load_of(self.loads(), id@),
    {
        match self.loads.get(id) {
            Some(l) => l.current_tasks,
            None => 0,
        }
    }

    fn weight(&self, id: &str) -> (w: u64)
        ensures
            w == weight_of(self.loads(), id@),
    {
        match self.loads.get(id) {
            Some(l) => l.weight,
            None => 1,
        }
    }

    fn least_loaded(&self, available: &Vec<CollectorCapability>, healthy: &Vec<usize>) -> (k: usize)
        requires
            healthy@.len() > 0,
            forall|j: int| 0 <= j < healthy@.len() ==> #[trigger] healthy@[j] < available@.len(),
        ensures
            k < healthy@.len(),
            forall|j: int|
                0 <= j < healthy@.len() ==> load_of(self.loads(), available@[healthy@[k as int] as int].collector_id@)
                    <= load_of(self.loads(), (#[trigger] available@[healthy@[j] as int]).collector_id@),
            forall|j: int|
                0 <= j < k ==> load_of(self.loads(), available@[healthy@[k as int] as int].collector_id@)
                    < load_of(self.loads(), (#[trigger] available@[healthy@[j] as int]).collector_id@),
    {
        let mut best: usize = 0;
        let mut best_load = self.current_load(available[healthy[0]].collector_id.as_str());
        let mut j: usize = 1;
        while j < healthy.len()
            invariant
                healthy@.len() > 0,
                forall|q: int| 0 <= q < healthy@.len() ==> #[trigger] healthy@[q] < available@.len(),
                1 <= j <= healthy@.len(),
                best < j,
                best_load == load_of(self.loads(), available@[healthy@[best as int] as int].collector_id@),
                forall|q: int| 0 <= q < j ==> best_load <= load_of(self.loads(), (#[trigger] available@[healthy@[q] as int]).collector_id@),
                forall|q: int| 0 <= q < best ==> best_load < load_of(self.loads(), (#[trigger] available@[healthy@[q] as int]).collector_id@),
            decreases healthy@.len() - j,
        {
            let l = self.current_load(available[healthy[j]].collector_id.as_str());
            if l < best_load {
                best = j;
                best_load = l;
            }
            j = j + 1;
        }
        best
    }

    fn best_weighted(&self, available: &Vec<CollectorCapability>, healthy: &Vec<usize>) -> (k: usize)
        requires
            healthy@.len() > 0,
            forall|j: int| 0 <= j < healthy@.len() ==> #[trigger] healthy@[j] < available@.len(),
        ensures
            k < healthy@.len(),
            forall|j: int|
                0 <= j < healthy@.len() ==> !scores_higher(
                    self.loads(),
                    (#[trigger] available@[healthy@[j] as int]).collector_id@,
                    available@[healthy@[k as int] as int].collector_id@,
                ),
            forall|j: int|
                0 <= j < k ==> scores_higher(
                    self.loads(),
                    available@[healthy@[k as int] as int].collector_id@,
                    (#[trigger] available@[healthy@[j] as int]).collector_id@,
                ),
    {
        let mut best: usize = 0;
        let mut best_w = self.weight(available[healthy[0]].collector_id.as_str());
        let mut best_l = self.current_load(available[healthy[0]].collector_id.as_str());
        let mut j: usize = 1;
        while j < healthy.len()
            invariant
                healthy@.len() > 0,
                forall|q: int| 0 <= q < healthy@.len() ==> #[trigger] healthy@[q] < available@.len(),
                1 <= j <= healthy@.len(),
                best < j,
                best_w == weight_of(self.loads(), available@[healthy@[best as int] as int].collector_id@),
                best_l == load_of(self.loads(), available@[healthy@[best as int] as int].collector_id@),
                forall|q: int| 0 <= q < j ==> !scores_higher(
                    self.loads(),
                    (#[trigger] available@[healthy@[q] as int]).collector_id@,
                    available@[healthy@[best as int] as int].collector_id@,
                ),
                forall|q: int| 0 <= q < best ==> scores_higher(
                    self.loads(),
                    available@[healthy@[best as int] as int].collector_id@,
                    (#[trigger] available@[healthy@[q] as int]).collector_id@,
                ),
            decreases healthy@.len() - j,
        {
            let id = available[healthy[j]].collector_id.as_str();
            let w = self.weight(id);
            let l = self.current_load(id);
            assert((w as u128) * ((best_l as u128) + 1) <= 0xffff_ffff_ffff_ffff * 0x1_0000_0000_0000_0000) by (nonlinear_arith)
                requires w <= 0xffff_ffff_ffff_ffffu64, best_l <= 0xffff_ffff_ffff_ffffu64;
            assert((best_w as u128) * ((l as u128) + 1) <= 0xffff_ffff_ffff_ffff * 0x1_0000_0000_0000_0000) by (nonlinear_arith)
                requires best_w <= 0xffff_ffff_ffff_ffffu64, l <= 0xffff_ffff_ffff_ffffu64;
            let lhs = (w as u128) * ((best_l as u128) + 1);
            let rhs = (best_w as u128) * ((l as u128) + 1);
            if lhs > rhs {
                proof {
                    let nb = available@[healthy@[j as int] as int].collector_id@;
                    let ob = available@[healthy@[best as int] as int].collector_id@;
                    assert forall|q: int| 0 <= q < j + 1 implies !scores_higher(
                        self.loads(),
                        (#[trigger] available@[healthy@[q] as int]).collector_id@,
                        nb,
                    ) && (q < j ==> scores_higher(self.loads(), nb, available@[healthy@[q] as int].collector_id@)) by {
                        let c = available@[healthy@[q] as int].collector_id@;
                        if q < j {
                            assert(!scores_higher(self.loads(), c, ob));
                            lemma_score_transitive(
                                weight_of(self.loads(), c),
                                load_of(self.loads(), c),
                                weight_of(self.loads(), ob),
                                load_of(self.loads(), ob),
                                weight_of(self.loads(), nb),
                                load_of(self.loads(), nb),
                            );
                        }
                    }
                }
                best = j;
                best_w = w;
                best_l = l;
            }
            j = j + 1;
        }
        best
    }

    fn increment_task_count(&mut self, collector_id: &str)
        ensures
            final(self).loads() == if old(self).loads().contains_key(collector_id@) {
                old(self).loads().insert(
                    collector_id@,
                    CollectorLoad {
                        current_tasks: sat_inc_usize(old(self).loads()[collector_id@].current_tasks),
                        total_tasks: sat_inc(old(self).loads()[collector_id@].total_tasks),
                        ..old(self).loads()[collector_id@]
                    },
                )
            } else {
                old(self).loads()
            },
            final(self).counters() == (sat_inc(old(self).counters().0), old(self).counters().1, old(self).counters().2),
            final(self).config() == old(self).config(),
            final(self).counter() == old(self).counter(),
            final(self).events() == old(self).events(),
    {
        match self.loads.find(collector_id) {
            Some(i) => {
                let mut l = *self.loads.value_at(i);
                l.current_tasks = l.current_tasks.saturating_add(1);
                l.total_tasks = l.total_tasks.saturating_add(1);
                self.loads.replace_value(i, l);
            },
            None => {},
        }
        self.stats.total_tasks_distributed = self.stats.total_tasks_distributed.saturating_add(1);
    }

    /// Counts one task of `collector_id` as finished.
    pub fn decrement_task_count(&mut self, collector_id: &str)
        ensures
            final(self).loads() == if old(self).loads().contains_key(collector_id@) {
                old(self).loads().insert(
                    collector_id@,
                    CollectorLoad {
                        current_tasks: if old(self).loads()[collector_id@].current_tasks > 0 {
                            (old(self).loads()[collector_id@].current_tasks - 1) as usize
                        } else {
                            0
                        },
                        ..old(self).loads()[collector_id@]
                    },
                )
            } else {
                old(self).loads()
            },
            final(self).counters() == old(self).counters(),
            final(self).config() == old(self).config(),
            final(self).counter() == old(self).counter(),
            final(self).events() == old(self).events(),
    {
        match self.loads.find(collector_id) {
            Some(i) => {
                let mut l = *self.loads.value_at(i);
                l.current_tasks = l.current_tasks.saturating_sub(1);
                self.loads.replace_value(i, l);
            },
            None => {},
        }
    }

    /// Counts a failure of `collector_id`; returns whether its consecutive failures have
    /// reached the failover threshold (always `false` for an unknown collector).
    pub fn record_failure(&mut self, collector_id: &str) -> (failover: bool)
        ensures
            final(self).loads() == if old(self).loads().contains_key(collector_id@) {
                old(self).loads().insert(
                    collector_id@,
                    CollectorLoad {
                        consecutive_failures: sat_inc_u32(old(self).loads()[collector_id@].consecutive_failures),
                        ..old(self).loads()[collector_id@]
                    },
                )
            } else {
                old(self).loads()
            },
            failover == (old(self).loads().contains_key(collector_id@) && sat_inc_u32(
                old(self).loads()[collector_id@].consecutive_failures,
            ) >= old(self).config().failover_threshold),
            final(self).counters() == old(self).counters(),
            final(self).config() == old(self).config(),
            final(self).counter() == old(self).counter(),
            final(self).events() == old(self).events(),
    {
        match self.loads.find(collector_id) {
            Some(i) => {
                let mut l = *self.loads.value_at(i);
                l.consecutive_failures = l.consecutive_failures.saturating_add(1);
                let reached = l.consecutive_failures >= self.config.failover_threshold;
                self.loads.replace_value(i, l);
                reached
            },
            None => false,
        }
    }

    /// Counts a success of `collector_id` at `now`: its failures are forgiven and its
    /// health check time is `now`.
    pub fn record_success_at(&mut self, collector_id: &str, now: u64)
        ensures
            final(self).loads() == if old(self).loads().contains_key(collector_id@) {
                old(self).loads().insert(
                    collector_id@,
                    CollectorLoad {
                        consecutive_failures: 0,
                        last_health_check: now,
                        ..old(self).loads()[collector_id@]
                    },
                )
            } else {
                old(self).loads()
            },
            final(self).counters() == old(self).counters(),
            final(self).config() == old(self).config(),
            final(self).counter() == old(self).counter(),
            final(self).events() == old(self).events(),
    {
        match self.loads.find(collector_id) {
            Some(i) => {
                let mut l = *self.loads.value_at(i);
                l.consecutive_failures = 0;
                l.last_health_check = now;
                self.loads.replace_value(i, l);
            },
            None => {},
        }
    }

    /// The current and total task counts of a collector.
    pub fn get_collector_load(&self, collector_id: &str) -> (r: Option<(usize, u64)>)
        ensures
            r is Some <==> self.loads().contains_key(collector_id@),
            r matches Some(p) ==> p == (self.loads()[collector_id@].current_tasks, self.loads()[collector_id@].total_tasks),
    {
        match self.loads.get(collector_id) {
            Some(l) => Some((l.current_tasks, l.total_tasks)),
            None => None,
        }
    }
}

/// `x + 1`, saturating at the largest `usize`.
pub open spec fn sat_inc_usize(x: usize) -> usize {
    if x < usize::MAX {
        (x + 1) as usize
    } else {
        x
    }
}

/// `x + 1`, saturating at the largest `u32`.
pub open spec fn sat_inc_u32(x: u32) -> u32 {
    if x < u32::MAX {
        (x + 1) as u32
    } else {
        x
    }
}

/// If `a` does not score higher than `b` and `c` scores higher than `b`, then `c` scores
/// higher than `a` (scores `w / (l + 1)` compared by cross-multiplication).
proof fn lemma_score_transitive(wa: nat, la: nat, wb: nat, lb: nat, wc: nat, lc: nat)
    requires
        !(wa * (lb + 1) > wb * (la + 1)),
        wc * (lb + 1) > wb * (lc + 1),
    ensures
        wc * (la + 1) > wa * (lc + 1),
{
    assert(wa * (lb + 1) * (lc + 1) <= wb * (la + 1) * (lc + 1)) by (nonlinear_arith)
        requires
            wa * (lb + 1) <= wb * (la + 1),
    ;
    assert(wb * (lc + 1) * (la + 1) < wc * (lb + 1) * (la + 1)) by (nonlinear_arith)
        requires
            wb * (lc + 1) < wc * (lb + 1),
    ;
    assert(wa * (lc + 1) * (lb + 1) < wc * (la + 1) * (lb + 1)) by (nonlinear_arith)
        requires
            wa * (lb + 1) * (lc + 1) <= wb * (la + 1) * (lc + 1),
            wb * (lc + 1) * (la + 1) < wc * (lb + 1) * (la + 1),
    ;
    assert(wa * (lc + 1) < wc * (la + 1)) by (nonlinear_arith)
        requires
            wa * (lc + 1) * (lb + 1) < wc * (la + 1) * (lb + 1),
    ;
}

/// Whether `new` is `old` after choosing `id` for a task needing `required` among
/// `available`.
pub open spec fn selection_outcome(
    old: LoadBalancer,
    new: LoadBalancer,
    required: SourceCaps,
    available: Seq<CollectorCapability>,
    id: Seq<char>,
) -> bool {
    let n = eligible_positions(available, required).len();
    &&& chosen_by(old, required, available, id)
    &&& old.config().strategy == LoadBalancingStrategy::RoundRobin ==> new.counter() as int == ((
    old.counter() as int) % (n as int) + 1) % (n as int)
    &&& old.config().strategy != LoadBalancingStrategy::RoundRobin ==> new.counter() == old.counter()
    &&& new.loads() == counted(old.loads(), id)
    &&& new.counters() == (sat_inc(old.counters().0), old.counters().1, old.counters().2)
    &&& new.config() == old.config()
    &&& new.events() == old.events()
}

/// Whether the balancer `lb` picks `id` among `available` for a task needing `required`: it
/// is one of the healthy collectors with those capabilities, taken in the order given, and
/// round robin takes the next in turn, least connections the first with the fewest current
/// tasks, weighted the first with the highest `weight / (tasks + 1)`, random any of them.
pub open spec fn chosen_by(
    lb: LoadBalancer,
    required: SourceCaps,
    available: Seq<CollectorCapability>,
    id: Seq<char>,
) -> bool {
    let pos = eligible_positions(available, required);
    let n = pos.len();
    &&& n > 0
    &&& exists|k: int| 0 <= k < n && #[trigger] available[pos[k]].collector_id@ == id && match lb.config().strategy {
        LoadBalancingStrategy::RoundRobin => k == (lb.counter() as int) % (n as int),
        LoadBalancingStrategy::LeastConnections => (forall|j: int| 0 <= j < n ==> load_of(lb.loads(), id) <= load_of(lb.loads(), (#[trigger] available[pos[j]]).collector_id@))
            && (forall|j: int| 0 <= j < k ==> load_of(lb.loads(), id) < load_of(lb.loads(), (#[trigger] available[pos[j]]).collector_id@)),
        LoadBalancingStrategy::WeightedRoundRobin => (forall|j: int| 0 <= j < n ==> !scores_higher(lb.loads(), (#[trigger] available[pos[j]]).collector_id@, id))
            && (forall|j: int| 0 <= j < k ==> scores_higher(lb.loads(), id, (#[trigger] available[pos[j]]).collector_id@)),
        LoadBalancingStrategy::Random => true,
    }
}

/// The loads after one more task is counted against `id`: its current and total tasks grow
/// by one (saturating) when it is registered.
pub open spec fn counted(loads: Map<Seq<char>, CollectorLoad>, id: Seq<char>) -> Map<Seq<char>, CollectorLoad> {
    if loads.contains_key(id) {
        loads.insert(
            id,
            CollectorLoad {
                current_tasks: sat_inc_usize(loads[id].current_tasks),
                total_tasks: sat_inc(loads[id].total_tasks),
                ..loads[id]
            },
        )
    } else {
        loads
    }
}

/// The loads after the tasks of `id` were handed away: its current tasks drop to zero when it
/// is registered.
pub open spec fn drained(loads: Map<Seq<char>, CollectorLoad>, id: Seq<char>) -> Map<Seq<char>, CollectorLoad> {
    if loads.contains_key(id) {
        loads.insert(id, CollectorLoad { current_tasks: 0, ..loads[id] })
    } else {
        loads
    }
}

/// Whether `b` is a copy of `a`.
pub open spec fn same_capability(a: CollectorCapability, b: CollectorCapability) -> bool {
    &&& a.collector_id == b.collector_id
    &&& a.collector_type == b.collector_type
    &&& a.capabilities == b.capabilities
    &&& a.topic_patterns@ == b.topic_patterns@
    &&& a.health_status == b.health_status
    &&& a.last_heartbeat == b.last_heartbeat
    &&& a.metadata@ == b.metadata@
}

fn copy_strings(v: &Vec<String>) -> (r: Vec<String>)
    ensures
        r@ == v@,
{
    let mut r: Vec<String> = Vec::new();
    let mut i: usize = 0;
    while i < v.len()
        invariant
            i <= v@.len(),
            r@ == v@.take(i as int),
        decreases v@.len() - i,
    {
        r.push(v[i].clone());
        i = i + 1;
        assert(r@ =~= v@.take(i as int));
    }
    assert(r@ =~= v@);
    r
}

impl CollectorCapability {
    /// A copy of this record.
    pub fn duplicate(&self) -> (r: CollectorCapability)
        ensures
            same_capability(r, *self),
    {
        CollectorCapability {
            collector_id: self.collector_id.clone(),
            collector_type: self.collector_type.clone(),
            capabilities: self.capabilities,
            topic_patterns: copy_strings(&self.topic_patterns),
            health_status: self.health_status,
            last_heartbeat: self.last_heartbeat,
            metadata: self.metadata.duplicate(),
        }
    }
}

/// Whether `b` is a copy of `a`.
pub open spec fn same_event(a: FailoverEvent, b: FailoverEvent) -> bool {
    &&& a.event_id == b.event_id
    &&& a.failed_collector_id == b.failed_collector_id
    &&& a.failover_collector_id == b.failover_collector_id
    &&& a.timestamp == b.timestamp
    &&& a.reason == b.reason
    &&& a.tasks_redistributed == b.tasks_redistributed
}

impl FailoverEvent {
    /// A copy of this event.
    pub fn duplicate(&self) -> (r: FailoverEvent)
        ensures
            same_event(r, *self),
    {
        FailoverEvent {
            event_id: self.event_id.clone(),
            failed_collector_id: self.failed_collector_id.clone(),
            failover_collector_id: self.failover_collector_id.clone(),
            timestamp: self.timestamp,
            reason: self.reason.clone(),
            tasks_redistributed: self.tasks_redistributed,
        }
    }
}

/// The collectors of `cs` other than `failed`, in order.
pub open spec fn without_upto(cs: Seq<CollectorCapability>, failed: Seq<char>, n: nat) -> Seq<CollectorCapability>
    decreases n,
{
    if n == 0 {
        Seq::empty()
    } else {
        let r = without_upto(cs, failed, (n - 1) as nat);
        if cs[n - 1].collector_id@ != failed {
            r.push(cs[n - 1])
        } else {
            r
        }
    }
}

/// No collector kept by `without_upto` is the failed one.
proof fn lemma_without(cs: Seq<CollectorCapability>, failed: Seq<char>, n: nat)
    requires
        n <= cs.len(),
    ensures
        forall|i: int| 0 <= i < without_upto(cs, failed, n).len() ==> (#[trigger] without_upto(cs, failed, n)[i]).collector_id@ != failed,
    decreases n,
{
    if n > 0 {
        lemma_without(cs, failed, (n - 1) as nat);
    }
}

/// The sum of the current loads of the first `n` collectors of `m`.
pub open spec fn load_sum_upto(m: StrMap<CollectorLoad>, n: nat) -> int
    decreases n,
{
    if n == 0 {
        0
    } else {
        load_sum_upto(m, (n - 1) as nat) + m.value_at_spec(n - 1).current_tasks
    }
}

/// The largest current load among the first `n` collectors of `m` (0 for none).
pub open spec fn load_max_upto(m: StrMap<CollectorLoad>, n: nat) -> int
    decreases n,
{
    if n == 0 {
        0
    } else {
        let r = load_max_upto(m, (n - 1) as nat);
        if m.value_at_spec(n - 1).current_tasks > r {
            m.value_at_spec(n - 1).current_tasks as int
        } else {
            r
        }
    }
}

impl LoadBalancer {
    /// The registered collectors with their loads, in registration order.
    pub closed spec fn load_table(&self) -> StrMap<CollectorLoad> {
        self.loads
    }

    /// Hands the tasks of a failed collector to another collector chosen as
    /// `select_collector` would among `available` without the failed one, at `now`. The
    /// failed collector's load is reset, and the event is recorded and returned.
    pub fn trigger_failover_at(
        &mut self,
        failed_collector_id: &str,
        available: &Vec<CollectorCapability>,
        required: SourceCaps,
        now: u64,
    ) -> (r: Result<FailoverEvent, LoadBalancerError>)
        ensures
            ({
                let cands = without_upto(available@, failed_collector_id@, available@.len());
                &&& cands.len() == 0 ==> r == Err::<FailoverEvent, LoadBalancerError>(LoadBalancerError::NoFailoverCandidates)
                &&& cands.len() > 0 && eligible_positions(cands, required).len() == 0 ==> r
                    == Err::<FailoverEvent, LoadBalancerError>(LoadBalancerError::NoHealthyCollectors)
                &&& eligible_positions(cands, required).len() > 0 ==> r is Ok
            }),
            r is Err ==> *final(self) == *old(self),
            r matches Ok(e) ==> {
                &&& e.failover_collector_id@ != failed_collector_id@
                &&& e.failed_collector_id@ == failed_collector_id@
                &&& e.timestamp == now
                &&& e.reason@ == "Consecutive failures exceeded threshold"@
                &&& e.tasks_redistributed as nat == load_of(old(self).loads(), failed_collector_id@)
                &&& e.event_id@.len() == 36
                &&& final(self).events().len() == old(self).events().len() + 1
                &&& same_event(final(self).events().last(), e)
                &&& final(self).events().drop_last() == old(self).events()
                &&& final(self).counters().1 == sat_inc(old(self).counters().1)
                &&& final(self).counters().2 == crate::high_performance_event_bus::sat_add(old(self).counters().2, e.tasks_redistributed as u64)
                &&& chosen_by(
                    *old(self),
                    required,
                    without_upto(available@, failed_collector_id@, available@.len()),
                    e.failover_collector_id@,
                )
                &&& final(self).loads() == drained(
                    counted(old(self).loads(), e.failover_collector_id@),
                    failed_collector_id@,
                )
                &&& final(self).counters().0 == sat_inc(old(self).counters().0)
                &&& final(self).config() == old(self).config()
            },
    {
        let mut cands: Vec<CollectorCapability> = Vec::new();
        let mut i: usize = 0;
        while i < available.len()
            invariant
                i <= available@.len(),
                cands@.len() == without_upto(available@, failed_collector_id@, i as nat).len(),
                forall|j: int| 0 <= j < cands@.len() ==> same_capability(#[trigger] cands@[j], without_upto(available@, failed_collector_id@, i as nat)[j]),
            decreases available@.len() - i,
        {
            if !str_eq(available[i].collector_id.as_str(), failed_collector_id) {
                cands.push(available[i].duplicate());
            }
            i = i + 1;
        }
        let ghost spec_cands = without_upto(available@, failed_collector_id@, available@.len());
        proof {
            lemma_without(available@, failed_collector_id@, available@.len());
            lemma_eligible_same(cands@, spec_cands, required, cands@.len());
        }
        if cands.len() == 0 {
            return Err(LoadBalancerError::NoFailoverCandidates);
        }
        let selected = match self.select_collector(required, &cands) {
            Ok(id) => id,
            Err(e) => {
                return Err(e);
            },
        };
        proof {
            let pos = eligible_positions(cands@, required);
            assert(pos == eligible_positions(spec_cands, required));
            lemma_eligible_in_range(cands@, required, cands@.len());
            assert forall|j: int| 0 <= j < pos.len() implies (#[trigger] spec_cands[pos[j]]).collector_id
                == cands@[pos[j]].collector_id by {
                assert(0 <= pos[j] < cands@.len());
                assert(same_capability(cands@[pos[j]], spec_cands[pos[j]]));
            }
            let k = choose|k: int| 0 <= k < pos.len() && #[trigger] cands@[pos[k]].collector_id@ == selected@;
            assert(spec_cands[pos[k]].collector_id@ == selected@);
            assert(chosen_by(*old(self), required, spec_cands, selected@));
        }
        let tasks = match self.loads.get(failed_collector_id) {
            Some(l) => l.current_tasks,
            None => 0,
        };
        let event = FailoverEvent {
            event_id: new_uuid_string(),
            failed_collector_id: String::from_str(failed_collector_id),
            failover_collector_id: selected,
            timestamp: now,
            reason: String::from_str("Consecutive failures exceeded threshold"),
            tasks_redistributed: tasks,
        };
        self.failover_events.push(event.duplicate());
        self.stats.total_failovers = self.stats.total_failovers.saturating_add(1);
        self.stats.total_tasks_redistributed = self.stats.total_tasks_redistributed.saturating_add(
            tasks as u64,
        );
        match self.loads.find(failed_collector_id) {
            Some(i) => {
                let mut l = *self.loads.value_at(i);
                l.current_tasks = 0;
                self.loads.replace_value(i, l);
            },
            None => {},
        }
        proof {
            assert(self.failover_events@.drop_last() =~= old(self).failover_events@);
        }
        Ok(event)
    }

    /// The counters, with the total and largest current load over the registered
    /// collectors.
    pub fn get_stats(&self) -> (s: LoadBalancingStats)
        ensures
            s.total_tasks_distributed == self.counters().0,
            s.total_failovers == self.counters().1,
            s.total_tasks_redistributed == self.counters().2,
            s.collector_count == self.load_table().keys().len(),
            s.total_load as int == if load_sum_upto(self.load_table(), self.load_table().keys().len()) <= u64::MAX {
                load_sum_upto(self.load_table(), self.load_table().keys().len())
            } else {
                u64::MAX as int
            },
            s.max_load == load_max_upto(self.load_table(), self.load_table().keys().len()),
    {
        let mut total: u128 = 0;
        let mut max: usize = 0;
        let mut i: usize = 0;
        let n = self.loads.len();
        while i < n
            invariant
                n == self.loads.keys().len(),
                i <= n,
                total == load_sum_upto(self.loads, i as nat),
                total <= i * 0xffff_ffff_ffff_ffffu128,
                max == load_max_upto(self.loads, i as nat),
            decreases n - i,
        {
            let l = self.loads.value_at(i).current_tasks;
            assert(total + l <= (i + 1) * 0xffff_ffff_ffff_ffffu128) by (nonlinear_arith)
                requires total <= i * 0xffff_ffff_ffff_ffffu128, l <= 0xffff_ffff_ffff_ffffu128;
            assert((i + 1) * 0xffff_ffff_ffff_ffffu128 <= 0x1_0000_0000_0000_0000u128 * 0xffff_ffff_ffff_ffffu128) by (nonlinear_arith)
                requires i < 0xffff_ffff_ffff_ffffu128;
            total = total + l as u128;
            if l > max {
                max = l;
            }
            i = i + 1;
        }
        let total_load: u64 = if total <= 0xffff_ffff_ffff_ffff {
            total as u64
        } else {
            u64::MAX
        };
        LoadBalancingStats {
            total_tasks_distributed: self.stats.total_tasks_distributed,
            total_failovers: self.stats.total_failovers,
            total_tasks_redistributed: self.stats.total_tasks_redistributed,
            total_load,
            collector_count: n,
            max_load: max,
        }
    }

    /// Copies of the newest `limit` failover events, newest first.
    pub fn get_failover_events(&self, limit: usize) -> (r: Vec<FailoverEvent>)
        ensures
            r@.len() == if limit < self.events().len() { limit as int } else { self.events().len() as int },
            forall|i: int| 0 <= i < r@.len() ==> same_event(#[trigger] r@[i], self.events()[self.events().len() - 1 - i]),
    {
        let mut r: Vec<FailoverEvent> = Vec::new();
        let len = self.failover_events.len();
        let mut i: usize = 0;
        while i < limit && i < len
            invariant
                len == self.failover_events@.len(),
                i <= len,
                i <= limit,
                r@.len() == i,
                forall|j: int| 0 <= j < i ==> same_event(#[trigger] r@[j], self.failover_events@[len - 1 - j]),
            decreases len - i,
        {
            r.push(self.failover_events[len - 1 - i].duplicate());
            i = i + 1;
        }
        r
    }
}

/// Collectors that agree on id, health and capabilities are eligible at the same
/// positions.
proof fn lemma_eligible_same(a: Seq<CollectorCapability>, b: Seq<CollectorCapability>, required: SourceCaps, n: nat)
    requires
        n <= a.len(),
        a.len() == b.len(),
        forall|j: int| 0 <= j < a.len() ==> same_capability(#[trigger] a[j], b[j]),
    ensures
        eligible_upto(a, required, n) == eligible_upto(b, required, n),
    decreases n,
{
    if n > 0 {
        lemma_eligible_same(a, b, required, (n - 1) as nat);
        assert(same_capability(a[n - 1], b[n - 1]));
    }
}

/// Eligible positions lie within the sequence.
proof fn lemma_eligible_in_range(cs: Seq<CollectorCapability>, required: SourceCaps, n: nat)
    ensures
        forall|k: int| 0 <= k < eligible_upto(cs, required, n).len() ==> 0 <= #[trigger] eligible_upto(cs, required, n)[k] < n,
    decreases n,
{
    if n > 0 {
        lemma_eligible_in_range(cs, required, (n - 1) as nat);
        let r = eligible_upto(cs, required, (n - 1) as nat);
        let t = eligible_upto(cs, required, n);
        assert forall|k: int| 0 <= k < t.len() implies 0 <= #[trigger] t[k] < n by {
            if k < r.len() {
                assert(t[k] == r[k]);
            }
        }
    }
}

/// The round-robin position after `k` selections among `n` collectors, from counter `c`.
pub open spec fn rr_after(c: int, n: int, k: nat) -> int
    decreases k,
{
    if k == 0 {
        c % n
    } else {
        (rr_after(c, n, (k - 1) as nat) + 1) % n
    }
}

/// Round robin visits the collectors in turn: the position after `k` selections is
/// `(c + k) mod n`.
pub proof fn law_round_robin_position(c: int, n: int, k: nat)
    requires
        n > 0,
    ensures
        rr_after(c, n, k) == (c + k) % n,
    decreases k,
{
    if k > 0 {
        law_round_robin_position(c, n, (k - 1) as nat);
        vstd::arithmetic::div_mod::lemma_add_mod_noop(c + k - 1, 1, n);
        vstd::arithmetic::div_mod::lemma_add_mod_noop((c + k - 1) % n, 1, n);
        vstd::arithmetic::div_mod::lemma_mod_twice(c + k - 1, n);
    }
}

/// With an unchanged set of `n` eligible collectors, round robin repeats with period `n`.
pub proof fn law_round_robin_period(c: int, n: int, k: nat)
    requires
        n > 0,
    ensures
        rr_after(c, n, k + n as nat) == rr_after(c, n, k),
{
    law_round_robin_position(c, n, k);
    law_round_robin_position(c, n, k + n as nat);
    vstd::arithmetic::div_mod::lemma_mod_add_multiples_vanish(c + k, n);
}

} // verus!
