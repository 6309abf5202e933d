//! Topic-based task distribution for multi-collector coordination.
//!
//! Tasks wait in a four-level priority queue (critical first, oldest first within a
//! level) and carry a timeout. The caller publishes each task's payload on its topic and
//! reports the outcome; payloads are serialized by the caller. Times are Unix seconds.

use crate::event::CollectionEvent;
use crate::source::SourceCaps;
use crate::strmap::StrMap;
use crate::support::new_uuid_string;
use crate::trigger_queue::sat_inc;
use std::collections::VecDeque;
use vstd::prelude::*;

verus! {

/// Task priority levels for distribution.
#[derive(Debug, Clone, Copy, PartialEq, Eq, PartialOrd, Ord, Hash, Structural)]
pub enum TaskPriority {
    /// Low priority tasks (background analysis)
    Low,
    /// Normal priority tasks (standard detection)
    Normal,
    /// High priority tasks (security alerts)
    High,
    /// Critical priority tasks (immediate threats)
    Critical,
}

/// Task distribution request for collector coordination.
#[derive(Debug)]
pub struct DistributionTask {
    /// Unique task identifier
    pub task_id: String,
    /// Task priority level
    pub priority: TaskPriority,
    /// Target collector capabilities required
    pub required_capabilities: SourceCaps,
    /// Target topic for task distribution
    pub target_topic: String,
    /// Task payload (serialized detection rule, analysis request, etc.)
    pub payload: Vec<u8>,
    /// Correlation ID for tracking related tasks
    pub correlation_id: String,
    /// Task creation time (Unix seconds)
    pub created_at: u64,
    /// Task timeout (seconds)
    pub timeout_secs: u64,
    /// Task metadata for routing and tracking
    pub metadata: StrMap<String>,
}

/// Whether `b` is a copy of `a`.
pub open spec fn same_task(a: DistributionTask, b: DistributionTask) -> bool {
    &&& a.task_id == b.task_id
    &&& a.priority == b.priority
    &&& a.required_capabilities == b.required_capabilities
    &&& a.target_topic == b.target_topic
    &&& a.payload@ == b.payload@
    &&& a.correlation_id == b.correlation_id
    &&& a.created_at == b.created_at
    &&& a.timeout_secs == b.timeout_secs
    &&& a.metadata@ == b.metadata@
}

fn copy_bytes(v: &Vec<u8>) -> (r: Vec<u8>)
    ensures
        r@ == v@,
{
    let mut r: Vec<u8> = Vec::new();
    let mut i: usize = 0;
    while i < v.len()
        invariant
            i <= v@.len(),
            r@ == v@.take(i as int),
        decreases v@.len() - i,
    {
        r.push(v[i]);
        i = i + 1;
        assert(r@ =~= v@.take(i as int));
    }
    assert(r@ =~= v@);
    r
}

impl DistributionTask {
    /// A copy of the distribution request.
    pub fn duplicate(&self) -> (r: DistributionTask)
        ensures
            same_task(r, *self),
    {
        DistributionTask {
            task_id: self.task_id.clone(),
            priority: self.priority,
            required_capabilities: self.required_capabilities,
            target_topic: self.target_topic.clone(),
            payload: copy_bytes(&self.payload),
            correlation_id: self.correlation_id.clone(),
            created_at: self.created_at,
            timeout_secs: self.timeout_secs,
            metadata: self.metadata.duplicate(),
        }
    }
}

/// Task distribution statistics.
#[derive(Debug, Clone, Copy, PartialEq, Eq)]
pub struct DistributionStats {
    /// Total tasks distributed
    pub tasks_distributed: u64,
    /// Tasks currently pending
    pub tasks_pending: usize,
    /// Tasks successfully delivered
    pub tasks_delivered: u64,
    /// Tasks that failed delivery
    pub tasks_failed: u64,
    /// Tasks that timed out
    pub tasks_timed_out: u64,
    /// Average distribution latency (milliseconds)
    pub avg_distribution_latency_ms: u64,
}

impl DistributionStats {
    /// Statistics before any distribution.
    pub open spec fn zero_spec() -> DistributionStats {
        DistributionStats {
            tasks_distributed: 0,
            tasks_pending: 0,
            tasks_delivered: 0,
            tasks_failed: 0,
            tasks_timed_out: 0,
            avg_distribution_latency_ms: 0,
        }
    }
}

/// Priority-based task queue: one first-in first-out lane per priority level.
#[derive(Debug)]
pub struct PriorityTaskQueue {
    critical: VecDeque<DistributionTask>,
    high: VecDeque<DistributionTask>,
    normal: VecDeque<DistributionTask>,
    low: VecDeque<DistributionTask>,
}

/// The lane of a priority level, counting from the most urgent.
pub open spec fn lane_of(p: TaskPriority) -> int {
    match p {
        TaskPriority::Critical => 0,
        TaskPriority::High => 1,
        TaskPriority::Normal => 2,
        TaskPriority::Low => 3,
    }
}

impl PriorityTaskQueue {
    /// The lanes, most urgent first.
    pub closed spec fn lanes(&self) -> Seq<Seq<DistributionTask>> {
        seq![self.critical@, self.high@, self.normal@, self.low@]
    }

    /// The number of queued tasks.
    pub open spec fn size(&self) -> nat {
        self.lanes()[0].len() + self.lanes()[1].len() + self.lanes()[2].len() + self.lanes()[3].len()
    }

    /// An empty queue.
    pub fn new() -> (q: Self)
        ensures
            q.lanes() == seq![
                Seq::<DistributionTask>::empty(),
                Seq::<DistributionTask>::empty(),
                Seq::<DistributionTask>::empty(),
                Seq::<DistributionTask>::empty(),
            ],
    {
        PriorityTaskQueue {
            critical: VecDeque::new(),
            high: VecDeque::new(),
            normal: VecDeque::new(),
            low: VecDeque::new(),
        }
    }

    /// Appends a task to the lane of its priority.
    pub fn push(&mut self, task: DistributionTask)
        ensures
            final(self).lanes() == old(self).lanes().update(
                lane_of(task.priority),
                old(self).lanes()[lane_of(task.priority)].push(task),
            ),
    {
        match task.priority {
            TaskPriority::Critical => self.critical.push_back(task),
            TaskPriority::High => self.high.push_back(task),
            TaskPriority::Normal => self.normal.push_back(task),
            TaskPriority::Low => self.low.push_back(task),
        }
        proof {
            assert(self.lanes() =~= old(self).lanes().update(
                lane_of(task.priority),
                old(self).lanes()[lane_of(task.priority)].push(task),
            ));
        }
    }

    /// Takes the oldest task of the most urgent non-empty lane.
    pub fn pop(&mut self) -> (r: Option<DistributionTask>)
        ensures
            old(self).size() == 0 ==> r is None && final(self).lanes() == old(self).lanes(),
            old(self).size() > 0 ==> {
                let l = first_nonempty(old(self).lanes());
                &&& 0 <= l < 4
                &&& forall|m: int| 0 <= m < l ==> old(self).lanes()[m].len() == 0
                &&& old(self).lanes()[l].len() > 0
                &&& r == Some(old(self).lanes()[l][0])
                &&& final(self).lanes() == old(self).lanes().update(l, old(self).lanes()[l].drop_first())
            },
    {
        let r = if self.critical.len() > 0 {
            self.critical.pop_front()
        } else if self.high.len() > 0 {
            self.high.pop_front()
        } else if self.normal.len() > 0 {
            self.normal.pop_front()
        } else {
            self.low.pop_front()
        };
        proof {
            if old(self).size() > 0 {
                let l = first_nonempty(old(self).lanes());
                assert(self.lanes() =~= old(self).lanes().update(l, old(self).lanes()[l].drop_first()));
            } else {
                assert(self.lanes() =~= old(self).lanes());
            }
        }
        r
    }

    /// The number of queued tasks.
    pub fn len(&self) -> (n: usize)
        requires
            self.size() <= usize::MAX,
        ensures
            n == self.size(),
    {
        self.critical.len() + self.high.len() + self.normal.len() + self.low.len()
    }

    /// Whether no task is queued.
    pub fn is_empty(&self) -> (b: bool)
        ensures
            b == (self.size() == 0),
    {
        self.critical.len() == 0 && self.high.len() == 0 && self.normal.len() == 0
            && self.low.len() == 0
    }

    /// Removes every task, returning how many there were.
    pub fn clear(&mut self) -> (n: usize)
        requires
            old(self).size() <= usize::MAX,
        ensures
            n == old(self).size(),
            final(self).size() == 0,
    {
        let n = self.len();
        self.critical.clear();
        self.high.clear();
        self.normal.clear();
        self.low.clear();
        n
    }
}

/// The index of the first non-empty lane (4 when all are empty).
pub open spec fn first_nonempty(lanes: Seq<Seq<DistributionTask>>) -> int {
    if lanes[0].len() > 0 {
        0
    } else if lanes[1].len() > 0 {
        1
    } else if lanes[2].len() > 0 {
        2
    } else if lanes[3].len() > 0 {
        3
    } else {
        4
    }
}

/// The lane a pop serves is never less urgent than a non-empty lane: a queued task of a
/// more urgent level leaves before any of a less urgent level.
pub proof fn law_pop_most_urgent_first(q: PriorityTaskQueue, a: int)
    requires
        0 <= a < 4,
        q.lanes()[a].len() > 0,
    ensures
        first_nonempty(q.lanes()) <= a,
{
}

/// The topic for collectors with capabilities `c`: that of its first monitored domain in
/// the order process, network, filesystem, performance, or the generic one.
pub open spec fn capability_topic(c: SourceCaps) -> Seq<char> {
    if c.bits & 1 == 1 {
        "control.collector.process"@
    } else if c.bits & 2 == 2 {
        "control.collector.network"@
    } else if c.bits & 4 == 4 {
        "control.collector.filesystem"@
    } else if c.bits & 8 == 8 {
        "control.collector.performance"@
    } else {
        "control.collector.generic"@
    }
}

/// The capabilities and topic of the task made from an event.
pub open spec fn event_task_route(e: CollectionEvent) -> (u32, Seq<char>) {
    match e {
        CollectionEvent::Process(_) => (1, "control.collector.process"@),
        CollectionEvent::Network(_) => (2, "control.collector.network"@),
        CollectionEvent::Filesystem(_) => (4, "control.collector.filesystem"@),
        CollectionEvent::Performance(_) => (8, "control.collector.performance"@),
        CollectionEvent::TriggerRequest(_) => (1, "control.trigger.request"@),
    }
}

/// The time a task times out: its start plus its timeout, capped at the largest `u64`.
pub open spec fn deadline(start: u64, timeout_secs: u64) -> u64 {
    if start + timeout_secs <= u64::MAX {
        (start + timeout_secs) as u64
    } else {
        u64::MAX
    }
}

/// The ids, in tracking order, of the first `n` tracked tasks whose deadline has come
/// at `now`.
pub open spec fn due_upto(t: StrMap<u64>, n: nat, now: u64) -> Seq<Seq<char>>
    decreases n,
{
    if n == 0 {
        Seq::empty()
    } else {
        let r = due_upto(t, (n - 1) as nat, now);
        if now >= t.value_at_spec(n - 1) {
            r.push(t.keys()[n - 1])
        } else {
            r
        }
    }
}

/// Task distributor for multi-collector coordination.
#[derive(Debug)]
pub struct TaskDistributor {
    task_queue: PriorityTaskQueue,
    stats: DistributionStats,
    timeout_tracker: StrMap<u64>,
}

impl TaskDistributor {
    /// The queue of pending tasks.
    pub closed spec fn queue(&self) -> PriorityTaskQueue {
        self.task_queue
    }

    /// The statistics (the pending count aside).
    pub closed spec fn statistics(&self) -> DistributionStats {
        self.stats
    }

    /// The deadline of each tracked task, by task id.
    pub closed spec fn deadlines(&self) -> StrMap<u64> {
        self.timeout_tracker
    }

    /// A distributor with no tasks.
    pub fn new() -> (d: Self)
        ensures
            d.queue().size() == 0,
            d.queue().lanes() == seq![
                Seq::<DistributionTask>::empty(),
                Seq::<DistributionTask>::empty(),
                Seq::<DistributionTask>::empty(),
                Seq::<DistributionTask>::empty(),
            ],
            d.statistics() == DistributionStats::zero_spec(),
            d.deadlines()@ == Map::<Seq<char>, u64>::empty(),
            d.deadlines().keys() == Seq::<Seq<char>>::empty(),
    {
        TaskDistributor {
            task_queue: PriorityTaskQueue::new(),
            stats: DistributionStats {
                tasks_distributed: 0,
                tasks_pending: 0,
                tasks_delivered: 0,
                tasks_failed: 0,
                tasks_timed_out: 0,
                avg_distribution_latency_ms: 0,
            },
            timeout_tracker: StrMap::new(),
        }
    }

    /// Starts distributing a task at `now`: its deadline is tracked and a copy is queued.
    /// Returns the task for the caller to publish.
    pub fn begin_distribution_at(&mut self, task: DistributionTask, now: u64) -> (t: DistributionTask)
        ensures
            t == task,
            final(self).deadlines()@ == old(self).deadlines()@.insert(
                task.task_id@,
                deadline(now, task.timeout_secs),
            ),
            final(self).queue().lanes().len() == 4,
            exists|copy: DistributionTask| #[trigger] same_task(copy, task) && final(self).queue().lanes()
                == old(self).queue().lanes().update(
                lane_of(task.priority),
                old(self).queue().lanes()[lane_of(task.priority)].push(copy),
            ),
            final(self).statistics() == old(self).statistics(),
    {
        let at = now.saturating_add(task.timeout_secs);
        self.timeout_tracker.insert(task.task_id.clone(), at);
        let copy = task.duplicate();
        let ghost c = copy;
        self.task_queue.push(copy);
        assert(same_task(c, task));
        task
    }

    /// Records that a task was published after `latency_ms` milliseconds: one more task
    /// distributed and delivered, the latency folded into the running average, and the
    /// next queued task taken off the queue.
    pub fn record_success(&mut self, latency_ms: u64)
        ensures
            final(self).statistics().tasks_distributed == sat_inc(old(self).statistics().tasks_distributed),
            final(self).statistics().tasks_delivered == sat_inc(old(self).statistics().tasks_delivered),
            final(self).statistics().avg_distribution_latency_ms == crate::sql_trigger::running_average_spec(
                old(self).statistics().avg_distribution_latency_ms,
                sat_inc(old(self).statistics().tasks_delivered),
                latency_ms,
            ),
            final(self).statistics().tasks_failed == old(self).statistics().tasks_failed,
            final(self).statistics().tasks_timed_out == old(self).statistics().tasks_timed_out,
            old(self).queue().size() > 0 ==> final(self).queue().size() + 1 == old(self).queue().size(),
            old(self).queue().size() == 0 ==> final(self).queue().size() == 0,
            final(self).deadlines() == old(self).deadlines(),
    {
        self.stats.tasks_distributed = self.stats.tasks_distributed.saturating_add(1);
        let delivered = self.stats.tasks_delivered.saturating_add(1);
        self.stats.tasks_delivered = delivered;
        self.stats.avg_distribution_latency_ms = crate::sql_trigger::running_average(
            self.stats.avg_distribution_latency_ms,
            delivered,
            latency_ms,
        );
        let _ = self.task_queue.pop();
    }

    /// Records that publishing a task failed.
    pub fn record_failure(&mut self)
        ensures
            final(self).statistics() == (DistributionStats {
                tasks_failed: sat_inc(old(self).statistics().tasks_failed),
                ..old(self).statistics()
            }),
            final(self).queue() == old(self).queue(),
            final(self).deadlines() == old(self).deadlines(),
    {
        self.stats.tasks_failed = self.stats.tasks_failed.saturating_add(1);
    }

    /// The topic for collectors with the given capabilities.
    pub fn route_task_by_capabilities(&self, capabilities: SourceCaps) -> (t: String)
        ensures
            t@ == capability_topic(capabilities),
    {
        if capabilities.contains(SourceCaps::process()) {
            String::from_str("control.collector.process")
        } else if capabilities.contains(SourceCaps::network()) {
            String::from_str("control.collector.network")
        } else if capabilities.contains(SourceCaps::filesystem()) {
            String::from_str("control.collector.filesystem")
        } else if capabilities.contains(SourceCaps::performance()) {
            String::from_str("control.collector.performance")
        } else {
            String::from_str("control.collector.generic")
        }
    }

    /// Makes a task for an event created at `now`, with `payload` (the serialized event):
    /// fresh random task and correlation ids, the capability and topic of the event's
    /// domain, and no metadata.
    pub fn create_task_from_event_at(
        &self,
        event: &CollectionEvent,
        priority: TaskPriority,
        timeout_secs: u64,
        payload: Vec<u8>,
        now: u64,
    ) -> (t: DistributionTask)
        ensures
            t.priority == priority,
            t.required_capabilities.bits == event_task_route(*event).0,
            t.target_topic@ == event_task_route(*event).1,
            t.payload == payload,
            t.created_at == now,
            t.timeout_secs == timeout_secs,
            t.metadata@ == Map::<Seq<char>, String>::empty(),
            t.task_id@.len() == 36,
            t.correlation_id@.len() == 36,
    {
        let task_id = new_uuid_string();
        let correlation_id = new_uuid_string();
        let (required_capabilities, target_topic) = match event {
            CollectionEvent::Process(_) => (
                SourceCaps::process(),
                String::from_str("control.collector.process"),
            ),
            CollectionEvent::Network(_) => (
                SourceCaps::network(),
                String::from_str("control.collector.network"),
            ),
            CollectionEvent::Filesystem(_) => (
                SourceCaps::filesystem(),
                String::from_str("control.collector.filesystem"),
            ),
            CollectionEvent::Performance(_) => (
                SourceCaps::performance(),
                String::from_str("control.collector.performance"),
            ),
            CollectionEvent::TriggerRequest(_) => (
                SourceCaps::process(),
                String::from_str("control.trigger.request"),
            ),
        };
        DistributionTask {
            task_id,
            priority,
            required_capabilities,
            target_topic,
            payload,
            correlation_id,
            created_at: now,
            timeout_secs,
            metadata: StrMap::new(),
        }
    }

    /// Stops tracking the tasks whose deadline has come at `now` and returns their ids in
    /// tracking order; each counts as timed out.
    pub fn check_timeouts_at(&mut self, now: u64) -> (r: Vec<String>)
        ensures
            crate::trigger_manager::string_views(r@) == due_upto(
                old(self).deadlines(),
                old(self).deadlines().keys().len(),
                now,
            ),
            forall|k: Seq<char>|
                #[trigger] final(self).deadlines()@.contains_key(k) ==> old(self).deadlines()@.contains_key(k)
                    && final(self).deadlines()@[k] == old(self).deadlines()@[k] && now < old(
                    self,
                ).deadlines()@[k],
            forall|k: Seq<char>|
                #[trigger] old(self).deadlines()@.contains_key(k) && now < old(self).deadlines()@[k]
                    ==> final(self).deadlines()@.contains_key(k),
            final(self).statistics().tasks_timed_out == crate::trigger_manager::sat_add_nat(
                old(self).statistics().tasks_timed_out,
                r@.len(),
            ),
            final(self).queue() == old(self).queue(),
    {
        let ghost t0 = self.timeout_tracker;
        let mut due: Vec<String> = Vec::new();
        let mut i: usize = 0;
        while i < self.timeout_tracker.len()
            invariant
                self.timeout_tracker == t0,
                i <= t0.keys().len(),
                crate::trigger_manager::string_views(due@) == due_upto(t0, i as nat, now),
            decreases t0.keys().len() - i,
        {
            if now >= *self.timeout_tracker.value_at(i) {
                let ghost before = due@;
                due.push(self.timeout_tracker.key_at(i).clone());
                proof {
                    assert(crate::trigger_manager::string_views(due@) =~= crate::trigger_manager::string_views(before).push(t0.keys()[i as int]));
                }
            }
            i = i + 1;
        }
        proof {
            use_type_invariant(&self.timeout_tracker);
            t0.lemma_keys();
            lemma_due_upto(t0, t0.keys().len(), now);
        }
        let ghost dv = crate::trigger_manager::string_views(due@);
        let mut j: usize = 0;
        while j < due.len()
            invariant
                j <= due@.len(),
                dv == crate::trigger_manager::string_views(due@),
                forall|k: Seq<char>|
                    #[trigger] self.timeout_tracker@.contains_key(k) <==> (t0@.contains_key(k)
                        && !dv.take(j as int).contains(k)),
                forall|k: Seq<char>|
                    #[trigger] self.timeout_tracker@.contains_key(k) ==> self.timeout_tracker@[k] == t0@[k],
                self.stats == old(self).stats,
                self.task_queue == old(self).task_queue,
            decreases due@.len() - j,
        {
            self.timeout_tracker.remove(due[j].as_str());
            proof {
                assert(dv[j as int] == due@[j as int]@);
                assert(dv.take(j as int + 1) =~= dv.take(j as int).push(dv[j as int]));
                assert forall|k: Seq<char>| #[trigger] self.timeout_tracker@.contains_key(k) <==> (t0@.contains_key(k)
                    && !dv.take(j as int + 1).contains(k)) by {
                    if k == dv[j as int] {
                        assert(dv.take(j as int + 1)[j as int] == k);
                    } else {
                        if dv.take(j as int + 1).contains(k) {
                            let m = choose|m: int| 0 <= m < j + 1 && #[trigger] dv.take(j as int + 1)[m] == k;
                            assert(dv.take(j as int)[m] == k);
                        }
                        if dv.take(j as int).contains(k) {
                            let m = choose|m: int| 0 <= m < j && #[trigger] dv.take(j as int)[m] == k;
                            assert(dv.take(j as int + 1)[m] == k);
                        }
                    }
                }
            }
            j = j + 1;
        }
        proof {
            assert(dv.take(dv.len() as int) =~= dv);
            assert forall|k: Seq<char>| t0@.contains_key(k) implies (#[trigger] dv.contains(k) <==> now >= t0@[k]) by {
                assert(t0.keys().contains(k));
                let i = choose|i: int| 0 <= i < t0.keys().len() && t0.keys()[i] == k;
                assert(t0@.contains_key(t0.keys()[i]));
                assert(t0@[t0.keys()[i]] == t0.value_at_spec(i));
                if dv.contains(k) {
                    let i2 = choose|i2: int| 0 <= i2 < t0.keys().len() && t0.keys()[i2] == k && now >= t0.value_at_spec(i2);
                    assert(i2 == i);
                }
            }
        }
        let n = due.len();
        self.stats.tasks_timed_out = self.stats.tasks_timed_out.saturating_add(n as u64);
        due
    }

    /// The statistics, with the number of queued tasks as the pending count.
    pub fn get_stats(&self) -> (s: DistributionStats)
        requires
            self.queue().size() <= usize::MAX,
        ensures
            s == (DistributionStats { tasks_pending: self.queue().size() as usize, ..self.statistics() }),
    {
        let mut s = self.stats;
        s.tasks_pending = self.task_queue.len();
        s
    }

    /// Removes every queued task, returning how many there were.
    pub fn clear_queue(&mut self) -> (n: usize)
        requires
            old(self).queue().size() <= usize::MAX,
        ensures
            n == old(self).queue().size(),
            final(self).queue().size() == 0,
            final(self).statistics() == old(self).statistics(),
            final(self).deadlines() == old(self).deadlines(),
    {
        self.task_queue.clear()
    }
}

/// Facts about the ids of due tasks: each is a tracked key whose deadline has come, and
/// every such key is among them.
proof fn lemma_due_upto(t: StrMap<u64>, n: nat, now: u64)
    requires
        t.wf(),
        n <= t.keys().len(),
    ensures
        forall|k: Seq<char>|
            #[trigger] due_upto(t, n, now).contains(k) <==> (exists|i: int|
                0 <= i < n && t.keys()[i] == k && now >= t.value_at_spec(i)),
    decreases n,
{
    if n > 0 {
        lemma_due_upto(t, (n - 1) as nat, now);
        let r = due_upto(t, (n - 1) as nat, now);
        assert forall|k: Seq<char>| #[trigger] due_upto(t, n, now).contains(k) <==> (exists|i: int|
            0 <= i < n && t.keys()[i] == k && now >= t.value_at_spec(i)) by {
            if now >= t.value_at_spec(n - 1) {
                assert(due_upto(t, n, now) == r.push(t.keys()[n - 1]));
                if due_upto(t, n, now).contains(k) {
                    let m = choose|m: int| 0 <= m < due_upto(t, n, now).len() && due_upto(t, n, now)[m] == k;
                    if m < r.len() {
                        assert(r[m] == k);
                        assert(r.contains(k));
                    } else {
                        assert(t.keys()[n - 1] == k);
                    }
                }
                if exists|i: int| 0 <= i < n && t.keys()[i] == k && now >= t.value_at_spec(i) {
                    let i = choose|i: int| 0 <= i < n && t.keys()[i] == k && now >= t.value_at_spec(i);
                    if i < n - 1 {
                        assert(r.contains(k));
                        let m = choose|m: int| 0 <= m < r.len() && r[m] == k;
                        assert(due_upto(t, n, now)[m] == k);
                    } else {
                        assert(due_upto(t, n, now)[r.len() as int] == k);
                    }
                }
            } else {
                if exists|i: int| 0 <= i < n && t.keys()[i] == k && now >= t.value_at_spec(i) {
                    let i = choose|i: int| 0 <= i < n && t.keys()[i] == k && now >= t.value_at_spec(i);
                    assert(i != n - 1);
                }
            }
        }
    }
}

} // verus!
