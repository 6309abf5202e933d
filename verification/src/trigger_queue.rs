//! Priority-based trigger queue with backpressure.
//!
//! Critical and High requests share the high-priority lane, Normal and Low the
//! normal lane; each lane holds at most half the queue's capacity. Once the
//! total depth reaches the backpressure threshold, Low requests are refused.

use crate::event::{TriggerPriority, TriggerRequest};
use std::collections::VecDeque;
use vstd::prelude::*;

verus! {

/// Errors that can occur in the trigger system.
#[derive(Debug, Clone, PartialEq, Eq)]
pub enum TriggerError {
    /// A shared structure could not be locked
    LockError(String),
    /// Configuration error
    ConfigError(String),
    /// Condition evaluation error
    EvaluationError(String),
    /// Trigger generation error
    GenerationError(String),
    /// SQL parsing error
    SqlParsingError(String),
    /// Capability validation error
    CapabilityValidationError(String),
    /// The named lane of the queue is full
    QueueFull(String),
    /// Backpressure active - dropping low priority triggers
    BackpressureActive,
    /// Collector not found
    CollectorNotFound(String),
    /// Invalid trigger priority
    InvalidPriority(TriggerPriority),
    /// Trigger emission failed
    EmissionError(String),
    /// Event bus error
    EventBusError(String),
    /// Trigger validation failed
    ValidationError(String),
    /// Trigger timeout
    TimeoutError(String),
    /// Correlation tracking error
    CorrelationError(String),
}

/// Queue statistics for monitoring.
#[derive(Debug, Clone, Copy, Default, PartialEq, Eq)]
pub struct QueueStatistics {
    /// Total triggers offered to the queue
    pub total_enqueued: u64,
    /// Total triggers dequeued
    pub total_processed: u64,
    /// Triggers dropped due to backpressure
    pub dropped_backpressure: u64,
    /// Triggers dropped due to a full lane
    pub dropped_queue_full: u64,
    /// Current depth of the high-priority lane
    pub high_priority_depth: usize,
    /// Current depth of the normal-priority lane
    pub normal_priority_depth: usize,
}

/// `x + 1`, saturating at the largest `u64`.
pub open spec fn sat_inc(x: u64) -> u64 {
    if x < u64::MAX {
        (x + 1) as u64
    } else {
        x
    }
}

/// `x + y`, saturating at the largest `u64`.
pub open spec fn sat_add(x: u64, y: u64) -> u64 {
    if x + y <= u64::MAX {
        (x + y) as u64
    } else {
        u64::MAX
    }
}

/// Whether a priority goes to the high-priority lane.
pub open spec fn is_high_lane(p: TriggerPriority) -> bool {
    p == TriggerPriority::Critical || p == TriggerPriority::High
}

/// The depth at which backpressure starts: `max_queue_size * percent / 100`, rounded down.
pub open spec fn backpressure_threshold(max_queue_size: usize, percent: u32) -> int {
    (max_queue_size * percent) / 100
}

/// What happens to a request offered to the queue.
pub enum EnqueueOutcome {
    /// Appended to the high-priority lane
    High,
    /// Appended to the normal-priority lane
    Normal,
    /// Refused under backpressure
    Backpressure,
    /// Refused because its lane is full
    HighFull,
    /// Refused because its lane is full
    NormalFull,
}

/// The outcome of offering a request of priority `p` to lanes of the given depths.
pub open spec fn enqueue_outcome(
    high_len: nat,
    normal_len: nat,
    max_queue_size: usize,
    percent: u32,
    p: TriggerPriority,
) -> EnqueueOutcome {
    if high_len + normal_len >= backpressure_threshold(max_queue_size, percent) && p
        == TriggerPriority::Low {
        EnqueueOutcome::Backpressure
    } else if is_high_lane(p) {
        if high_len >= max_queue_size / 2 {
            EnqueueOutcome::HighFull
        } else {
            EnqueueOutcome::High
        }
    } else {
        if normal_len >= max_queue_size / 2 {
            EnqueueOutcome::NormalFull
        } else {
            EnqueueOutcome::Normal
        }
    }
}

/// Priority-based trigger queue for managing analysis requests.
#[derive(Debug)]
pub struct PriorityTriggerQueue {
    high_priority: VecDeque<TriggerRequest>,
    normal_priority: VecDeque<TriggerRequest>,
    max_queue_size: usize,
    backpressure_percent: u32,
    stats: QueueStatistics,
}

impl PriorityTriggerQueue {
    /// Requests waiting in the high-priority lane, oldest first.
    pub closed spec fn high(&self) -> Seq<TriggerRequest> {
        self.high_priority@
    }

    /// Requests waiting in the normal-priority lane, oldest first.
    pub closed spec fn normal(&self) -> Seq<TriggerRequest> {
        self.normal_priority@
    }

    /// Capacity of the whole queue.
    pub closed spec fn capacity(&self) -> usize {
        self.max_queue_size
    }

    /// Backpressure threshold in percent of the capacity.
    pub closed spec fn percent(&self) -> u32 {
        self.backpressure_percent
    }

    /// Counters kept by the queue (the depth fields are refreshed when read).
    pub closed spec fn counters(&self) -> QueueStatistics {
        self.stats
    }

    /// Each lane holds at most half the capacity.
    #[verifier::type_invariant]
    pub closed spec fn wf(&self) -> bool {
        &&& self.high_priority@.len() <= self.max_queue_size / 2
        &&& self.normal_priority@.len() <= self.max_queue_size / 2
    }

    /// The statistics as reported: the counters, with the current depth of each lane.
    pub open spec fn reported_stats(&self) -> QueueStatistics {
        QueueStatistics {
            high_priority_depth: self.high().len() as usize,
            normal_priority_depth: self.normal().len() as usize,
            ..self.counters()
        }
    }

    /// Creates an empty queue of `max_queue_size` requests whose backpressure starts at
    /// `backpressure_percent` percent of that size.
    pub fn new(max_queue_size: usize, backpressure_percent: u32) -> (q: Self)
        ensures
            q.high() == Seq::<TriggerRequest>::empty(),
            q.normal() == Seq::<TriggerRequest>::empty(),
            q.capacity() == max_queue_size,
            q.percent() == backpressure_percent,
            q.counters() == QueueStatistics::default_spec(),
    {
        PriorityTriggerQueue {
            high_priority: VecDeque::new(),
            normal_priority: VecDeque::new(),
            max_queue_size,
            backpressure_percent,
            stats: QueueStatistics::zero(),
        }
    }

    /// Whether backpressure is currently active: the total depth has reached the threshold.
    pub fn is_backpressure_active(&self) -> (b: bool)
        ensures
            b == (self.high().len() + self.normal().len() >= backpressure_threshold(
                self.capacity(),
                self.percent(),
            )),
    {
        proof { use_type_invariant(self); }
        let depth = self.high_priority.len() + self.normal_priority.len();
        let m = self.max_queue_size as u128;
        let p = self.backpressure_percent as u128;
        assert(m * p <= 0xffff_ffff_ffff_ffff * 0xffff_ffff) by (nonlinear_arith)
            requires
                m <= 0xffff_ffff_ffff_ffff,
                p <= 0xffff_ffff,
        ;
        let threshold: u128 = m * p / 100;
        (depth as u128) >= threshold
    }

    /// Offers a request: refused under backpressure if it is Low, refused if its lane is
    /// full, otherwise appended to its lane.
    pub fn enqueue(&mut self, trigger: TriggerRequest) -> (r: Result<(), TriggerError>)
        ensures
            ({
                let outcome = enqueue_outcome(
                    old(self).high().len(),
                    old(self).normal().len(),
                    old(self).capacity(),
                    old(self).percent(),
                    trigger.priority,
                );
                &&& outcome is High ==> r is Ok && final(self).high() == old(self).high().push(
                    trigger,
                ) && final(self).normal() == old(self).normal()
                &&& outcome is Normal ==> r is Ok && final(self).normal() == old(self).normal().push(trigger) && final(self).high() == old(self).high()
                &&& outcome is Backpressure ==> r == Err::<(), TriggerError>(
                    TriggerError::BackpressureActive,
                )
                &&& outcome is HighFull ==> (r matches Err(TriggerError::QueueFull(lane)) && lane@
                    == "high_priority"@)
                &&& outcome is NormalFull ==> (r matches Err(TriggerError::QueueFull(lane))
                    && lane@ == "normal_priority"@)
                &&& !(outcome is High) && !(outcome is Normal) ==> final(self).high() == old(self).high() && final(self).normal() == old(self).normal()
                &&& final(self).counters().total_enqueued == sat_inc(
                    old(self).counters().total_enqueued,
                )
                &&& final(self).counters().dropped_backpressure == if outcome is Backpressure {
                    sat_inc(old(self).counters().dropped_backpressure)
                } else {
                    old(self).counters().dropped_backpressure
                }
                &&& final(self).counters().dropped_queue_full == if outcome is HighFull
                    || outcome is NormalFull {
                    sat_inc(old(self).counters().dropped_queue_full)
                } else {
                    old(self).counters().dropped_queue_full
                }
                &&& final(self).counters().total_processed == old(self).counters().total_processed
            }),
            final(self).capacity() == old(self).capacity(),
            final(self).percent() == old(self).percent(),
    {
        proof { use_type_invariant(&*self); }
        self.stats.total_enqueued = self.stats.total_enqueued.saturating_add(1);
        if self.is_backpressure_active() {
            if trigger.priority == TriggerPriority::Low {
                self.stats.dropped_backpressure = self.stats.dropped_backpressure.saturating_add(1);
                return Err(TriggerError::BackpressureActive);
            }
        }
        if trigger.priority == TriggerPriority::Critical || trigger.priority
            == TriggerPriority::High {
            if self.high_priority.len() >= self.max_queue_size / 2 {
                self.stats.dropped_queue_full = self.stats.dropped_queue_full.saturating_add(1);
                let lane = String::from_str("high_priority");
                return Err(TriggerError::QueueFull(lane));
            }
            let mut lane: VecDeque<TriggerRequest> = VecDeque::new();
            std::mem::swap(&mut lane, &mut self.high_priority);
            lane.push_back(trigger);
            self.high_priority = lane;
            self.stats.high_priority_depth = self.high_priority.len();
        } else {
            if self.normal_priority.len() >= self.max_queue_size / 2 {
                self.stats.dropped_queue_full = self.stats.dropped_queue_full.saturating_add(1);
                let lane = String::from_str("normal_priority");
                return Err(TriggerError::QueueFull(lane));
            }
            let mut lane: VecDeque<TriggerRequest> = VecDeque::new();
            std::mem::swap(&mut lane, &mut self.normal_priority);
            lane.push_back(trigger);
            self.normal_priority = lane;
            self.stats.normal_priority_depth = self.normal_priority.len();
        }
        Ok(())
    }

    /// Takes the oldest high-priority request, or else the oldest normal-priority one.
    pub fn dequeue(&mut self) -> (r: Option<TriggerRequest>)
        ensures
            old(self).high().len() > 0 ==> r == Some(old(self).high()[0]) && final(self).high()
                == old(self).high().drop_first() && final(self).normal() == old(self).normal(),
            old(self).high().len() == 0 && old(self).normal().len() > 0 ==> r == Some(
                old(self).normal()[0],
            ) && final(self).normal() == old(self).normal().drop_first() && final(self).high()
                == old(self).high(),
            old(self).high().len() == 0 && old(self).normal().len() == 0 ==> r is None && final(self).high() == old(self).high() && final(self).normal() == old(self).normal(),
            final(self).counters().total_processed == if r is Some {
                sat_inc(old(self).counters().total_processed)
            } else {
                old(self).counters().total_processed
            },
            final(self).counters().total_enqueued == old(self).counters().total_enqueued,
            final(self).counters().dropped_backpressure == old(self).counters().dropped_backpressure,
            final(self).counters().dropped_queue_full == old(self).counters().dropped_queue_full,
            final(self).capacity() == old(self).capacity(),
            final(self).percent() == old(self).percent(),
    {
        proof { use_type_invariant(&*self); }
        let mut high: VecDeque<TriggerRequest> = VecDeque::new();
        std::mem::swap(&mut high, &mut self.high_priority);
        let first = high.pop_front();
        self.high_priority = high;
        if let Some(trigger) = first {
            self.stats.total_processed = self.stats.total_processed.saturating_add(1);
            self.stats.high_priority_depth = self.high_priority.len();
            return Some(trigger);
        }
        let mut normal: VecDeque<TriggerRequest> = VecDeque::new();
        std::mem::swap(&mut normal, &mut self.normal_priority);
        let next = normal.pop_front();
        self.normal_priority = normal;
        if let Some(trigger) = next {
            self.stats.total_processed = self.stats.total_processed.saturating_add(1);
            self.stats.normal_priority_depth = self.normal_priority.len();
            return Some(trigger);
        }
        None
    }

    /// Current statistics, with both lane depths as they are now.
    pub fn get_statistics(&self) -> (s: QueueStatistics)
        ensures
            s == self.reported_stats(),
            s.total_enqueued == self.counters().total_enqueued,
            s.total_processed == self.counters().total_processed,
            s.dropped_backpressure == self.counters().dropped_backpressure,
            s.dropped_queue_full == self.counters().dropped_queue_full,
            s.high_priority_depth == self.high().len(),
            s.normal_priority_depth == self.normal().len(),
    {
        let mut s = self.stats;
        s.high_priority_depth = self.high_priority.len();
        s.normal_priority_depth = self.normal_priority.len();
        s
    }

    /// Total number of waiting requests.
    pub fn len(&self) -> (n: usize)
        ensures
            n == self.high().len() + self.normal().len(),
    {
        proof { use_type_invariant(self); }
        self.high_priority.len() + self.normal_priority.len()
    }

    /// Whether no request is waiting.
    pub fn is_empty(&self) -> (b: bool)
        ensures
            b == (self.high().len() + self.normal().len() == 0),
    {
        self.high_priority.len() == 0 && self.normal_priority.len() == 0
    }

    /// The queue never holds more requests than its capacity.
    pub proof fn law_bounded(&self)
        requires
            self.wf(),
        ensures
            self.high().len() + self.normal().len() <= self.capacity(),
    {
    }
}

impl QueueStatistics {
    /// All counters zero.
    pub open spec fn default_spec() -> QueueStatistics {
        QueueStatistics {
            total_enqueued: 0,
            total_processed: 0,
            dropped_backpressure: 0,
            dropped_queue_full: 0,
            high_priority_depth: 0,
            normal_priority_depth: 0,
        }
    }

    /// All counters zero.
    pub fn zero() -> (s: QueueStatistics)
        ensures
            s == QueueStatistics::default_spec(),
    {
        QueueStatistics {
            total_enqueued: 0,
            total_processed: 0,
            dropped_backpressure: 0,
            dropped_queue_full: 0,
            high_priority_depth: 0,
            normal_priority_depth: 0,
        }
    }
}

/// Under backpressure a Low request is refused whatever the lane depths, while a request of
/// any other priority is refused only if its own lane is full.
pub proof fn law_backpressure_drops_only_low(
    high_len: nat,
    normal_len: nat,
    max_queue_size: usize,
    percent: u32,
    p: TriggerPriority,
)
    requires
        high_len + normal_len >= backpressure_threshold(max_queue_size, percent),
    ensures
        p == TriggerPriority::Low <==> enqueue_outcome(
            high_len,
            normal_len,
            max_queue_size,
            percent,
            p,
        ) is Backpressure,
{
}

/// A request offered to an empty queue whose lanes have room is accepted into the lane of
/// its priority (unless it is Low and the threshold is zero).
pub proof fn law_empty_queue_accepts(max_queue_size: usize, percent: u32, p: TriggerPriority)
    requires
        max_queue_size >= 2,
        backpressure_threshold(max_queue_size, percent) > 0,
    ensures
        is_high_lane(p) ==> enqueue_outcome(0, 0, max_queue_size, percent, p) is High,
        !is_high_lane(p) ==> enqueue_outcome(0, 0, max_queue_size, percent, p) is Normal,
{
}

} // verus!
