//! Performance monitoring: the configuration and the integer bookkeeping behind the
//! metrics (event counts, the throughput window, memory samples, trigger latency timers).
//! Rates, averages of CPU percentages and baselines are floating-point and are computed
//! by the caller from what this module records. Instants are milliseconds.

use crate::event::CollectionEvent;
use crate::event::TriggerRequest;
use crate::strmap::StrMap;
use vstd::prelude::*;

verus! {

/// Performance monitoring configuration.
#[derive(Debug, Clone, Copy, PartialEq, Eq)]
pub struct PerformanceConfig {
    /// Monitoring is on
    pub enabled: bool,
    /// Metrics collection interval
    pub collection_interval_ms: u64,
    /// Latency samples kept
    pub max_latency_samples: usize,
    /// Throughput, CPU and memory samples kept
    pub max_throughput_samples: usize,
    /// CPU sampling interval
    pub cpu_monitoring_interval_ms: u64,
    /// Memory sampling interval
    pub memory_monitoring_interval_ms: u64,
    /// Trigger latencies are tracked
    pub enable_trigger_latency_tracking: bool,
}

impl Default for PerformanceConfig {
    fn default() -> (c: Self)
        ensures
            c.enabled,
            c.collection_interval_ms == 10_000,
            c.max_latency_samples == 1000,
            c.max_throughput_samples == 100,
            c.cpu_monitoring_interval_ms == 5000,
            c.memory_monitoring_interval_ms == 5000,
            c.enable_trigger_latency_tracking,
    {
        PerformanceConfig {
            enabled: true,
            collection_interval_ms: 10_000,
            max_latency_samples: 1000,
            max_throughput_samples: 100,
            cpu_monitoring_interval_ms: 5000,
            memory_monitoring_interval_ms: 5000,
            enable_trigger_latency_tracking: true,
        }
    }
}

/// `x + 1`, wrapping around as an atomic counter does.
pub open spec fn wrap_inc(x: u64) -> u64 {
    if x == u64::MAX {
        0
    } else {
        (x + 1) as u64
    }
}

fn wrap_inc_exec(x: u64) -> (r: u64)
    ensures
        r == wrap_inc(x),
{
    if x == u64::MAX {
        0
    } else {
        x + 1
    }
}

/// A bounded sample window after recording `x`: the oldest sample leaves when the window
/// would exceed `max`.
pub open spec fn window_push(s: Seq<u64>, x: u64, max: usize) -> Seq<u64> {
    if s.push(x).len() > max {
        s.push(x).drop_first()
    } else {
        s.push(x)
    }
}

fn push_bounded(v: &mut Vec<u64>, x: u64, max: usize)
    ensures
        final(v)@ == window_push(old(v)@, x, max),
{
    v.push(x);
    if v.len() > max {
        v.remove(0);
        assert(v@ =~= window_push(old(v)@, x, max));
    }
}

/// The sum of the samples in `s`.
pub open spec fn total(s: Seq<u64>) -> int
    decreases s.len(),
{
    if s.len() == 0 {
        0
    } else {
        total(s.drop_last()) + s.last()
    }
}

proof fn lemma_total_bound(s: Seq<u64>)
    ensures
        0 <= total(s) <= s.len() * (u64::MAX as int),
    decreases s.len(),
{
    if s.len() > 0 {
        lemma_total_bound(s.drop_last());
    }
}

/// Integer performance bookkeeping of a collector.
#[derive(Debug)]
pub struct PerformanceMonitor {
    config: PerformanceConfig,
    events_processed: u64,
    events_in_current_window: u64,
    window_start_ms: u64,
    memory_samples: Vec<u64>,
    peak_memory_usage: u64,
    last_memory_measurement: Option<(u64, u64)>,
    trigger_latency_samples: Vec<u64>,
    trigger_count: u64,
    active_timers: StrMap<u64>,
}

/// A view of the monitor's counters and windows.
pub struct PerformanceView {
    /// Events processed
    pub events_processed: u64,
    /// Events in the current window
    pub window_events: u64,
    /// When the window started
    pub window_start_ms: u64,
    /// Memory samples, oldest first
    pub memory_samples: Seq<u64>,
    /// Peak memory seen
    pub peak_memory: u64,
    /// The last memory measurement and its instant
    pub last_memory: Option<(u64, u64)>,
    /// Trigger latencies in milliseconds, oldest first
    pub latency_samples: Seq<u64>,
    /// Triggers completed
    pub trigger_count: u64,
    /// Start instants of triggers under way, by trigger id
    pub timers: Map<Seq<char>, u64>,
}

impl PerformanceMonitor {
    /// The configuration in force.
    pub closed spec fn config_spec(&self) -> PerformanceConfig {
        self.config
    }

    /// The counters and windows.
    pub closed spec fn state(&self) -> PerformanceView {
        PerformanceView {
            events_processed: self.events_processed,
            window_events: self.events_in_current_window,
            window_start_ms: self.window_start_ms,
            memory_samples: self.memory_samples@,
            peak_memory: self.peak_memory_usage,
            last_memory: self.last_memory_measurement,
            latency_samples: self.trigger_latency_samples@,
            trigger_count: self.trigger_count,
            timers: self.active_timers@,
        }
    }

    /// A monitor with zeroed counters whose window starts at `now_ms`.
    pub fn new(config: PerformanceConfig, now_ms: u64) -> (m: Self)
        ensures
            m.config_spec() == config,
            m.state() == (PerformanceView {
                events_processed: 0,
                window_events: 0,
                window_start_ms: now_ms,
                memory_samples: Seq::empty(),
                peak_memory: 0,
                last_memory: None,
                latency_samples: Seq::empty(),
                trigger_count: 0,
                timers: Map::empty(),
            }),
    {
        PerformanceMonitor {
            config,
            events_processed: 0,
            events_in_current_window: 0,
            window_start_ms: now_ms,
            memory_samples: Vec::new(),
            peak_memory_usage: 0,
            last_memory_measurement: None,
            trigger_latency_samples: Vec::new(),
            trigger_count: 0,
            active_timers: StrMap::new(),
        }
    }

    /// Counts an event, when monitoring is on.
    pub fn record_event(&mut self, event: &CollectionEvent)
        ensures
            final(self).config_spec() == old(self).config_spec(),
            !old(self).config_spec().enabled ==> final(self).state() == old(self).state(),
            old(self).config_spec().enabled ==> final(self).state() == (PerformanceView {
                events_processed: wrap_inc(old(self).state().events_processed),
                window_events: wrap_inc(old(self).state().window_events),
                ..old(self).state()
            }),
    {
        if !self.config.enabled {
            return;
        }
        self.events_processed = wrap_inc_exec(self.events_processed);
        self.events_in_current_window = wrap_inc_exec(self.events_in_current_window);
    }

    /// Starts the latency timer of `trigger_id` at `now_ms`, when latency tracking is on.
    pub fn record_trigger_start(&mut self, trigger_id: &str, now_ms: u64)
        ensures
            final(self).config_spec() == old(self).config_spec(),
            !(old(self).config_spec().enabled && old(self).config_spec().enable_trigger_latency_tracking) ==> final(self).state() == old(self).state(),
            old(self).config_spec().enabled && old(self).config_spec().enable_trigger_latency_tracking ==> final(self).state() == (PerformanceView {
                timers: old(self).state().timers.insert(trigger_id@, now_ms),
                ..old(self).state()
            }),
    {
        if !self.config.enabled || !self.config.enable_trigger_latency_tracking {
            return;
        }
        self.active_timers.insert(String::from_str(trigger_id), now_ms);
    }

    /// Stops the latency timer of `trigger_id` at `now_ms` and records the latency, when
    /// latency tracking is on and the timer runs; returns the latency recorded.
    pub fn record_trigger_completion(&mut self, trigger_id: &str, trigger: &TriggerRequest, now_ms: u64) -> (latency: Option<u64>)
        ensures
            final(self).config_spec() == old(self).config_spec(),
            !(old(self).config_spec().enabled && old(self).config_spec().enable_trigger_latency_tracking) ==> final(self).state()
                == old(self).state() && latency is None,
            old(self).config_spec().enabled && old(self).config_spec().enable_trigger_latency_tracking ==> {
                let before = old(self).state();
                if before.timers.contains_key(trigger_id@) {
                    let l = if now_ms >= before.timers[trigger_id@] { (now_ms - before.timers[trigger_id@]) as u64 } else { 0u64 };
                    &&& latency == Some(l)
                    &&& final(self).state() == (PerformanceView {
                        timers: before.timers.remove(trigger_id@),
                        latency_samples: window_push(before.latency_samples, l, old(self).config_spec().max_latency_samples),
                        trigger_count: wrap_inc(before.trigger_count),
                        ..before
                    })
                } else {
                    &&& latency is None
                    &&& final(self).state() == (PerformanceView { timers: before.timers.remove(trigger_id@), ..before })
                }
            },
    {
        if !self.config.enabled || !self.config.enable_trigger_latency_tracking {
            return None;
        }
        match self.active_timers.remove(trigger_id) {
            None => None,
            Some(start) => {
                let l = if now_ms >= start {
                    now_ms - start
                } else {
                    0
                };
                push_bounded(&mut self.trigger_latency_samples, l, self.config.max_latency_samples);
                self.trigger_count = wrap_inc_exec(self.trigger_count);
                Some(l)
            },
        }
    }

    /// Records a memory measurement taken at `now_ms`, when monitoring is on.
    pub fn update_memory_usage(&mut self, memory_bytes: u64, now_ms: u64)
        ensures
            final(self).config_spec() == old(self).config_spec(),
            !old(self).config_spec().enabled ==> final(self).state() == old(self).state(),
            old(self).config_spec().enabled ==> final(self).state() == (PerformanceView {
                memory_samples: window_push(old(self).state().memory_samples, memory_bytes, old(self).config_spec().max_throughput_samples),
                peak_memory: if memory_bytes > old(self).state().peak_memory { memory_bytes } else { old(self).state().peak_memory },
                last_memory: Some((memory_bytes, now_ms)),
                ..old(self).state()
            }),
    {
        if !self.config.enabled {
            return;
        }
        push_bounded(&mut self.memory_samples, memory_bytes, self.config.max_throughput_samples);
        if memory_bytes > self.peak_memory_usage {
            self.peak_memory_usage = memory_bytes;
        }
        self.last_memory_measurement = Some((memory_bytes, now_ms));
    }

    /// The current, peak and average memory: the latest sample, the peak seen and the
    /// floor of the samples' mean (zero without samples).
    pub fn memory_summary(&self) -> (r: (u64, u64, u64))
        ensures
            self.state().memory_samples.len() == 0 ==> r == (0u64, self.state().peak_memory, 0u64),
            self.state().memory_samples.len() > 0 ==> r == (
                self.state().memory_samples.last(),
                self.state().peak_memory,
                (total(self.state().memory_samples) / (self.state().memory_samples.len() as int)) as u64,
            ),
    {
        let n = self.memory_samples.len();
        if n == 0 {
            return (0, self.peak_memory_usage, 0);
        }
        let mut sum: u128 = 0;
        let mut i: usize = 0;
        while i < n
            invariant
                n == self.memory_samples@.len(),
                i <= n,
                sum == total(self.memory_samples@.take(i as int)),
            decreases n - i,
        {
            proof {
                assert(self.memory_samples@.take(i as int + 1).drop_last() =~= self.memory_samples@.take(i as int));
                lemma_total_bound(self.memory_samples@.take(i as int + 1));
                assert((i as int + 1) * (u64::MAX as int) <= (u64::MAX as int) * (u64::MAX as int)) by (nonlinear_arith)
                    requires
                        i + 1 <= n,
                        n <= u64::MAX,
                ;
            }
            sum = sum + self.memory_samples[i] as u128;
            i = i + 1;
        }
        assert(self.memory_samples@.take(n as int) =~= self.memory_samples@);
        proof {
            lemma_total_bound(self.memory_samples@);
            assert(total(self.memory_samples@) / (n as int) <= u64::MAX) by (nonlinear_arith)
                requires
                    0 <= total(self.memory_samples@) <= n * (u64::MAX as int),
                    n > 0,
            ;
        }
        let avg = (sum / (n as u128)) as u64;
        (self.memory_samples[n - 1], self.peak_memory_usage, avg)
    }

    /// Restarts the throughput window at `now_ms`.
    pub fn reset_window(&mut self, now_ms: u64)
        ensures
            final(self).config_spec() == old(self).config_spec(),
            final(self).state() == (PerformanceView { window_events: 0, window_start_ms: now_ms, ..old(self).state() }),
    {
        self.window_start_ms = now_ms;
        self.events_in_current_window = 0;
    }

    /// Events processed.
    pub fn events_processed(&self) -> (n: u64)
        ensures
            n == self.state().events_processed,
    {
        self.events_processed
    }

    /// Events in the current window.
    pub fn events_in_current_window(&self) -> (n: u64)
        ensures
            n == self.state().window_events,
    {
        self.events_in_current_window
    }

    /// When the current window started.
    pub fn window_start_ms(&self) -> (t: u64)
        ensures
            t == self.state().window_start_ms,
    {
        self.window_start_ms
    }

    /// Triggers completed.
    pub fn trigger_count(&self) -> (n: u64)
        ensures
            n == self.state().trigger_count,
    {
        self.trigger_count
    }

    /// The trigger latencies kept, oldest first.
    pub fn latency_samples(&self) -> (v: &Vec<u64>)
        ensures
            v@ == self.state().latency_samples,
    {
        &self.trigger_latency_samples
    }

    /// The memory samples kept, oldest first.
    pub fn memory_samples(&self) -> (v: &Vec<u64>)
        ensures
            v@ == self.state().memory_samples,
    {
        &self.memory_samples
    }

    /// The last memory measurement and its instant.
    pub fn last_memory_measurement(&self) -> (r: Option<(u64, u64)>)
        ensures
            r == self.state().last_memory,
    {
        self.last_memory_measurement
    }

    /// The configuration in force.
    pub fn config(&self) -> (c: PerformanceConfig)
        ensures
            c == self.config_spec(),
    {
        self.config
    }
}

/// A sample window never grows past its bound once it is within it.
pub proof fn law_window_bounded(s: Seq<u64>, x: u64, max: usize)
    requires
        s.len() <= max,
    ensures
        window_push(s, x, max).len() <= max,
{
}

} // verus!
