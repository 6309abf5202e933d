//! Component health tracking with worst-of aggregation, and the health, configuration and
//! registration answers a collector gives over RPC.
//!
//! Instants are Unix milliseconds handed in by the caller.

use crate::strmap::StrMap;
use crate::trigger::clone_opt_string;
use vstd::prelude::*;

verus! {

/// Health of a component or of the whole collector.
#[derive(Debug, Clone, Copy, PartialEq, Eq, Structural)]
pub enum HealthStatus {
    /// Healthy
    Healthy,
    /// Degraded but functional
    Degraded,
    /// Unhealthy
    Unhealthy,
    /// Not known
    Unknown,
}

/// Whether a status counts as a failure.
pub open spec fn is_failure(s: HealthStatus) -> bool {
    s == HealthStatus::Degraded || s == HealthStatus::Unhealthy
}

/// The worst status among `s`: unhealthy over degraded over healthy; unknown when `s` holds
/// none of these.
pub open spec fn worst_of(s: Seq<HealthStatus>) -> HealthStatus {
    if s.contains(HealthStatus::Unhealthy) {
        HealthStatus::Unhealthy
    } else if s.contains(HealthStatus::Degraded) {
        HealthStatus::Degraded
    } else if s.contains(HealthStatus::Healthy) {
        HealthStatus::Healthy
    } else {
        HealthStatus::Unknown
    }
}

/// The worst status among `statuses` (see [`worst_of`]).
pub fn aggregate_worst_of(statuses: &Vec<HealthStatus>) -> (r: HealthStatus)
    ensures
        r == worst_of(statuses@),
{
    let mut has_healthy = false;
    let mut has_degraded = false;
    let mut has_unhealthy = false;
    let mut i: usize = 0;
    while i < statuses.len()
        invariant
            i <= statuses@.len(),
            has_healthy == statuses@.take(i as int).contains(HealthStatus::Healthy),
            has_degraded == statuses@.take(i as int).contains(HealthStatus::Degraded),
            has_unhealthy == statuses@.take(i as int).contains(HealthStatus::Unhealthy),
        decreases statuses@.len() - i,
    {
        let s = statuses[i];
        proof {
            let t = statuses@.take(i as int);
            let t1 = statuses@.take(i as int + 1);
            assert(t1 =~= t.push(s));
            assert forall|x: HealthStatus| t1.contains(x) <==> (t.contains(x) || x == s) by {
                if t1.contains(x) {
                    let j = choose|j: int| 0 <= j < t1.len() && t1[j] == x;
                    if j < t.len() {
                        assert(t[j] == x);
                    }
                }
                if t.contains(x) {
                    let j = choose|j: int| 0 <= j < t.len() && t[j] == x;
                    assert(t1[j] == x);
                }
                if x == s {
                    assert(t1[i as int] == x);
                }
            }
        }
        match s {
            HealthStatus::Unhealthy => {
                has_unhealthy = true;
            },
            HealthStatus::Degraded => {
                has_degraded = true;
            },
            HealthStatus::Healthy => {
                has_healthy = true;
            },
            HealthStatus::Unknown => {},
        }
        i = i + 1;
    }
    assert(statuses@.take(statuses@.len() as int) =~= statuses@);
    if has_unhealthy {
        HealthStatus::Unhealthy
    } else if has_degraded {
        HealthStatus::Degraded
    } else if has_healthy {
        HealthStatus::Healthy
    } else {
        HealthStatus::Unknown
    }
}

/// A snapshot of one component's health.
#[derive(Debug, Clone, PartialEq, Eq)]
pub struct ComponentHealthStatus {
    /// Component name
    pub name: String,
    /// Current status
    pub status: HealthStatus,
    /// When the component was last checked
    pub last_check_ms: u64,
    /// Number of health updates recorded
    pub check_count: u64,
    /// Number of failures recorded (degraded or unhealthy updates)
    pub failure_count: u64,
    /// Diagnostic message
    pub message: Option<String>,
}

impl ComponentHealthStatus {
    /// A snapshot of `name` in `status`, checked at `now_ms`, with no updates counted.
    pub fn new(name: &str, status: HealthStatus, message: Option<String>, now_ms: u64) -> (c: Self)
        ensures
            c.name@ == name@,
            c.status == status,
            c.last_check_ms == now_ms,
            c.check_count == 0,
            c.failure_count == 0,
            c.message == message,
    {
        ComponentHealthStatus { name: String::from_str(name), status, last_check_ms: now_ms, check_count: 0, failure_count: 0, message }
    }

    /// A copy of this snapshot.
    pub fn duplicate(&self) -> (c: Self)
        ensures
            c == *self,
    {
        ComponentHealthStatus {
            name: self.name.clone(),
            status: self.status,
            last_check_ms: self.last_check_ms,
            check_count: self.check_count,
            failure_count: self.failure_count,
            message: clone_opt_string(&self.message),
        }
    }
}

/// `x + 1`, or `u64::MAX` when that overflows.
pub open spec fn sat_inc(x: u64) -> u64 {
    if x == u64::MAX {
        x
    } else {
        (x + 1) as u64
    }
}

/// The statuses of the components of `m`, in registration order.
pub open spec fn statuses_of(m: StrMap<ComponentHealthStatus>) -> Seq<HealthStatus> {
    Seq::new(m.keys().len(), |i: int| m.value_at_spec(i).status)
}

/// Tracks component health and the aggregated collector health.
#[derive(Debug)]
pub struct HealthMonitor {
    collector_id: String,
    components: StrMap<ComponentHealthStatus>,
    overall_status: HealthStatus,
    health_check_interval_ms: u64,
}

impl HealthMonitor {
    /// The collector monitored.
    pub closed spec fn collector(&self) -> String {
        self.collector_id
    }

    /// The component snapshots, by name.
    pub closed spec fn components_map(&self) -> Map<Seq<char>, ComponentHealthStatus> {
        self.components@
    }

    /// The component snapshots with their registration order.
    pub closed spec fn component_table(&self) -> StrMap<ComponentHealthStatus> {
        self.components
    }

    /// The cached overall health.
    pub closed spec fn overall(&self) -> HealthStatus {
        self.overall_status
    }

    /// The aggregation interval.
    pub closed spec fn interval(&self) -> u64 {
        self.health_check_interval_ms
    }

    /// A monitor with no components and an unknown overall health.
    pub fn new(collector_id: String, health_check_interval_ms: u64) -> (m: Self)
        ensures
            m.collector() == collector_id,
            m.components_map() == Map::<Seq<char>, ComponentHealthStatus>::empty(),
            m.overall() == HealthStatus::Unknown,
            m.interval() == health_check_interval_ms,
    {
        HealthMonitor { collector_id, components: StrMap::new(), overall_status: HealthStatus::Unknown, health_check_interval_ms }
    }

    /// The aggregation interval.
    pub fn health_check_interval_ms(&self) -> (n: u64)
        ensures
            n == self.interval(),
    {
        self.health_check_interval_ms
    }

    /// Registers `name` in `initial` at `now_ms`, replacing any earlier snapshot: one
    /// check counted, and one failure when the initial status is one.
    pub fn register_component(&mut self, name: &str, initial: HealthStatus, now_ms: u64)
        ensures
            final(self).components_map() == old(self).components_map().insert(
                name@,
                ComponentHealthStatus {
                    name: final(self).components_map()[name@].name,
                    status: initial,
                    last_check_ms: now_ms,
                    check_count: 1,
                    failure_count: if is_failure(initial) { 1 } else { 0 },
                    message: None,
                },
            ),
            final(self).components_map()[name@].name@ == name@,
            final(self).overall() == old(self).overall(),
            final(self).collector() == old(self).collector(),
            final(self).interval() == old(self).interval(),
    {
        let mut entry = ComponentHealthStatus::new(name, initial, None, now_ms);
        entry.check_count = 1;
        if initial == HealthStatus::Degraded || initial == HealthStatus::Unhealthy {
            entry.failure_count = 1;
        }
        self.components.insert(String::from_str(name), entry);
    }

    /// Records `status` and `message` for `name` at `now_ms`, creating the snapshot when
    /// the component is new: one more check, and one more failure for a failure status
    /// (both saturating).
    pub fn update_component_health(&mut self, name: &str, status: HealthStatus, message: Option<String>, now_ms: u64)
        ensures
            ({
                let before = if old(self).components_map().contains_key(name@) {
                    old(self).components_map()[name@]
                } else {
                    ComponentHealthStatus {
                        name: final(self).components_map()[name@].name,
                        status: HealthStatus::Unknown,
                        last_check_ms: now_ms,
                        check_count: 0,
                        failure_count: 0,
                        message: None,
                    }
                };
                final(self).components_map() == old(self).components_map().insert(
                    name@,
                    ComponentHealthStatus {
                        name: before.name,
                        status,
                        last_check_ms: now_ms,
                        check_count: sat_inc(before.check_count),
                        failure_count: if is_failure(status) { sat_inc(before.failure_count) } else { before.failure_count },
                        message,
                    },
                )
            }),
            final(self).components_map()[name@].name@ == name@ || old(self).components_map().contains_key(name@),
            final(self).overall() == old(self).overall(),
            final(self).collector() == old(self).collector(),
            final(self).interval() == old(self).interval(),
    {
        let before = match self.components.get(name) {
            Some(c) => c.duplicate(),
            None => ComponentHealthStatus::new(name, HealthStatus::Unknown, None, now_ms),
        };
        let check_count = if before.check_count == u64::MAX {
            before.check_count
        } else {
            before.check_count + 1
        };
        let failure_count = if status == HealthStatus::Degraded || status == HealthStatus::Unhealthy {
            if before.failure_count == u64::MAX {
                before.failure_count
            } else {
                before.failure_count + 1
            }
        } else {
            before.failure_count
        };
        let entry = ComponentHealthStatus { name: before.name, status, last_check_ms: now_ms, check_count, failure_count, message };
        self.components.insert(String::from_str(name), entry);
    }

    /// A copy of the snapshot of `name`, if it is registered.
    pub fn get_component_health(&self, name: &str) -> (r: Option<ComponentHealthStatus>)
        ensures
            self.components_map().contains_key(name@) ==> r == Some(self.components_map()[name@]),
            !self.components_map().contains_key(name@) ==> r is None,
    {
        match self.components.get(name) {
            Some(c) => Some(c.duplicate()),
            None => None,
        }
    }

    /// The cached overall health.
    pub fn get_overall_health(&self) -> (s: HealthStatus)
        ensures
            s == self.overall(),
    {
        self.overall_status
    }

    /// Copies of every snapshot, in registration order.
    pub fn get_all_components(&self) -> (v: Vec<ComponentHealthStatus>)
        ensures
            v@.len() == self.component_table().keys().len(),
            forall|i: int| 0 <= i < v@.len() ==> #[trigger] v@[i] == self.component_table().value_at_spec(i),
    {
        let mut v: Vec<ComponentHealthStatus> = Vec::new();
        let mut i: usize = 0;
        while i < self.components.len()
            invariant
                i <= self.components.keys().len(),
                v@.len() == i,
                forall|j: int| 0 <= j < i ==> #[trigger] v@[j] == self.components.value_at_spec(j),
            decreases self.components.keys().len() - i,
        {
            v.push(self.components.value_at(i).duplicate());
            i = i + 1;
        }
        v
    }

    /// One aggregation tick: the overall health becomes the worst component status.
    pub fn refresh_overall_health(&mut self) -> (s: HealthStatus)
        ensures
            s == worst_of(statuses_of(old(self).component_table())),
            final(self).overall() == s,
            final(self).component_table() == old(self).component_table(),
            final(self).collector() == old(self).collector(),
            final(self).interval() == old(self).interval(),
    {
        let mut statuses: Vec<HealthStatus> = Vec::new();
        let mut i: usize = 0;
        while i < self.components.len()
            invariant
                i <= self.components.keys().len(),
                statuses@ =~= statuses_of(self.components).take(i as int),
            decreases self.components.keys().len() - i,
        {
            statuses.push(self.components.value_at(i).status);
            i = i + 1;
        }
        assert(statuses@ =~= statuses_of(self.components));
        let s = aggregate_worst_of(&statuses);
        self.overall_status = s;
        s
    }
}

/// A component reported in a health answer.
#[derive(Debug, Clone, PartialEq, Eq)]
pub struct ComponentHealth {
    /// Component name
    pub name: String,
    /// Its status
    pub status: HealthStatus,
    /// Diagnostic message
    pub message: Option<String>,
    /// When it was checked
    pub last_check_ms: u64,
    /// How often it is checked, in seconds
    pub check_interval_seconds: u64,
}

/// The health answer of a collector (its float metrics travel beside it).
#[derive(Debug, Clone, PartialEq, Eq)]
pub struct HealthCheckData {
    /// Collector identifier
    pub collector_id: String,
    /// Overall status
    pub status: HealthStatus,
    /// Reported components
    pub components: Vec<ComponentHealth>,
    /// Last heartbeat
    pub last_heartbeat_ms: u64,
    /// Uptime in seconds (not tracked: always zero)
    pub uptime_seconds: u64,
    /// Error count (not tracked: always zero)
    pub error_count: u64,
}

/// The name of a status as it is printed.
pub open spec fn status_name(s: HealthStatus) -> Seq<char> {
    match s {
        HealthStatus::Healthy => "Healthy"@,
        HealthStatus::Degraded => "Degraded"@,
        HealthStatus::Unhealthy => "Unhealthy"@,
        HealthStatus::Unknown => "Unknown"@,
    }
}

/// The name of a status as it is printed.
pub fn status_text(s: HealthStatus) -> (t: String)
    ensures
        t@ == status_name(s),
{
    match s {
        HealthStatus::Healthy => String::from_str("Healthy"),
        HealthStatus::Degraded => String::from_str("Degraded"),
        HealthStatus::Unhealthy => String::from_str("Unhealthy"),
        HealthStatus::Unknown => String::from_str("Unknown"),
    }
}

/// Errors of the collector's RPC providers.
#[derive(Debug, Clone, PartialEq, Eq)]
pub enum ProviderError {
    /// The request named another collector (the id it named)
    ProcessNotFound(String),
    /// No configuration exists for the collector named (the message)
    ConfigNotFound(String),
    /// The registration request named another collector (the message)
    Validation(String),
    /// The collector is registered already (its id)
    AlreadyRegistered(String),
    /// The collector is not registered (the id)
    NotFound(String),
}

/// Answers health requests for one collector.
#[derive(Debug)]
pub struct CollectorHealthProvider {
    /// The collector answered for
    pub collector_id: String,
}

impl CollectorHealthProvider {
    /// The health of `collector_id` at `now_ms`, given the telemetry status when telemetry
    /// is attached. Another collector's id is refused. The telemetry, when present, is the
    /// one component reported, and the overall status is its status; with no components
    /// the overall status is unknown.
    pub fn get_collector_health(&self, collector_id: &str, telemetry: Option<HealthStatus>, now_ms: u64) -> (r: Result<HealthCheckData, ProviderError>)
        ensures
            collector_id@ != self.collector_id@ ==> (r matches Err(ProviderError::ProcessNotFound(id)) && id@ == collector_id@),
            collector_id@ == self.collector_id@ ==> (r matches Ok(d) && {
                &&& d.collector_id@ == collector_id@
                &&& d.last_heartbeat_ms == now_ms
                &&& d.uptime_seconds == 0
                &&& d.error_count == 0
                &&& match telemetry {
                    None => d.components@.len() == 0 && d.status == HealthStatus::Unknown,
                    Some(t) => {
                        &&& d.components@.len() == 1
                        &&& d.status == t
                        &&& d.components@[0].name@ == "telemetry"@
                        &&& d.components@[0].status == t
                        &&& d.components@[0].message matches Some(m) && m@ == "Status: "@ + status_name(t)
                        &&& d.components@[0].last_check_ms == now_ms
                        &&& d.components@[0].check_interval_seconds == 60
                    },
                }
            }),
    {
        if !crate::text::str_eq(collector_id, self.collector_id.as_str()) {
            return Err(ProviderError::ProcessNotFound(String::from_str(collector_id)));
        }
        let mut components: Vec<ComponentHealth> = Vec::new();
        let mut overall = HealthStatus::Unknown;
        match telemetry {
            Some(t) => {
                let message = String::from_str("Status: ").concat(status_text(t).as_str());
                components.push(ComponentHealth {
                    name: String::from_str("telemetry"),
                    status: t,
                    message: Some(message),
                    last_check_ms: now_ms,
                    check_interval_seconds: 60,
                });
                overall = t;
            },
            None => {},
        }
        Ok(HealthCheckData {
            collector_id: String::from_str(collector_id),
            status: overall,
            components,
            last_heartbeat_ms: now_ms,
            uptime_seconds: 0,
            error_count: 0,
        })
    }
}

/// The outcome of a configuration update.
#[derive(Debug, Clone, PartialEq, Eq)]
pub struct ConfigUpdateResult {
    /// Configuration version
    pub version: u64,
    /// The fields the update named
    pub changed_fields: Vec<String>,
    /// Whether the collector restarted
    pub restart_performed: bool,
    /// When the update was made
    pub timestamp_ms: u64,
}

/// Answers configuration requests for one collector.
#[derive(Debug)]
pub struct CollectorConfigProvider {
    /// The collector answered for
    pub collector_id: String,
}

/// The message of a configuration request for an unknown collector.
pub open spec fn config_not_found(id: Seq<char>) -> Seq<char> {
    "Collector "@ + id + " not found"@
}

impl CollectorConfigProvider {
    fn check_target(&self, collector_id: &str) -> (r: Result<(), ProviderError>)
        ensures
            collector_id@ == self.collector_id@ ==> r is Ok,
            collector_id@ != self.collector_id@ ==> (r matches Err(ProviderError::ConfigNotFound(m)) && m@ == config_not_found(collector_id@)),
    {
        if !crate::text::str_eq(collector_id, self.collector_id.as_str()) {
            let m = String::from_str("Collector ").concat(collector_id).concat(" not found");
            return Err(ProviderError::ConfigNotFound(m));
        }
        Ok(())
    }

    /// Whether a configuration exists for `collector_id` (the default one is served for
    /// this collector; any other is unknown).
    pub fn get_config(&self, collector_id: &str) -> (r: Result<(), ProviderError>)
        ensures
            collector_id@ == self.collector_id@ ==> r is Ok,
            collector_id@ != self.collector_id@ ==> (r matches Err(ProviderError::ConfigNotFound(m)) && m@ == config_not_found(collector_id@)),
    {
        self.check_target(collector_id)
    }

    /// Accepts an update naming `changed_fields` at `now_ms` without applying it: version
    /// one, the named fields echoed, no restart.
    pub fn update_config(&self, collector_id: &str, changed_fields: Vec<String>, now_ms: u64) -> (r: Result<ConfigUpdateResult, ProviderError>)
        ensures
            collector_id@ == self.collector_id@ ==> r == Ok::<ConfigUpdateResult, ProviderError>(ConfigUpdateResult {
                version: 1,
                changed_fields,
                restart_performed: false,
                timestamp_ms: now_ms,
            }),
            collector_id@ != self.collector_id@ ==> (r matches Err(ProviderError::ConfigNotFound(m)) && m@ == config_not_found(collector_id@)),
    {
        match self.check_target(collector_id) {
            Err(e) => Err(e),
            Ok(()) => Ok(ConfigUpdateResult { version: 1, changed_fields, restart_performed: false, timestamp_ms: now_ms }),
        }
    }

    /// Every configuration validates.
    pub fn validate_config(&self, collector_id: &str) -> (r: Result<(), ProviderError>)
        ensures
            r is Ok,
    {
        Ok(())
    }
}

/// A registration request.
#[derive(Debug, Clone, PartialEq, Eq)]
pub struct RegistrationRequest {
    /// Collector identifier
    pub collector_id: String,
    /// Requested heartbeat interval
    pub heartbeat_interval_ms: Option<u64>,
}

/// The answer to an accepted registration.
#[derive(Debug, Clone, PartialEq, Eq)]
pub struct RegistrationResponse {
    /// Collector identifier
    pub collector_id: String,
    /// Whether the registration was accepted
    pub accepted: bool,
    /// Heartbeat interval granted
    pub heartbeat_interval_ms: u64,
    /// Topics assigned
    pub assigned_topics: Vec<String>,
    /// Message
    pub message: Option<String>,
}

/// Answers registration requests for one collector, which registers at most once at a time.
#[derive(Debug)]
pub struct CollectorRegistrationProvider {
    collector_id: String,
    registered: bool,
}

impl CollectorRegistrationProvider {
    /// The collector answered for.
    pub closed spec fn collector(&self) -> String {
        self.collector_id
    }

    /// Whether the collector is registered.
    pub closed spec fn is_registered(&self) -> bool {
        self.registered
    }

    /// A provider for `collector_id`, not registered.
    pub fn new(collector_id: String) -> (p: Self)
        ensures
            p.collector() == collector_id,
            !p.is_registered(),
    {
        CollectorRegistrationProvider { collector_id, registered: false }
    }

    /// Registers the collector. Another collector's id is refused, and so is a second
    /// registration; an accepted one grants the requested heartbeat or 30 s.
    pub fn register_collector(&mut self, request: RegistrationRequest) -> (r: Result<RegistrationResponse, ProviderError>)
        ensures
            final(self).collector() == old(self).collector(),
            request.collector_id@ != old(self).collector()@ ==> final(self).is_registered() == old(self).is_registered()
                && (r matches Err(ProviderError::Validation(m)) && m@ == "Collector ID mismatch: expected "@
                + old(self).collector()@ + ", got "@ + request.collector_id@),
            request.collector_id@ == old(self).collector()@ && old(self).is_registered() ==> final(self).is_registered()
                && r == Err::<RegistrationResponse, ProviderError>(ProviderError::AlreadyRegistered(old(self).collector())),
            request.collector_id@ == old(self).collector()@ && !old(self).is_registered() ==> final(self).is_registered()
                && (r matches Ok(resp) && resp.collector_id == request.collector_id && resp.accepted
                && resp.heartbeat_interval_ms == (match request.heartbeat_interval_ms { Some(h) => h, None => 30_000u64 })
                && resp.assigned_topics@.len() == 0 && resp.message is None),
    {
        if !crate::text::str_eq(request.collector_id.as_str(), self.collector_id.as_str()) {
            let m = String::from_str("Collector ID mismatch: expected ")
                .concat(self.collector_id.as_str())
                .concat(", got ")
                .concat(request.collector_id.as_str());
            return Err(ProviderError::Validation(m));
        }
        if self.registered {
            return Err(ProviderError::AlreadyRegistered(self.collector_id.clone()));
        }
        self.registered = true;
        let heartbeat = match request.heartbeat_interval_ms {
            Some(h) => h,
            None => 30_000,
        };
        Ok(RegistrationResponse {
            collector_id: request.collector_id,
            accepted: true,
            heartbeat_interval_ms: heartbeat,
            assigned_topics: Vec::new(),
            message: None,
        })
    }

    /// Deregisters the collector. Another collector's id, or a collector that is not
    /// registered, is not found.
    pub fn deregister_collector(&mut self, collector_id: String) -> (r: Result<(), ProviderError>)
        ensures
            final(self).collector() == old(self).collector(),
            collector_id@ != old(self).collector()@ ==> final(self).is_registered() == old(self).is_registered()
                && r == Err::<(), ProviderError>(ProviderError::NotFound(collector_id)),
            collector_id@ == old(self).collector()@ && !old(self).is_registered() ==> !final(self).is_registered()
                && r == Err::<(), ProviderError>(ProviderError::NotFound(old(self).collector())),
            collector_id@ == old(self).collector()@ && old(self).is_registered() ==> !final(self).is_registered() && r is Ok,
    {
        if !crate::text::str_eq(collector_id.as_str(), self.collector_id.as_str()) {
            return Err(ProviderError::NotFound(collector_id));
        }
        if !self.registered {
            return Err(ProviderError::NotFound(self.collector_id.clone()));
        }
        self.registered = false;
        Ok(())
    }

    /// Accepts a heartbeat from this collector; another collector's is not found.
    pub fn update_heartbeat(&self, collector_id: &str) -> (r: Result<(), ProviderError>)
        ensures
            collector_id@ == self.collector()@ ==> r is Ok,
            collector_id@ != self.collector()@ ==> (r matches Err(ProviderError::NotFound(id)) && id@ == collector_id@),
    {
        if !crate::text::str_eq(collector_id, self.collector_id.as_str()) {
            return Err(ProviderError::NotFound(String::from_str(collector_id)));
        }
        Ok(())
    }
}

/// How bad a status is: unknown, healthy, degraded, unhealthy, in rising order.
pub open spec fn severity(s: HealthStatus) -> nat {
    match s {
        HealthStatus::Unknown => 0,
        HealthStatus::Healthy => 1,
        HealthStatus::Degraded => 2,
        HealthStatus::Unhealthy => 3,
    }
}

/// The aggregate status is the worst one reported: at least as bad as every status in the
/// list, itself one of them (unknown when the list holds only unknowns or nothing), and one
/// more report never makes it better.
pub proof fn law_worst_of_is_worst(s: Seq<HealthStatus>, x: HealthStatus)
    ensures
        forall|i: int| 0 <= i < s.len() ==> severity(worst_of(s)) >= severity(#[trigger] s[i]),
        worst_of(s) == HealthStatus::Unknown || s.contains(worst_of(s)),
        severity(worst_of(s.push(x))) >= severity(worst_of(s)),
        severity(worst_of(s.push(x))) >= severity(x),
{
    assert forall|i: int| 0 <= i < s.len() implies severity(worst_of(s)) >= severity(#[trigger] s[i]) by {
        assert(s.contains(s[i]));
    }
    let t = s.push(x);
    assert(t.contains(x)) by {
        assert(t[s.len() as int] == x);
    }
    assert forall|y: HealthStatus| s.contains(y) implies t.contains(y) by {
        let j = choose|j: int| 0 <= j < s.len() && s[j] == y;
        assert(t[j] == y);
    }
}

} // verus!
