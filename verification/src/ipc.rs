//! The collector's IPC server: which detection tasks it admits and how it advertises its
//! capabilities. Sockets, framing and the task handler run outside.

use crate::source::SourceCaps;
use vstd::prelude::*;

verus! {

/// Detection task types of the wire protocol.
#[derive(Debug, Clone, Copy, PartialEq, Eq, Structural)]
pub enum TaskType {
    /// Enumerate processes
    EnumerateProcesses,
    /// Check a process hash
    CheckProcessHash,
    /// Monitor a process tree
    MonitorProcessTree,
    /// Verify an executable
    VerifyExecutable,
    /// Monitor network connections
    MonitorNetworkConnections,
    /// Track file operations
    TrackFileOperations,
    /// Collect performance metrics
    CollectPerformanceMetrics,
    /// A type the protocol knows that no collector serves
    Other,
}

/// Monitoring domains a collector advertises.
#[derive(Debug, Clone, Copy, PartialEq, Eq, Structural)]
pub enum MonitoringDomain {
    /// Processes
    Process,
    /// Network
    Network,
    /// Filesystem
    Filesystem,
    /// Performance
    Performance,
}

/// Advanced capabilities a collector advertises.
#[derive(Debug, Clone, Copy, PartialEq, Eq)]
pub struct AdvancedCapabilities {
    /// Kernel-level access
    pub kernel_level: bool,
    /// Real-time streaming
    pub realtime: bool,
    /// System-wide monitoring
    pub system_wide: bool,
}

/// The capabilities a collector advertises.
#[derive(Debug, Clone, PartialEq, Eq)]
pub struct CollectionCapabilities {
    /// Supported domains, in the order process, network, filesystem, performance
    pub supported_domains: Vec<MonitoringDomain>,
    /// Advanced capabilities
    pub advanced: Option<AdvancedCapabilities>,
}

/// The domains `caps` supports, in advertising order.
pub open spec fn domains_of(caps: SourceCaps) -> Seq<MonitoringDomain> {
    let s0 = Seq::<MonitoringDomain>::empty();
    let s1 = if caps.has(SourceCaps { bits: 1 }) { s0.push(MonitoringDomain::Process) } else { s0 };
    let s2 = if caps.has(SourceCaps { bits: 2 }) { s1.push(MonitoringDomain::Network) } else { s1 };
    let s3 = if caps.has(SourceCaps { bits: 4 }) { s2.push(MonitoringDomain::Filesystem) } else { s2 };
    if caps.has(SourceCaps { bits: 8 }) { s3.push(MonitoringDomain::Performance) } else { s3 }
}

/// The advertised form of capability flags.
pub fn source_caps_to_proto_capabilities(caps: SourceCaps) -> (c: CollectionCapabilities)
    ensures
        c.supported_domains@ == domains_of(caps),
        c.advanced == Some(AdvancedCapabilities {
            kernel_level: caps.has(SourceCaps { bits: 32 }),
            realtime: caps.has(SourceCaps { bits: 16 }),
            system_wide: caps.has(SourceCaps { bits: 64 }),
        }),
{
    let mut domains: Vec<MonitoringDomain> = Vec::new();
    if caps.contains(SourceCaps::process()) {
        domains.push(MonitoringDomain::Process);
    }
    if caps.contains(SourceCaps::network()) {
        domains.push(MonitoringDomain::Network);
    }
    if caps.contains(SourceCaps::filesystem()) {
        domains.push(MonitoringDomain::Filesystem);
    }
    if caps.contains(SourceCaps::performance()) {
        domains.push(MonitoringDomain::Performance);
    }
    CollectionCapabilities {
        supported_domains: domains,
        advanced: Some(AdvancedCapabilities {
            kernel_level: caps.contains(SourceCaps::kernel_level()),
            realtime: caps.contains(SourceCaps::realtime()),
            system_wide: caps.contains(SourceCaps::system_wide()),
        }),
    }
}

/// Why a detection task is not admitted.
#[derive(Debug, Clone, PartialEq, Eq)]
pub enum TaskRejection {
    /// The server is shutting down
    ShuttingDown,
    /// No process capability
    ProcessUnsupported,
    /// No network capability
    NetworkUnsupported,
    /// No filesystem capability
    FilesystemUnsupported,
    /// No performance capability
    PerformanceUnsupported,
    /// A known task type no collector serves (its wire number)
    UnsupportedType(i32),
    /// A wire number that names no task type
    UnknownType(i32),
}

/// The rejection of a task of wire number `raw`, decoded as `task_type`, under `caps`,
/// if any.
pub open spec fn capability_rejection(task_type: Option<TaskType>, raw: i32, caps: SourceCaps) -> Option<TaskRejection> {
    match task_type {
        None => Some(TaskRejection::UnknownType(raw)),
        Some(t) => match t {
            TaskType::EnumerateProcesses | TaskType::CheckProcessHash | TaskType::MonitorProcessTree
            | TaskType::VerifyExecutable => if caps.has(SourceCaps { bits: 1 }) {
                None
            } else {
                Some(TaskRejection::ProcessUnsupported)
            },
            TaskType::MonitorNetworkConnections => if caps.has(SourceCaps { bits: 2 }) {
                None
            } else {
                Some(TaskRejection::NetworkUnsupported)
            },
            TaskType::TrackFileOperations => if caps.has(SourceCaps { bits: 4 }) {
                None
            } else {
                Some(TaskRejection::FilesystemUnsupported)
            },
            TaskType::CollectPerformanceMetrics => if caps.has(SourceCaps { bits: 8 }) {
                None
            } else {
                Some(TaskRejection::PerformanceUnsupported)
            },
            TaskType::Other => Some(TaskRejection::UnsupportedType(raw)),
        },
    }
}

/// Checks that a task of wire number `raw`, decoded as `task_type` (`None` when the number
/// names no type), is served under `caps`.
pub fn validate_task_capabilities(task_type: Option<TaskType>, raw: i32, caps: SourceCaps) -> (r: Result<(), TaskRejection>)
    ensures
        capability_rejection(task_type, raw, caps) matches Some(e) ==> r == Err::<(), TaskRejection>(e),
        capability_rejection(task_type, raw, caps) is None ==> r is Ok,
{
    match task_type {
        None => Err(TaskRejection::UnknownType(raw)),
        Some(t) => match t {
            TaskType::EnumerateProcesses | TaskType::CheckProcessHash | TaskType::MonitorProcessTree
            | TaskType::VerifyExecutable => if caps.contains(SourceCaps::process()) {
                Ok(())
            } else {
                Err(TaskRejection::ProcessUnsupported)
            },
            TaskType::MonitorNetworkConnections => if caps.contains(SourceCaps::network()) {
                Ok(())
            } else {
                Err(TaskRejection::NetworkUnsupported)
            },
            TaskType::TrackFileOperations => if caps.contains(SourceCaps::filesystem()) {
                Ok(())
            } else {
                Err(TaskRejection::FilesystemUnsupported)
            },
            TaskType::CollectPerformanceMetrics => if caps.contains(SourceCaps::performance()) {
                Ok(())
            } else {
                Err(TaskRejection::PerformanceUnsupported)
            },
            TaskType::Other => Err(TaskRejection::UnsupportedType(raw)),
        },
    }
}

/// The message of a rejection, as the failed detection result carries it.
pub fn rejection_message(e: &TaskRejection) -> (s: String)
    ensures
        *e == TaskRejection::ShuttingDown ==> s@ == "Server is shutting down"@,
        *e == TaskRejection::ProcessUnsupported ==> s@ == "Process monitoring not supported"@,
        *e == TaskRejection::NetworkUnsupported ==> s@ == "Network monitoring not supported"@,
        *e == TaskRejection::FilesystemUnsupported ==> s@ == "Filesystem monitoring not supported"@,
        *e == TaskRejection::PerformanceUnsupported ==> s@ == "Performance monitoring not supported"@,
        e matches TaskRejection::UnsupportedType(n) ==> s@ == "Unsupported task type: "@ + crate::support::decimal_i32(*n),
        e matches TaskRejection::UnknownType(n) ==> s@ == "Unknown task type: "@ + crate::support::decimal_i32(*n),
{
    match e {
        TaskRejection::ShuttingDown => String::from_str("Server is shutting down"),
        TaskRejection::ProcessUnsupported => String::from_str("Process monitoring not supported"),
        TaskRejection::NetworkUnsupported => String::from_str("Network monitoring not supported"),
        TaskRejection::FilesystemUnsupported => String::from_str("Filesystem monitoring not supported"),
        TaskRejection::PerformanceUnsupported => String::from_str("Performance monitoring not supported"),
        TaskRejection::UnsupportedType(n) => {
            let d = crate::support::decimal_i32_string(*n);
            String::from_str("Unsupported task type: ").concat(d.as_str())
        },
        TaskRejection::UnknownType(n) => {
            let d = crate::support::decimal_i32_string(*n);
            String::from_str("Unknown task type: ").concat(d.as_str())
        },
    }
}

/// The collector's IPC server state: its capabilities and whether it shuts down.
#[derive(Debug)]
pub struct CollectorIpcServer {
    capabilities: SourceCaps,
    shutdown_signal: bool,
    running: bool,
}

impl CollectorIpcServer {
    /// The capabilities served.
    pub closed spec fn caps(&self) -> SourceCaps {
        self.capabilities
    }

    /// Whether shutdown was signalled.
    pub closed spec fn stopping(&self) -> bool {
        self.shutdown_signal
    }

    /// Whether the server runs.
    pub closed spec fn is_running(&self) -> bool {
        self.running
    }

    /// A stopped server serving `capabilities`.
    pub fn new(capabilities: SourceCaps) -> (s: Self)
        ensures
            s.caps() == capabilities,
            !s.stopping(),
            !s.is_running(),
    {
        CollectorIpcServer { capabilities, shutdown_signal: false, running: false }
    }

    /// Records that the server started.
    pub fn mark_started(&mut self)
        ensures
            final(self).is_running(),
            final(self).caps() == old(self).caps(),
            final(self).stopping() == old(self).stopping(),
    {
        self.running = true;
    }

    /// Whether a task of wire number `raw`, decoded as `task_type`, is admitted: not while
    /// shutting down, and only when the capabilities serve it.
    pub fn admit_task(&self, task_type: Option<TaskType>, raw: i32) -> (r: Result<(), TaskRejection>)
        ensures
            self.stopping() ==> r == Err::<(), TaskRejection>(TaskRejection::ShuttingDown),
            !self.stopping() ==> (capability_rejection(task_type, raw, self.caps()) matches Some(e) ==> r == Err::<(), TaskRejection>(e)),
            !self.stopping() && capability_rejection(task_type, raw, self.caps()) is None ==> r is Ok,
    {
        if self.shutdown_signal {
            return Err(TaskRejection::ShuttingDown);
        }
        validate_task_capabilities(task_type, raw, self.capabilities)
    }

    /// The advertised capabilities.
    pub fn get_capabilities(&self) -> (c: CollectionCapabilities)
        ensures
            c.supported_domains@ == domains_of(self.caps()),
            c.advanced == Some(AdvancedCapabilities {
                kernel_level: self.caps().has(SourceCaps { bits: 32 }),
                realtime: self.caps().has(SourceCaps { bits: 16 }),
                system_wide: self.caps().has(SourceCaps { bits: 64 }),
            }),
    {
        source_caps_to_proto_capabilities(self.capabilities)
    }

    /// Replaces the capabilities served.
    pub fn update_capabilities(&mut self, new_capabilities: SourceCaps)
        ensures
            final(self).caps() == new_capabilities,
            final(self).stopping() == old(self).stopping(),
            final(self).is_running() == old(self).is_running(),
    {
        self.capabilities = new_capabilities;
    }

    /// Signals shutdown and stops the server; tasks are refused from now on.
    pub fn shutdown(&mut self)
        ensures
            final(self).stopping(),
            !final(self).is_running(),
            final(self).caps() == old(self).caps(),
    {
        self.shutdown_signal = true;
        self.running = false;
    }
}

} // verus!
