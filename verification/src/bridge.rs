//! The IPC-to-broker bridge: its configuration, the translation between detection tasks
//! and broker events, and the bookkeeping of requests waiting for an answer.
//!
//! Channels, sockets and background tasks stay with the caller. A request waiting for an
//! answer is known here by its correlation id and the caller's ticket for the channel that
//! will carry the answer; the caller hands every translation message to
//! [`IpcBusrtBridge::process_translation_message`] and performs the action it returns.

use crate::strmap::StrMap;
use crate::support::{new_uuid_string, unix_now_millis};
use vstd::prelude::*;

verus! {

/// Bridge configuration.
#[derive(Debug, Clone, PartialEq, Eq)]
pub struct IpcBridgeConfig {
    /// IPC socket path
    pub ipc_socket_path: String,
    /// Run the legacy IPC server
    pub enable_legacy_ipc: bool,
    /// Connect to the broker
    pub enable_busrt: bool,
    /// Capacity of the translation queue
    pub message_buffer_size: usize,
    /// Translation timeout, in milliseconds
    pub translation_timeout_ms: u64,
    /// Topic prefix of broker messages
    pub topic_prefix: String,
    /// Log each translation
    pub enable_debug_logging: bool,
}

impl Default for IpcBridgeConfig {
    fn default() -> (c: Self)
        ensures
            c.ipc_socket_path@ == "/tmp/daemoneye-ipc.sock"@,
            c.enable_legacy_ipc,
            c.enable_busrt,
            c.message_buffer_size == 1000,
            c.translation_timeout_ms == 30_000,
            c.topic_prefix@ == "daemoneye"@,
            !c.enable_debug_logging,
    {
        IpcBridgeConfig {
            ipc_socket_path: String::from_str("/tmp/daemoneye-ipc.sock"),
            enable_legacy_ipc: true,
            enable_busrt: true,
            message_buffer_size: 1000,
            translation_timeout_ms: 30_000,
            topic_prefix: String::from_str("daemoneye"),
            enable_debug_logging: false,
        }
    }
}

/// The broker topics the bridge addresses.
#[derive(Debug, Clone, Copy, PartialEq, Eq, Structural)]
pub enum BusrtTopic {
    /// Process enumeration events
    EventsProcessEnumeration,
    /// Process hash events
    EventsProcessHash,
    /// Process lifecycle events
    EventsProcessLifecycle,
    /// Process metadata events
    EventsProcessMetadata,
    /// Collector lifecycle control
    ControlCollectorLifecycle,
    /// Collector health control
    ControlCollectorHealth,
    /// Agent task control
    ControlAgentTasks,
}

/// The IPC message kinds mapped to topics.
pub open spec fn mapping_spec() -> Map<Seq<char>, BusrtTopic> {
    map![
        "enumerate_processes"@ => BusrtTopic::EventsProcessEnumeration,
        "check_process_hash"@ => BusrtTopic::EventsProcessHash,
        "monitor_process_tree"@ => BusrtTopic::EventsProcessLifecycle,
        "verify_executable"@ => BusrtTopic::EventsProcessMetadata,
        "collector_lifecycle"@ => BusrtTopic::ControlCollectorLifecycle,
        "collector_health"@ => BusrtTopic::ControlCollectorHealth,
        "agent_tasks"@ => BusrtTopic::ControlAgentTasks,
    ]
}

/// The topic of a detection task of wire type `task_type`: the four process task types
/// map to their topics, and any other to process enumeration.
pub open spec fn task_topic(task_type: i32) -> BusrtTopic {
    if task_type == 1 {
        BusrtTopic::EventsProcessHash
    } else if task_type == 2 {
        BusrtTopic::EventsProcessLifecycle
    } else if task_type == 3 {
        BusrtTopic::EventsProcessMetadata
    } else {
        BusrtTopic::EventsProcessEnumeration
    }
}

/// A process as a broker event describes it.
#[derive(Debug, Clone, PartialEq, Eq)]
pub struct BusProcessRecord {
    /// Process id
    pub pid: u32,
    /// Process name
    pub name: String,
    /// Executable path
    pub executable_path: Option<String>,
}

/// What kind of process event a broker event reports.
#[derive(Debug, Clone, Copy, PartialEq, Eq, Structural)]
pub enum ProcessEventType {
    /// A process was discovered
    Discovery,
    /// Any other kind
    Other,
}

/// The payload of a broker event.
#[derive(Debug, Clone, PartialEq, Eq)]
pub enum EventPayload {
    /// A process event
    Process { process: BusProcessRecord, collection_cycle_id: String, event_type: ProcessEventType },
    /// Any other payload
    Other,
}

/// A broker event.
#[derive(Debug, Clone, PartialEq, Eq)]
pub struct BusrtEvent {
    /// Event identifier
    pub event_id: String,
    /// Correlation identifier
    pub correlation_id: Option<String>,
    /// When the event was made (Unix milliseconds)
    pub timestamp_ms: i64,
    /// The collector that made it
    pub source_collector: String,
    /// The topic it is published on
    pub topic: BusrtTopic,
    /// Its payload
    pub payload: EventPayload,
}

/// A process as a detection result reports it.
#[derive(Debug, Clone, PartialEq, Eq)]
pub struct ResultProcessRecord {
    /// Process id
    pub pid: u32,
    /// Parent process id
    pub ppid: Option<u32>,
    /// Process name
    pub name: String,
    /// Executable path
    pub executable_path: Option<String>,
    /// Command line
    pub command_line: Vec<String>,
    /// Start time
    pub start_time: Option<i64>,
    /// Memory usage in bytes
    pub memory_usage: Option<u64>,
    /// Executable hash
    pub executable_hash: Option<String>,
    /// Hash algorithm
    pub hash_algorithm: Option<String>,
    /// Owning user
    pub user_id: Option<String>,
    /// Whether the process could be inspected
    pub accessible: bool,
    /// Whether its executable exists
    pub file_exists: bool,
    /// When it was collected (Unix milliseconds)
    pub collection_time: i64,
}

/// A detection result as the bridge produces it (no hash, network, filesystem or
/// performance findings).
#[derive(Debug, Clone, PartialEq, Eq)]
pub struct DetectionResult {
    /// The task answered
    pub task_id: String,
    /// Whether the task succeeded
    pub success: bool,
    /// Why it failed
    pub error_message: Option<String>,
    /// Processes found
    pub processes: Vec<ResultProcessRecord>,
}

/// The broker event a detection task becomes, with identifier `event_id` made at
/// `timestamp_ms`.
pub fn event_from_task(task_id: &str, task_type: i32, correlation_id: String, event_id: String, timestamp_ms: i64) -> (e: BusrtEvent)
    ensures
        e.event_id == event_id,
        e.correlation_id == Some(correlation_id),
        e.timestamp_ms == timestamp_ms,
        e.source_collector@ == "ipc-bridge"@,
        e.topic == task_topic(task_type),
        e.payload matches EventPayload::Process { process, collection_cycle_id, event_type } && process.pid == 0
            && process.name@ == "translated_task"@ && process.executable_path is None && collection_cycle_id@ == task_id@
            && event_type == ProcessEventType::Discovery,
{
    let topic = if task_type == 1 {
        BusrtTopic::EventsProcessHash
    } else if task_type == 2 {
        BusrtTopic::EventsProcessLifecycle
    } else if task_type == 3 {
        BusrtTopic::EventsProcessMetadata
    } else {
        BusrtTopic::EventsProcessEnumeration
    };
    BusrtEvent {
        event_id,
        correlation_id: Some(correlation_id),
        timestamp_ms,
        source_collector: String::from_str("ipc-bridge"),
        topic,
        payload: EventPayload::Process {
            process: BusProcessRecord { pid: 0, name: String::from_str("translated_task"), executable_path: None },
            collection_cycle_id: String::from_str(task_id),
            event_type: ProcessEventType::Discovery,
        },
    }
}

/// Whether `e` is the broker event that the task `task_id` of type `task_type`, sent under
/// `correlation_id`, becomes: a fresh identifier of 36 characters, published by the bridge on
/// the topic of the task type, carrying a placeholder process discovered in the collection
/// cycle named after the task.
pub open spec fn event_of_task(e: BusrtEvent, task_id: Seq<char>, task_type: i32, correlation_id: String) -> bool {
    &&& e.event_id@.len() == 36
    &&& e.correlation_id == Some(correlation_id)
    &&& e.source_collector@ == "ipc-bridge"@
    &&& e.topic == task_topic(task_type)
    &&& e.payload matches EventPayload::Process { process, collection_cycle_id, event_type } && process.pid == 0
        && process.name@ == "translated_task"@ && process.executable_path is None && collection_cycle_id@ == task_id
        && event_type == ProcessEventType::Discovery
}

/// Whether `r` is the detection result that the broker event `event` becomes: answered for
/// its correlation id (else its event id), successful, listing the process of a process
/// payload and nothing for another payload.
pub open spec fn result_of_event(r: DetectionResult, event: BusrtEvent) -> bool {
    &&& r.task_id == (match event.correlation_id {
        Some(c) => c,
        None => event.event_id,
    })
    &&& r.success
    &&& r.error_message is None
    &&& (event.payload matches EventPayload::Process { process, .. } ==> {
        &&& r.processes@.len() == 1
        &&& r.processes@[0].pid == process.pid
        &&& r.processes@[0].name == process.name
        &&& r.processes@[0].executable_path == process.executable_path
        &&& r.processes@[0].ppid is None
        &&& r.processes@[0].command_line@.len() == 0
        &&& r.processes@[0].start_time is None
        &&& r.processes@[0].memory_usage is None
        &&& r.processes@[0].executable_hash is None
        &&& r.processes@[0].hash_algorithm is None
        &&& r.processes@[0].user_id is None
        &&& r.processes@[0].accessible
        &&& r.processes@[0].file_exists
        &&& r.processes@[0].collection_time == event.timestamp_ms
    })
    &&& (event.payload is Other ==> r.processes@.len() == 0)
}

/// Translates a detection task into a broker event with a fresh identifier, stamped with
/// the current time.
pub fn translate_detection_task_to_busrt_event(task_id: &str, task_type: i32, correlation_id: String) -> (e: BusrtEvent)
    ensures
        event_of_task(e, task_id@, task_type, correlation_id),
{
    let event_id = new_uuid_string();
    let ms = unix_now_millis();
    event_from_task(task_id, task_type, correlation_id, event_id, ms as i64)
}

/// The detection result a broker event becomes: answered for its correlation id (else its
/// event id), successful, listing the process of a process payload.
pub fn translate_busrt_event_to_detection_result(event: BusrtEvent) -> (r: DetectionResult)
    ensures
        result_of_event(r, event),
{
    let task_id = match event.correlation_id {
        Some(c) => c,
        None => event.event_id,
    };
    let mut processes: Vec<ResultProcessRecord> = Vec::new();
    match event.payload {
        EventPayload::Process { process, .. } => {
            processes.push(ResultProcessRecord {
                pid: process.pid,
                ppid: None,
                name: process.name,
                executable_path: process.executable_path,
                command_line: Vec::new(),
                start_time: None,
                memory_usage: None,
                executable_hash: None,
                hash_algorithm: None,
                user_id: None,
                accessible: true,
                file_exists: true,
                collection_time: event.timestamp_ms,
            });
        },
        EventPayload::Other => {},
    }
    DetectionResult { task_id, success: true, error_message: None, processes }
}

/// Bridge statistics.
#[derive(Debug, Clone, Copy, PartialEq, Eq)]
pub struct BridgeStatistics {
    /// Messages passed on from IPC to the broker
    pub ipc_to_busrt_messages: u64,
    /// Messages passed on from the broker to IPC
    pub busrt_to_ipc_messages: u64,
    /// Translation errors
    pub translation_errors: u64,
    /// Active IPC connections
    pub active_ipc_connections: u64,
    /// When the bridge was made (Unix milliseconds)
    pub bridge_started_at_ms: u64,
}

/// A message handed to the translation processor.
#[derive(Debug)]
pub enum TranslationMessage {
    /// A detection task to publish on the broker; `ticket` names the channel its answer
    /// goes to
    IpcToBusrt { task_id: String, task_type: i32, correlation_id: String, ticket: u64 },
    /// A broker event answering a request
    BusrtToIpc { event: BusrtEvent, correlation_id: String },
}

/// What the caller does after a translation message was processed.
#[derive(Debug)]
pub enum TranslationAction {
    /// Publish the event on the broker
    Publish(BusrtEvent),
    /// Send the result on the channel named by the ticket
    Deliver { ticket: u64, result: DetectionResult },
    /// Nobody waits for the result: drop it
    Discard(DetectionResult),
}

/// Whether processing `m` takes the waiting requests `p0` and statistics `s0` to `p1` and
/// `s1` with action `a`. A task is remembered under its correlation id with its ticket, counts
/// one message from IPC, and is published as the event it becomes. An answer stops the
/// request waiting under its correlation id, counts one message from the broker, and its
/// result goes to that request's ticket, or is dropped when none waits.
pub open spec fn translation_step(
    p0: Map<Seq<char>, u64>,
    s0: BridgeStatistics,
    m: TranslationMessage,
    p1: Map<Seq<char>, u64>,
    s1: BridgeStatistics,
    a: TranslationAction,
) -> bool {
    match m {
        TranslationMessage::IpcToBusrt { task_id, task_type, correlation_id, ticket } => {
            &&& p1 == p0.insert(correlation_id@, ticket)
            &&& s1 == (BridgeStatistics { ipc_to_busrt_messages: bump(s0.ipc_to_busrt_messages), ..s0 })
            &&& a matches TranslationAction::Publish(e) && event_of_task(e, task_id@, task_type, correlation_id)
        },
        TranslationMessage::BusrtToIpc { event, correlation_id } => {
            &&& p1 == p0.remove(correlation_id@)
            &&& s1 == (BridgeStatistics { busrt_to_ipc_messages: bump(s0.busrt_to_ipc_messages), ..s0 })
            &&& if p0.contains_key(correlation_id@) {
                a matches TranslationAction::Deliver { ticket, result } && ticket == p0[correlation_id@]
                    && result_of_event(result, event)
            } else {
                a matches TranslationAction::Discard(result) && result_of_event(result, event)
            }
        },
    }
}

/// `x + 1`, saturating.
pub open spec fn bump(x: u64) -> u64 {
    if x == u64::MAX {
        x
    } else {
        (x + 1) as u64
    }
}

fn bump_exec(x: u64) -> (r: u64)
    ensures
        r == bump(x),
{
    if x == u64::MAX {
        x
    } else {
        x + 1
    }
}

/// The IPC-to-broker bridge.
#[derive(Debug)]
pub struct IpcBusrtBridge {
    config: IpcBridgeConfig,
    pending: StrMap<u64>,
    topic_mapping: StrMap<BusrtTopic>,
    statistics: BridgeStatistics,
    shutdown_signal: bool,
}

impl IpcBusrtBridge {
    /// The configuration in force.
    pub closed spec fn config_spec(&self) -> IpcBridgeConfig {
        self.config
    }

    /// The requests waiting for an answer: correlation id to ticket.
    pub closed spec fn pending_spec(&self) -> Map<Seq<char>, u64> {
        self.pending@
    }

    /// The topic mapping.
    pub closed spec fn mapping(&self) -> Map<Seq<char>, BusrtTopic> {
        self.topic_mapping@
    }

    /// The statistics.
    pub closed spec fn stats(&self) -> BridgeStatistics {
        self.statistics
    }

    /// Whether shutdown was signalled.
    pub closed spec fn stopping(&self) -> bool {
        self.shutdown_signal
    }

    /// The default topic mapping of IPC message kinds.
    pub fn create_default_topic_mapping() -> (m: StrMap<BusrtTopic>)
        ensures
            m@ == mapping_spec(),
    {
        let mut m: StrMap<BusrtTopic> = StrMap::new();
        m.insert(String::from_str("enumerate_processes"), BusrtTopic::EventsProcessEnumeration);
        m.insert(String::from_str("check_process_hash"), BusrtTopic::EventsProcessHash);
        m.insert(String::from_str("monitor_process_tree"), BusrtTopic::EventsProcessLifecycle);
        m.insert(String::from_str("verify_executable"), BusrtTopic::EventsProcessMetadata);
        m.insert(String::from_str("collector_lifecycle"), BusrtTopic::ControlCollectorLifecycle);
        m.insert(String::from_str("collector_health"), BusrtTopic::ControlCollectorHealth);
        m.insert(String::from_str("agent_tasks"), BusrtTopic::ControlAgentTasks);
        m
    }

    /// A bridge made at `now_ms` with the default topic mapping, nothing pending and zeroed
    /// statistics.
    pub fn new(config: IpcBridgeConfig, now_ms: u64) -> (b: Self)
        ensures
            b.config_spec() == config,
            b.pending_spec() == Map::<Seq<char>, u64>::empty(),
            b.mapping() == mapping_spec(),
            b.stats() == (BridgeStatistics {
                ipc_to_busrt_messages: 0,
                busrt_to_ipc_messages: 0,
                translation_errors: 0,
                active_ipc_connections: 0,
                bridge_started_at_ms: now_ms,
            }),
            !b.stopping(),
    {
        IpcBusrtBridge {
            config,
            pending: StrMap::new(),
            topic_mapping: Self::create_default_topic_mapping(),
            statistics: BridgeStatistics {
                ipc_to_busrt_messages: 0,
                busrt_to_ipc_messages: 0,
                translation_errors: 0,
                active_ipc_connections: 0,
                bridge_started_at_ms: now_ms,
            },
            shutdown_signal: false,
        }
    }

    /// The topic mapped to an IPC message kind, if any.
    pub fn mapped_topic(&self, kind: &str) -> (t: Option<BusrtTopic>)
        ensures
            self.mapping().contains_key(kind@) ==> t == Some(self.mapping()[kind@]),
            !self.mapping().contains_key(kind@) ==> t is None,
    {
        match self.topic_mapping.get(kind) {
            Some(t) => Some(*t),
            None => None,
        }
    }

    /// Which components a start brings up: the legacy IPC server and the broker client,
    /// each when enabled.
    pub fn start_plan(&self) -> (r: (bool, bool))
        ensures
            r == (self.config_spec().enable_legacy_ipc, self.config_spec().enable_busrt),
    {
        (self.config.enable_legacy_ipc, self.config.enable_busrt)
    }

    /// Processes one translation message. A task is translated into a broker event to
    /// publish and its answer channel is remembered under its correlation id; a broker
    /// event is translated into a result delivered to the request waiting under its
    /// correlation id, which stops waiting (or discarded when none waits). Each direction
    /// counts its messages.
    pub fn process_translation_message(&mut self, message: TranslationMessage) -> (a: TranslationAction)
        ensures
            final(self).config_spec() == old(self).config_spec(),
            final(self).mapping() == old(self).mapping(),
            final(self).stopping() == old(self).stopping(),
            translation_step(
                old(self).pending_spec(),
                old(self).stats(),
                message,
                final(self).pending_spec(),
                final(self).stats(),
                a,
            ),
    {
        match message {
            TranslationMessage::IpcToBusrt { task_id, task_type, correlation_id, ticket } => {
                let event = translate_detection_task_to_busrt_event(task_id.as_str(), task_type, correlation_id.clone());
                self.pending.insert(correlation_id, ticket);
                self.statistics.ipc_to_busrt_messages = bump_exec(self.statistics.ipc_to_busrt_messages);
                TranslationAction::Publish(event)
            },
            TranslationMessage::BusrtToIpc { event, correlation_id } => {
                let result = translate_busrt_event_to_detection_result(event);
                let waiting = self.pending.remove(correlation_id.as_str());
                self.statistics.busrt_to_ipc_messages = bump_exec(self.statistics.busrt_to_ipc_messages);
                match waiting {
                    Some(ticket) => TranslationAction::Deliver { ticket, result },
                    None => TranslationAction::Discard(result),
                }
            },
        }
    }

    /// Counts a translation that failed.
    pub fn record_translation_error(&mut self)
        ensures
            final(self).stats() == (BridgeStatistics { translation_errors: bump(old(self).stats().translation_errors), ..old(self).stats() }),
            final(self).pending_spec() == old(self).pending_spec(),
            final(self).config_spec() == old(self).config_spec(),
            final(self).mapping() == old(self).mapping(),
            final(self).stopping() == old(self).stopping(),
    {
        self.statistics.translation_errors = bump_exec(self.statistics.translation_errors);
    }

    /// A snapshot of the statistics.
    pub fn get_statistics(&self) -> (s: BridgeStatistics)
        ensures
            s == self.stats(),
    {
        self.statistics
    }

    /// Signals shutdown to the background work.
    pub fn shutdown(&mut self)
        ensures
            final(self).stopping(),
            final(self).stats() == old(self).stats(),
            final(self).pending_spec() == old(self).pending_spec(),
            final(self).config_spec() == old(self).config_spec(),
            final(self).mapping() == old(self).mapping(),
    {
        self.shutdown_signal = true;
    }

    /// Whether shutdown was signalled.
    pub fn is_shutting_down(&self) -> (b: bool)
        ensures
            b == self.stopping(),
    {
        self.shutdown_signal
    }
}

/// Broker statistics as the placeholder client reports them.
#[derive(Debug, Clone, Copy, PartialEq, Eq)]
pub struct BrokerStats {
    /// Broker uptime in seconds
    pub uptime_seconds: u64,
    /// Connections ever made
    pub total_connections: u64,
    /// Connections open
    pub active_connections: u64,
    /// Messages published
    pub messages_published: u64,
    /// Messages delivered
    pub messages_delivered: u64,
    /// Topics known
    pub topics_count: u64,
    /// Memory used in bytes
    pub memory_usage_bytes: u64,
}

/// A stand-in broker client: always connected, accepting everything.
#[derive(Debug)]
pub struct PlaceholderBusrtClient {
    connected: bool,
}

impl PlaceholderBusrtClient {
    /// Whether the client reports a connection.
    pub closed spec fn connected_spec(&self) -> bool {
        self.connected
    }

    /// A connected placeholder client.
    pub fn new() -> (c: Self)
        ensures
            c.connected_spec(),
    {
        PlaceholderBusrtClient { connected: true }
    }

    /// Whether the client reports a connection.
    pub fn is_connected(&self) -> (b: bool)
        ensures
            b == self.connected_spec(),
    {
        self.connected
    }

    /// The fixed statistics the placeholder reports.
    pub fn get_broker_stats(&self) -> (s: BrokerStats)
        ensures
            s == (BrokerStats {
                uptime_seconds: 3600,
                total_connections: 1,
                active_connections: 1,
                messages_published: 0,
                messages_delivered: 0,
                topics_count: 5,
                memory_usage_bytes: 1_048_576,
            }),
    {
        BrokerStats {
            uptime_seconds: 3600,
            total_connections: 1,
            active_connections: 1,
            messages_published: 0,
            messages_delivered: 0,
            topics_count: 5,
            memory_usage_bytes: 1024 * 1024,
        }
    }
}

/// An answer reaches the request it answers: when a task sent under correlation id `c` with
/// ticket `t` is followed by a broker event answering under `c`, the answer's result, the
/// translation of that event, is delivered on `t`; nothing waits under `c` any more; and each
/// direction counted one message.
pub proof fn law_answer_reaches_request(
    p0: Map<Seq<char>, u64>,
    s0: BridgeStatistics,
    task: TranslationMessage,
    p1: Map<Seq<char>, u64>,
    s1: BridgeStatistics,
    a1: TranslationAction,
    answer: TranslationMessage,
    p2: Map<Seq<char>, u64>,
    s2: BridgeStatistics,
    a2: TranslationAction,
)
    requires
        task is IpcToBusrt,
        answer matches TranslationMessage::BusrtToIpc { correlation_id, .. } && correlation_id@
            == task->IpcToBusrt_correlation_id@,
        translation_step(p0, s0, task, p1, s1, a1),
        translation_step(p1, s1, answer, p2, s2, a2),
    ensures
        a2 matches TranslationAction::Deliver { ticket, result } && ticket == task->IpcToBusrt_ticket
            && result_of_event(result, answer->BusrtToIpc_event),
        !p2.contains_key(task->IpcToBusrt_correlation_id@),
        s2.ipc_to_busrt_messages == bump(s0.ipc_to_busrt_messages),
        s2.busrt_to_ipc_messages == bump(s0.busrt_to_ipc_messages),
        s2.translation_errors == s0.translation_errors,
{
}

} // verus!
