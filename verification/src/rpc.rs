//! The collector's RPC service: its configuration and the decisions of its message loop.
//!
//! A collector subscribes to `control.collector.{collector_id}`. For each message the loop
//! skips responses, answers lifecycle and shutdown requests itself, runs detection tasks
//! through the registered handler, hands everything else to the generic RPC service, and
//! publishes the answer on `control.rpc.response.{client_id}`. Transport, decoding and the
//! handler run outside; every routing decision, reply and the shutdown signal live here.

use crate::topic::{has_rpc_response, is_rpc_response_topic};
use crate::text::split_dot;
use vstd::prelude::*;

verus! {

/// The topic prefix the agent uses when targeting a collector by id.
pub open spec fn collector_topic_prefix() -> Seq<char> {
    "control.collector."@
}

/// The topic prefix of RPC responses.
pub open spec fn response_topic_prefix() -> Seq<char> {
    "control.rpc.response."@
}

/// Configuration of the RPC service. `rpc_topic` must be
/// `control.collector.{collector_id}`; [`RpcServiceConfig::validate`] checks it.
#[derive(Debug, Clone, PartialEq, Eq)]
pub struct RpcServiceConfig {
    /// Collector identifier
    pub collector_id: String,
    /// RPC topic to subscribe to
    pub rpc_topic: String,
    /// Default timeout for RPC operations, in milliseconds
    pub default_timeout_ms: u64,
}

/// Why an RPC service configuration is refused.
#[derive(Debug, Clone, PartialEq, Eq)]
pub enum RpcConfigError {
    /// The collector id is empty
    EmptyCollectorId,
    /// The topic does not target the collector id
    InconsistentTopic { rpc_topic: String, collector_id: String, expected: String },
}

impl RpcConfigError {
    /// The error's message.
    pub fn to_string(&self) -> (s: String)
        ensures
            self is EmptyCollectorId ==> s@ == "collector_id must be non-empty"@,
            self matches RpcConfigError::InconsistentTopic { rpc_topic, collector_id, expected } ==> s@
                == "rpc_topic '"@ + rpc_topic@ + "' is inconsistent with collector_id '"@ + collector_id@
                + "' (expected '"@ + expected@ + "')"@,
    {
        match self {
            RpcConfigError::EmptyCollectorId => String::from_str("collector_id must be non-empty"),
            RpcConfigError::InconsistentTopic { rpc_topic, collector_id, expected } => {
                let s = String::from_str("rpc_topic '");
                let s = s.concat(rpc_topic.as_str());
                let s = s.concat("' is inconsistent with collector_id '");
                let s = s.concat(collector_id.as_str());
                let s = s.concat("' (expected '");
                let s = s.concat(expected.as_str());
                s.concat("')")
            },
        }
    }
}

impl RpcServiceConfig {
    /// The canonical RPC topic of a collector: `control.collector.{collector_id}`.
    pub fn topic_for_collector(collector_id: &str) -> (t: String)
        ensures
            t@ == collector_topic_prefix() + collector_id@,
    {
        let s = String::from_str("control.collector.");
        s.concat(collector_id)
    }

    /// Checks that the collector id is non-empty and that the topic targets it.
    pub fn validate(&self) -> (r: Result<(), RpcConfigError>)
        ensures
            self.collector_id@.len() == 0 ==> r == Err::<(), RpcConfigError>(RpcConfigError::EmptyCollectorId),
            self.collector_id@.len() > 0 && self.rpc_topic@ == collector_topic_prefix() + self.collector_id@ ==> r is Ok,
            self.collector_id@.len() > 0 && self.rpc_topic@ != collector_topic_prefix() + self.collector_id@ ==> (r matches Err(
                RpcConfigError::InconsistentTopic { rpc_topic, collector_id, expected },
            ) && rpc_topic == self.rpc_topic && collector_id == self.collector_id && expected@
                == collector_topic_prefix() + self.collector_id@),
    {
        if self.collector_id.as_str().is_empty() {
            return Err(RpcConfigError::EmptyCollectorId);
        }
        let expected = Self::topic_for_collector(self.collector_id.as_str());
        if self.rpc_topic != expected {
            return Err(RpcConfigError::InconsistentTopic {
                rpc_topic: self.rpc_topic.clone(),
                collector_id: self.collector_id.clone(),
                expected,
            });
        }
        Ok(())
    }
}

impl Default for RpcServiceConfig {
    fn default() -> (c: Self)
        ensures
            c.collector_id@ == "collector"@,
            c.rpc_topic@ == "control.collector.collector"@,
            c.default_timeout_ms == 30_000,
    {
        RpcServiceConfig {
            collector_id: String::from_str("collector"),
            rpc_topic: String::from_str("control.collector.collector"),
            default_timeout_ms: 30_000,
        }
    }
}

/// Operations an RPC request can ask for.
#[derive(Debug, Clone, Copy, PartialEq, Eq, Structural)]
pub enum RpcOperation {
    /// Start the collector
    Start,
    /// Stop the collector
    Stop,
    /// Restart the collector
    Restart,
    /// Report health
    HealthCheck,
    /// Change configuration
    UpdateConfig,
    /// Report capabilities
    GetCapabilities,
    /// Shut down gracefully
    GracefulShutdown,
    /// Shut down at once
    ForceShutdown,
    /// Pause collection
    Pause,
    /// Resume collection
    Resume,
    /// Run a detection task
    ExecuteTask,
}

/// Outcome status of an RPC reply.
#[derive(Debug, Clone, Copy, PartialEq, Eq, Structural)]
pub enum RpcStatus {
    /// The request succeeded
    Success,
    /// The request failed
    Error,
}

/// The payload of a request or reply; task and result documents travel as JSON text.
#[derive(Debug, Clone, PartialEq, Eq)]
pub enum RpcPayload {
    /// A detection task document
    Task(String),
    /// A detection result document
    TaskResult(String),
    /// Any other payload
    Other,
}

/// A decoded RPC request.
#[derive(Debug, Clone, PartialEq, Eq)]
pub struct RpcRequest {
    /// Request identifier
    pub request_id: String,
    /// Identifier of the requesting client
    pub client_id: String,
    /// Requested operation
    pub operation: RpcOperation,
    /// Request payload
    pub payload: RpcPayload,
}

/// The error carried by a failed reply (always of the internal category).
#[derive(Debug, Clone, PartialEq, Eq)]
pub struct RpcErrorDetails {
    /// Error code
    pub code: String,
    /// Error message
    pub message: String,
}

/// A reply to an RPC request.
#[derive(Debug, Clone, PartialEq, Eq)]
pub struct RpcResponse {
    /// Identifier of the request answered
    pub request_id: String,
    /// Identifier of the answering service
    pub service_id: String,
    /// Operation answered
    pub operation: RpcOperation,
    /// Outcome
    pub status: RpcStatus,
    /// Reply payload
    pub payload: Option<RpcPayload>,
    /// Error, on failure
    pub error_details: Option<RpcErrorDetails>,
    /// When the reply was made (Unix milliseconds)
    pub timestamp_ms: u64,
    /// Time spent executing
    pub execution_time_ms: u64,
    /// Time spent queued
    pub queue_time_ms: Option<u64>,
    /// Total time
    pub total_time_ms: u64,
}

/// Where the message loop sends an incoming message.
#[derive(Debug, Clone, Copy, PartialEq, Eq, Structural)]
pub enum MessageRoute {
    /// Dropped: a response, or a payload that did not decode
    Skip,
    /// A lifecycle request answered by the collector runtime
    Lifecycle,
    /// A detection task for the registered handler
    ExecuteTask,
    /// A shutdown request that raises the shutdown signal
    Shutdown,
    /// Anything else, handed to the generic RPC service
    Delegate,
}

/// How a detection task run went, step by step: each failure stops the run.
#[derive(Debug, Clone, PartialEq, Eq)]
pub enum TaskRun {
    /// The request did not carry a task
    InvalidPayload,
    /// The task document did not decode (the decoder's message)
    DecodeFailed(String),
    /// No handler is registered
    NoHandler,
    /// The handler failed (its message)
    HandlerFailed(String),
    /// The result did not encode (the encoder's message)
    EncodeFailed(String),
    /// The encoded result
    Done(String),
}

/// Why the RPC service could not start.
#[derive(Debug, Clone, PartialEq, Eq)]
pub enum RpcServiceError {
    /// The service is already running
    AlreadyStarted,
    /// Subscribing to the RPC topic failed (the transport's message)
    SubscribeFailed(String),
}

impl RpcServiceError {
    /// The error's message.
    pub fn to_string(&self) -> (s: String)
        ensures
            self is AlreadyStarted ==> s@ == "RPC service already started"@,
            self matches RpcServiceError::SubscribeFailed(m) ==> s@ == "Failed to subscribe to RPC topic: "@ + m@,
    {
        match self {
            RpcServiceError::AlreadyStarted => String::from_str("RPC service already started"),
            RpcServiceError::SubscribeFailed(m) => {
                let s = String::from_str("Failed to subscribe to RPC topic: ");
                s.concat(m.as_str())
            },
        }
    }
}

/// Whether `op` is handled as a lifecycle operation.
pub open spec fn is_lifecycle(op: RpcOperation) -> bool {
    op == RpcOperation::Start || op == RpcOperation::Stop || op == RpcOperation::Restart
}

/// Whether `op` asks for a shutdown.
pub open spec fn is_shutdown(op: RpcOperation) -> bool {
    op == RpcOperation::GracefulShutdown || op == RpcOperation::ForceShutdown
}

/// The route of a message on `topic` whose payload decoded to `operation` (`None` when it
/// did not decode), given whether a collector runtime is attached.
pub open spec fn route_spec(topic: Seq<char>, operation: Option<RpcOperation>, runtime_attached: bool) -> MessageRoute {
    if has_rpc_response(split_dot(topic)) {
        MessageRoute::Skip
    } else {
        match operation {
            None => MessageRoute::Skip,
            Some(op) => if is_lifecycle(op) {
                if runtime_attached {
                    MessageRoute::Lifecycle
                } else {
                    MessageRoute::Delegate
                }
            } else if op == RpcOperation::ExecuteTask {
                MessageRoute::ExecuteTask
            } else if is_shutdown(op) {
                MessageRoute::Shutdown
            } else {
                MessageRoute::Delegate
            },
        }
    }
}

/// The outcome of a task run: the result payload, or the message of the failed step.
pub open spec fn task_outcome_spec(run: TaskRun) -> Result<Seq<char>, Seq<char>> {
    match run {
        TaskRun::InvalidPayload => Err("Invalid payload for ExecuteTask"@),
        TaskRun::DecodeFailed(e) => Err("Failed to deserialize task: "@ + e@),
        TaskRun::NoHandler => Err("No task handler registered"@),
        TaskRun::HandlerFailed(e) => Err("Task execution failed: "@ + e@),
        TaskRun::EncodeFailed(e) => Err("Failed to serialize result: "@ + e@),
        TaskRun::Done(v) => Ok(v@),
    }
}

/// The message of a task run that failed, or the encoded result of one that succeeded.
pub fn task_outcome(run: TaskRun) -> (r: Result<String, String>)
    ensures
        r matches Ok(v) ==> task_outcome_spec(run) == Ok::<Seq<char>, Seq<char>>(v@),
        r matches Err(m) ==> task_outcome_spec(run) == Err::<Seq<char>, Seq<char>>(m@),
{
    match run {
        TaskRun::InvalidPayload => Err(String::from_str("Invalid payload for ExecuteTask")),
        TaskRun::DecodeFailed(e) => Err(String::from_str("Failed to deserialize task: ").concat(e.as_str())),
        TaskRun::NoHandler => Err(String::from_str("No task handler registered")),
        TaskRun::HandlerFailed(e) => Err(String::from_str("Task execution failed: ").concat(e.as_str())),
        TaskRun::EncodeFailed(e) => Err(String::from_str("Failed to serialize result: ").concat(e.as_str())),
        TaskRun::Done(v) => Ok(v),
    }
}

/// The topic a reply to `client_id` is published on: `control.rpc.response.{client_id}`.
pub fn response_topic(client_id: &str) -> (t: String)
    ensures
        t@ == response_topic_prefix() + client_id@,
{
    String::from_str("control.rpc.response.").concat(client_id)
}

/// A successful reply to `request` with no payload and no elapsed time, made at `now_ms`.
pub open spec fn immediate_success(request: RpcRequest, service_id: String, now_ms: u64) -> RpcResponse {
    RpcResponse {
        request_id: request.request_id,
        service_id,
        operation: request.operation,
        status: RpcStatus::Success,
        payload: None,
        error_details: None,
        timestamp_ms: now_ms,
        execution_time_ms: 0,
        queue_time_ms: Some(0),
        total_time_ms: 0,
    }
}

/// The RPC service of one collector: whether it runs, what is attached to it, and the
/// shutdown signal its requests raise.
#[derive(Debug)]
pub struct CollectorRpcServiceManager {
    config: RpcServiceConfig,
    started: bool,
    shutdown_signal: bool,
    runtime_attached: bool,
    task_handler_registered: bool,
}

impl CollectorRpcServiceManager {
    /// The configuration in force.
    pub closed spec fn config_spec(&self) -> RpcServiceConfig {
        self.config
    }

    /// Whether the message loop runs.
    pub closed spec fn running(&self) -> bool {
        self.started
    }

    /// Whether a request has asked the collector to shut down.
    pub closed spec fn signal_raised(&self) -> bool {
        self.shutdown_signal
    }

    /// Whether a collector runtime is attached.
    pub closed spec fn has_runtime(&self) -> bool {
        self.runtime_attached
    }

    /// Whether a task handler is registered.
    pub closed spec fn has_task_handler(&self) -> bool {
        self.task_handler_registered
    }

    /// A stopped service with nothing attached and the signal down.
    pub fn new(config: RpcServiceConfig) -> (m: Self)
        ensures
            m.config_spec() == config,
            !m.running(),
            !m.signal_raised(),
            !m.has_runtime(),
            !m.has_task_handler(),
    {
        CollectorRpcServiceManager {
            config,
            started: false,
            shutdown_signal: false,
            runtime_attached: false,
            task_handler_registered: false,
        }
    }

    /// Records that a collector runtime is attached.
    pub fn set_runtime(&mut self)
        ensures
            final(self).has_runtime(),
            final(self).config_spec() == old(self).config_spec(),
            final(self).running() == old(self).running(),
            final(self).signal_raised() == old(self).signal_raised(),
            final(self).has_task_handler() == old(self).has_task_handler(),
    {
        self.runtime_attached = true;
    }

    /// Records that a task handler is registered.
    pub fn set_task_handler(&mut self)
        ensures
            final(self).has_task_handler(),
            final(self).config_spec() == old(self).config_spec(),
            final(self).running() == old(self).running(),
            final(self).signal_raised() == old(self).signal_raised(),
            final(self).has_runtime() == old(self).has_runtime(),
    {
        self.task_handler_registered = true;
    }

    /// Whether the message loop runs.
    pub fn is_started(&self) -> (b: bool)
        ensures
            b == self.running(),
    {
        self.started
    }

    /// Whether a request has asked the collector to shut down.
    pub fn shutdown_requested(&self) -> (b: bool)
        ensures
            b == self.signal_raised(),
    {
        self.shutdown_signal
    }

    /// The topic the service subscribes to.
    pub fn rpc_topic(&self) -> (t: &String)
        ensures
            *t == self.config_spec().rpc_topic,
    {
        &self.config.rpc_topic
    }

    /// Starts the message loop once the subscription went as `subscription` says. A
    /// running service refuses; a failed subscription leaves the service stopped.
    pub fn start(&mut self, subscription: Result<(), String>) -> (r: Result<(), RpcServiceError>)
        ensures
            old(self).running() ==> r == Err::<(), RpcServiceError>(RpcServiceError::AlreadyStarted) && final(self).running(),
            !old(self).running() && subscription is Err ==> !final(self).running() && (r matches Err(
                RpcServiceError::SubscribeFailed(m),
            ) && m == subscription->Err_0),
            !old(self).running() && subscription is Ok ==> r is Ok && final(self).running(),
            final(self).config_spec() == old(self).config_spec(),
            final(self).signal_raised() == old(self).signal_raised(),
            final(self).has_runtime() == old(self).has_runtime(),
            final(self).has_task_handler() == old(self).has_task_handler(),
    {
        if self.started {
            return Err(RpcServiceError::AlreadyStarted);
        }
        match subscription {
            Err(m) => Err(RpcServiceError::SubscribeFailed(m)),
            Ok(()) => {
                self.started = true;
                Ok(())
            },
        }
    }

    /// Stops the message loop; returns whether it was running.
    pub fn stop(&mut self) -> (was_running: bool)
        ensures
            was_running == old(self).running(),
            !final(self).running(),
            final(self).config_spec() == old(self).config_spec(),
            final(self).signal_raised() == old(self).signal_raised(),
            final(self).has_runtime() == old(self).has_runtime(),
            final(self).has_task_handler() == old(self).has_task_handler(),
    {
        let was = self.started;
        self.started = false;
        was
    }

    /// Where a message on `topic` whose payload decoded to `operation` goes.
    pub fn route(&self, topic: &str, operation: Option<RpcOperation>) -> (r: MessageRoute)
        ensures
            r == route_spec(topic@, operation, self.has_runtime()),
    {
        if is_rpc_response_topic(topic) {
            return MessageRoute::Skip;
        }
        match operation {
            None => MessageRoute::Skip,
            Some(op) => {
                if op == RpcOperation::Start || op == RpcOperation::Stop || op == RpcOperation::Restart {
                    if self.runtime_attached {
                        MessageRoute::Lifecycle
                    } else {
                        MessageRoute::Delegate
                    }
                } else if op == RpcOperation::ExecuteTask {
                    MessageRoute::ExecuteTask
                } else if op == RpcOperation::GracefulShutdown || op == RpcOperation::ForceShutdown {
                    MessageRoute::Shutdown
                } else {
                    MessageRoute::Delegate
                }
            },
        }
    }

    /// Answers a lifecycle request at `now_ms`. A start succeeds at once (the runtime
    /// already runs); a stop or restart raises the shutdown signal and succeeds at once.
    pub fn lifecycle_reply(&mut self, request: &RpcRequest, now_ms: u64) -> (r: RpcResponse)
        requires
            is_lifecycle(request.operation),
        ensures
            r == immediate_success(*request, old(self).config_spec().collector_id, now_ms),
            final(self).signal_raised() == (old(self).signal_raised() || request.operation != RpcOperation::Start),
            final(self).config_spec() == old(self).config_spec(),
            final(self).running() == old(self).running(),
            final(self).has_runtime() == old(self).has_runtime(),
            final(self).has_task_handler() == old(self).has_task_handler(),
    {
        if request.operation != RpcOperation::Start {
            self.shutdown_signal = true;
        }
        self.success_reply(request, now_ms)
    }

    /// Answers a shutdown request at `now_ms`: raises the shutdown signal and succeeds.
    pub fn shutdown_reply(&mut self, request: &RpcRequest, now_ms: u64) -> (r: RpcResponse)
        ensures
            r == immediate_success(*request, old(self).config_spec().collector_id, now_ms),
            final(self).signal_raised(),
            final(self).config_spec() == old(self).config_spec(),
            final(self).running() == old(self).running(),
            final(self).has_runtime() == old(self).has_runtime(),
            final(self).has_task_handler() == old(self).has_task_handler(),
    {
        self.shutdown_signal = true;
        self.success_reply(request, now_ms)
    }

    fn success_reply(&self, request: &RpcRequest, now_ms: u64) -> (r: RpcResponse)
        ensures
            r == immediate_success(*request, self.config_spec().collector_id, now_ms),
    {
        RpcResponse {
            request_id: request.request_id.clone(),
            service_id: self.config.collector_id.clone(),
            operation: request.operation,
            status: RpcStatus::Success,
            payload: None,
            error_details: None,
            timestamp_ms: now_ms,
            execution_time_ms: 0,
            queue_time_ms: Some(0),
            total_time_ms: 0,
        }
    }

    /// How a task request proceeds before its handler runs, given whether its task document
    /// decoded (`decoded`, the decoder's message on failure; it is not read for a request
    /// without a task): a request without a task is refused as an invalid payload, then a
    /// document that did not decode is refused, then a request with no handler registered;
    /// `None` means the handler is to run.
    pub fn task_gate(&self, request: &RpcRequest, decoded: Result<(), String>) -> (r: Option<TaskRun>)
        ensures
            !(request.payload is Task) ==> r == Some(TaskRun::InvalidPayload),
            request.payload is Task && decoded is Err ==> r == Some(TaskRun::DecodeFailed(decoded->Err_0)),
            request.payload is Task && decoded is Ok && !self.has_task_handler() ==> r == Some(TaskRun::NoHandler),
            request.payload is Task && decoded is Ok && self.has_task_handler() ==> r is None,
    {
        match &request.payload {
            RpcPayload::Task(_) => {},
            _ => {
                return Some(TaskRun::InvalidPayload);
            },
        }
        match decoded {
            Err(e) => Some(TaskRun::DecodeFailed(e)),
            Ok(()) => if self.task_handler_registered {
                None
            } else {
                Some(TaskRun::NoHandler)
            },
        }
    }

    /// The reply to a task run for `request` started at `start_ms` that took
    /// `elapsed_ms`: the result on success, else an `EXECUTION_ERROR` naming the step
    /// that failed.
    pub fn task_reply(&self, request: &RpcRequest, run: TaskRun, start_ms: u64, elapsed_ms: u64) -> (r: RpcResponse)
        ensures
            r.request_id == request.request_id,
            r.service_id == self.config_spec().collector_id,
            r.operation == RpcOperation::ExecuteTask,
            r.timestamp_ms == start_ms,
            r.execution_time_ms == elapsed_ms,
            r.queue_time_ms == Some(0u64),
            r.total_time_ms == elapsed_ms,
            task_outcome_spec(run) matches Ok(v) ==> {
                &&& r.status == RpcStatus::Success
                &&& r.payload matches Some(RpcPayload::TaskResult(p)) && p@ == v
                &&& r.error_details is None
            },
            task_outcome_spec(run) matches Err(m) ==> {
                &&& r.status == RpcStatus::Error
                &&& r.payload is None
                &&& r.error_details matches Some(d) && d.code@ == "EXECUTION_ERROR"@ && d.message@ == m
            },
    {
        match task_outcome(run) {
            Ok(v) => RpcResponse {
                request_id: request.request_id.clone(),
                service_id: self.config.collector_id.clone(),
                operation: RpcOperation::ExecuteTask,
                status: RpcStatus::Success,
                payload: Some(RpcPayload::TaskResult(v)),
                error_details: None,
                timestamp_ms: start_ms,
                execution_time_ms: elapsed_ms,
                queue_time_ms: Some(0),
                total_time_ms: elapsed_ms,
            },
            Err(m) => RpcResponse {
                request_id: request.request_id.clone(),
                service_id: self.config.collector_id.clone(),
                operation: RpcOperation::ExecuteTask,
                status: RpcStatus::Error,
                payload: None,
                error_details: Some(RpcErrorDetails { code: String::from_str("EXECUTION_ERROR"), message: m }),
                timestamp_ms: start_ms,
                execution_time_ms: elapsed_ms,
                queue_time_ms: Some(0),
                total_time_ms: elapsed_ms,
            },
        }
    }

    /// The reply sent instead of a reply that could not be encoded (`error` is the
    /// encoder's message): a `SERIALIZATION_ERROR` naming the request.
    pub fn serialization_error_reply(&self, request: &RpcRequest, error: &str, now_ms: u64) -> (r: RpcResponse)
        ensures
            r.request_id == request.request_id,
            r.service_id == self.config_spec().collector_id,
            r.operation == request.operation,
            r.status == RpcStatus::Error,
            r.payload is None,
            r.error_details matches Some(d) && d.code@ == "SERIALIZATION_ERROR"@ && d.message@
                == "Failed to serialize RPC response for request "@ + request.request_id@ + ": "@ + error@,
            r.timestamp_ms == now_ms,
            r.execution_time_ms == 0,
            r.queue_time_ms == Some(0u64),
            r.total_time_ms == 0,
    {
        let message = String::from_str("Failed to serialize RPC response for request ")
            .concat(request.request_id.as_str())
            .concat(": ")
            .concat(error);
        RpcResponse {
            request_id: request.request_id.clone(),
            service_id: self.config.collector_id.clone(),
            operation: request.operation,
            status: RpcStatus::Error,
            payload: None,
            error_details: Some(RpcErrorDetails { code: String::from_str("SERIALIZATION_ERROR"), message }),
            timestamp_ms: now_ms,
            execution_time_ms: 0,
            queue_time_ms: Some(0),
            total_time_ms: 0,
        }
    }
}

/// Replies are never fed back into the loop: every message on a response topic, in
/// particular on the topic a reply is published to, is skipped.
pub proof fn law_replies_are_skipped(topic: Seq<char>, operation: Option<RpcOperation>, runtime_attached: bool)
    requires
        has_rpc_response(split_dot(topic)),
    ensures
        route_spec(topic, operation, runtime_attached) == MessageRoute::Skip,
{
}

/// Every decoded request that is not on a response topic gets an answer of some kind: only
/// responses and undecodable payloads are dropped.
pub proof fn law_requests_are_answered(topic: Seq<char>, op: RpcOperation, runtime_attached: bool)
    requires
        !has_rpc_response(split_dot(topic)),
    ensures
        route_spec(topic, Some(op), runtime_attached) != MessageRoute::Skip,
{
}

} // verus!
