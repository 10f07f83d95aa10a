//! The message vocabulary of the coordination core: inbound messages carried
//! on the bus toward the consumer, outbound events queued per instance, and
//! the error taxonomy of the service operations.

use vstd::prelude::*;

verus! {

/// An inbound message carried on the bus toward the single consumer:
/// a lifecycle notice for one instance, or a batch of telemetry records.
#[derive(Debug, Clone, PartialEq, Eq)]
pub enum Message {
    Start { server: String },
    Stop { server: String },
    Messages(Vec<RobloxMessage>),
}

/// One telemetry record reported by an instance.
#[derive(Debug, Clone, PartialEq, Eq)]
pub enum RobloxMessage {
    Output { level: OutputLevel, body: String, server: String },
}

/// Severity of a telemetry record.
#[derive(Debug, Clone, Copy, PartialEq, Eq, Structural)]
pub enum OutputLevel {
    Print,
    Info,
    Warning,
    Error,
    ScriptError,
}

/// An outbound command for one instance, held in its queue until the
/// instance polls.
#[derive(Debug, Clone, PartialEq, Eq)]
pub enum RobloxEvent {
    RunScript { script: String, oneshot: bool },
    Deregister { no_exit: bool },
}

/// Body of an explicit registration request.
#[derive(Debug, Clone, PartialEq, Eq)]
pub struct StartMessage {
    pub server: String,
}

/// Body of an explicit stop request.
#[derive(Debug, Clone, PartialEq, Eq)]
pub struct StopMessage {
    pub server: String,
}

/// Body of a status response.
#[derive(Debug, Clone, Copy, PartialEq, Eq, Structural)]
pub struct StatusMessage {
    pub run: bool,
}

/// Why a service operation could not be carried out.
#[derive(Debug, Clone, Copy, PartialEq, Eq, Structural)]
pub enum SvcError {
    /// A required parameter was absent from the request.
    MissingParameter,
    /// A liveness check or a drain targeted an id that is not registered.
    UnknownInstance,
    /// The bus is closed: the consumer side is gone, nothing can be published.
    DispatchFailure,
}

} // verus!
