use vstd::prelude::*;

verus! {

/// Where a coordinator lives: the node that runs it and its process id
/// (`name:package:publisher`).
#[derive(Debug, Clone, PartialEq, Eq)]
pub struct Address {
    pub node: String,
    pub process: String,
}

/// A job handed out by the coordinator.
#[derive(Debug, Clone, PartialEq, Eq)]
pub struct WorkRequest {
    pub id: String,
    pub model: String,
    pub uri: String,
    pub timestamp: u64,
}

/// The outcome of a job. Each embedding is held as the IEEE-754 bit pattern
/// of a 32-bit float, so that the value passes through unchanged.
#[derive(Debug, Clone, PartialEq, Eq)]
pub struct WorkResult {
    pub id: String,
    pub embeddings: Vec<u32>,
    pub timestamp: u64,
}

/// A failed job.
#[derive(Debug, Clone, PartialEq, Eq)]
pub struct WorkError {
    pub id: String,
    pub error: String,
    pub timestamp: u64,
}

/// Lifecycle of the provider.
#[derive(Debug, Clone, PartialEq, Eq)]
pub enum ProviderState {
    /// Online, no coordinator assigned.
    Unbound,
    /// Online, bound to a coordinator, ready for work.
    Idle,
    /// Offline.
    Offline,
    /// Online, processing a request.
    Working { request: WorkRequest, progress: Option<u32> },
    /// Online, in error; still bound to its coordinator.
    Failed { error: WorkError },
}

/// What can move the provider from one state to the next.
#[derive(Debug, Clone, PartialEq, Eq)]
pub enum ProviderEvent {
    RegisterWithCoordinator(Address),
    StartWork(WorkRequest),
    CompleteWork(WorkResult),
    FailWork { error: WorkError },
    UpdateProgress(u32),
    Kicked,
    GoOffline,
    GoOnline(Address),
    Error(String),
}

/// Requests that the provider sends to its coordinator.
#[derive(Debug, Clone, PartialEq, Eq)]
pub enum CoordinatorRequest {
    RegisterProvider { supported_models: Vec<String> },
    ProviderReady,
    GoOffline,
}

/// The coordinator's answers to a `CoordinatorRequest`.
#[derive(Debug, Clone, PartialEq, Eq)]
pub enum CoordinatorResponse {
    ProviderRegistered { required_models: Vec<String> },
    RegistrationRejected { reason: String },
    NoWorkAvailable,
    Ack,
    Nack,
    Error(String),
}

/// Coarse status of a provider as a coordinator sees it.
#[derive(Debug, Clone, Copy, PartialEq, Eq)]
pub enum ProviderStatus {
    Idle,
    Working,
    Offline,
}

/// Messages that a coordinator sends unprompted.
#[derive(Debug, Clone, PartialEq, Eq)]
pub enum ProviderRequest {
    HealthPing,
    AssignWork(WorkRequest),
    Kick,
}

/// Messages from the provider to the coordinator.
#[derive(Debug, Clone, PartialEq, Eq)]
pub enum ProviderResponse {
    HealthPong,
    WorkAssigned,
    WorkCompleted { result: WorkResult },
    WorkFailed { error: WorkError },
    Error(String),
}

/// An event that the current state does not accept. The state is left as it was.
#[derive(Debug, Clone, PartialEq, Eq)]
pub struct InvalidTransition {
    pub state: ProviderState,
    pub event: ProviderEvent,
}

/// Failures at the routing boundary.
#[derive(Debug, Clone, PartialEq, Eq)]
pub enum RouteError {
    /// A push addressed to, or received from, a channel that is not open.
    UnknownChannel(u32),
    /// A message that no handler takes.
    UnroutableMessage,
    /// A coordinator answer that the exchange in progress does not expect.
    UnexpectedResponse,
}

impl Address {
    pub fn copied(&self) -> (r: Self)
        ensures
            r == *self,
    {
        Address { node: self.node.clone(), process: self.process.clone() }
    }
}

impl WorkRequest {
    pub fn copied(&self) -> (r: Self)
        ensures
            r == *self,
    {
        WorkRequest {
            id: self.id.clone(),
            model: self.model.clone(),
            uri: self.uri.clone(),
            timestamp: self.timestamp,
        }
    }
}

impl WorkError {
    pub fn copied(&self) -> (r: Self)
        ensures
            r == *self,
    {
        WorkError { id: self.id.clone(), error: self.error.clone(), timestamp: self.timestamp }
    }
}

impl ProviderState {
    pub fn copied(&self) -> (r: Self)
        ensures
            r == *self,
    {
        match self {
            ProviderState::Unbound => ProviderState::Unbound,
            ProviderState::Idle => ProviderState::Idle,
            ProviderState::Offline => ProviderState::Offline,
            ProviderState::Working { request, progress } => ProviderState::Working {
                request: request.copied(),
                progress: *progress,
            },
            ProviderState::Failed { error } => ProviderState::Failed { error: error.copied() },
        }
    }
}

} // verus!
