pub mod types;
pub mod laws;
pub mod router;
pub mod channels;
pub mod lifecycle;
pub mod machine;

pub use types::{
    Address, CoordinatorRequest, CoordinatorResponse, InvalidTransition, ProviderEvent,
    ProviderRequest, ProviderResponse, ProviderState, ProviderStatus, RouteError, WorkError,
    WorkRequest, WorkResult,
};
pub use machine::State;
pub use lifecycle::{Registration, registration_outcome, ready_event, progress_event, reply_to};
pub use channels::ChannelSet;
pub use router::{ChannelCommand, Endpoint, Origin, channel_command, endpoint_of, origin_of};
