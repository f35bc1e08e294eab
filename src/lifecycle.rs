use vstd::prelude::*;
use crate::machine::State;
use crate::types::{
    Address, CoordinatorRequest, CoordinatorResponse, ProviderEvent, ProviderRequest,
    ProviderResponse, ProviderState, RouteError, WorkError, WorkResult,
};

verus! {

/// What a registration attempt amounts to: the event to apply, and what the
/// control surface answers.
#[derive(Debug, Clone, PartialEq, Eq)]
pub struct Registration {
    pub event: ProviderEvent,
    pub success: bool,
    pub required_models: Option<Vec<String>>,
    pub message: Option<String>,
}

/// The message recorded when the coordinator answers a registration with `Nack`.
pub open spec fn nack_message() -> Seq<char> {
    "Nack received"@
}

/// The answer owed to an unprompted coordinator message; `Kick` gets none.
pub fn reply_to(request: &ProviderRequest) -> (r: Option<ProviderResponse>)
    ensures
        request is HealthPing ==> r == Some(ProviderResponse::HealthPong),
        request is AssignWork ==> r == Some(ProviderResponse::WorkAssigned),
        request is Kick ==> r is None,
{
    match request {
        ProviderRequest::HealthPing => Some(ProviderResponse::HealthPong),
        ProviderRequest::AssignWork(_) => Some(ProviderResponse::WorkAssigned),
        ProviderRequest::Kick => None,
    }
}

/// Decides the event that follows a registration attempt with `coordinator`.
/// An acceptance, or `Ack` (already registered), binds the provider; a
/// rejection or `Nack` leaves it failed with the reason. Any other answer is
/// not part of the exchange.
pub fn registration_outcome(coordinator: Address, response: CoordinatorResponse) -> (r: Result<
    Registration,
    RouteError,
>)
    ensures
        response matches CoordinatorResponse::ProviderRegistered { required_models } ==> r
            == Ok::<_, RouteError>(
            Registration {
                event: ProviderEvent::RegisterWithCoordinator(coordinator),
                success: true,
                required_models: Some(required_models),
                message: None,
            },
        ),
        response matches CoordinatorResponse::RegistrationRejected { reason } ==> r
            == Ok::<_, RouteError>(
            Registration {
                event: ProviderEvent::Error(reason),
                success: false,
                required_models: None,
                message: Some(reason),
            },
        ),
        response is Ack ==> r == Ok::<_, RouteError>(
            Registration {
                event: ProviderEvent::RegisterWithCoordinator(coordinator),
                success: true,
                required_models: None,
                message: None,
            },
        ),
        response is Nack ==> (r matches Ok(reg) && !reg.success && reg.required_models is None
            && (reg.event matches ProviderEvent::Error(m) && reg.message == Some(m) && m@
            == nack_message())),
        (response is NoWorkAvailable || response is Error) ==> r == Err::<Registration, _>(
            RouteError::UnexpectedResponse,
        ),
{
    match response {
        CoordinatorResponse::ProviderRegistered { required_models } => Ok(
            Registration {
                event: ProviderEvent::RegisterWithCoordinator(coordinator),
                success: true,
                required_models: Some(required_models),
                message: None,
            },
        ),
        CoordinatorResponse::RegistrationRejected { reason } => {
            let message = reason.clone();
            Ok(
                Registration {
                    event: ProviderEvent::Error(reason),
                    success: false,
                    required_models: None,
                    message: Some(message),
                },
            )
        },
        CoordinatorResponse::Ack => Ok(
            Registration {
                event: ProviderEvent::RegisterWithCoordinator(coordinator),
                success: true,
                required_models: None,
                message: None,
            },
        ),
        CoordinatorResponse::Nack => {
            let reason: String = "Nack received".to_owned();
            let message = reason.clone();
            proof {
                reveal_strlit("Nack received");
            }
            Ok(
                Registration {
                    event: ProviderEvent::Error(reason),
                    success: false,
                    required_models: None,
                    message: Some(message),
                },
            )
        },
        _ => Err(RouteError::UnexpectedResponse),
    }
}

/// The event that follows a readiness check. Only an `Ack` from the bound
/// coordinator keeps the provider online; a `Nack`, any other answer, a
/// timeout (`None`) or having no coordinator at all counts as being kicked.
pub fn ready_event(coordinator: &Option<Address>, reply: &Option<CoordinatorResponse>) -> (r:
    ProviderEvent)
    ensures
        (coordinator is Some && *reply == Some(CoordinatorResponse::Ack)) ==> r
            == ProviderEvent::GoOnline(coordinator->0),
        !(coordinator is Some && *reply == Some(CoordinatorResponse::Ack)) ==> r
            == ProviderEvent::Kicked,
{
    match (coordinator, reply) {
        (Some(c), Some(CoordinatorResponse::Ack)) => ProviderEvent::GoOnline(c.copied()),
        _ => ProviderEvent::Kicked,
    }
}

/// The progress event for a value read from a channel; the value is taken
/// modulo 2^32.
pub fn progress_event(progress: u64) -> (r: ProviderEvent)
    ensures
        r == ProviderEvent::UpdateProgress(progress as u32),
{
    ProviderEvent::UpdateProgress(progress as u32)
}

impl State {
    /// The registration request that announces this provider's capabilities.
    pub fn registration_request(&self) -> (r: CoordinatorRequest)
        ensures
            r matches CoordinatorRequest::RegisterProvider { supported_models } && supported_models@
                == self.supported_models@,
    {
        let mut models: Vec<String> = Vec::new();
        let n = self.supported_models.len();
        let mut i: usize = 0;
        while i < n
            invariant
                n == self.supported_models@.len(),
                i <= n,
                models@ == self.supported_models@.subrange(0, i as int),
            decreases n - i,
        {
            models.push(self.supported_models[i].clone());
            i = i + 1;
        }
        assert(self.supported_models@.subrange(0, n as int) =~= self.supported_models@);
        CoordinatorRequest::RegisterProvider { supported_models: models }
    }

    /// The result of the in-flight job, if there is one, built from what an
    /// execution channel reported. The event that carries it is accepted.
    pub fn work_completed(&self, embeddings: Vec<u32>, timestamp: u64) -> (r: Option<WorkResult>)
        ensures
            self.state is Working <==> r is Some,
            r matches Some(res) ==> {
                &&& self.state matches ProviderState::Working { request, .. } && res.id
                    == request.id
                &&& res.embeddings == embeddings
                &&& res.timestamp == timestamp
                &&& self.accepts(ProviderEvent::CompleteWork(res))
            },
    {
        match &self.state {
            ProviderState::Working { request, .. } => Some(
                WorkResult { id: request.id.clone(), embeddings, timestamp },
            ),
            _ => None,
        }
    }

    /// The failure of the in-flight job, if there is one. The event that
    /// carries it is accepted.
    pub fn work_failed(&self, error: String, timestamp: u64) -> (r: Option<WorkError>)
        ensures
            self.state is Working <==> r is Some,
            r matches Some(e) ==> {
                &&& self.state matches ProviderState::Working { request, .. } && e.id == request.id
                &&& e.error == error
                &&& e.timestamp == timestamp
                &&& self.accepts(ProviderEvent::FailWork { error: e })
            },
    {
        match &self.state {
            ProviderState::Working { request, .. } => Some(
                WorkError { id: request.id.clone(), error, timestamp },
            ),
            _ => None,
        }
    }
}

} // verus!
