use vstd::prelude::*;
use crate::types::{Address, InvalidTransition, ProviderEvent, ProviderState, WorkError};

verus! {

/// Everything the provider keeps between messages.
#[derive(Debug, Clone, PartialEq, Eq)]
pub struct State {
    pub state: ProviderState,
    pub coordinator: Option<Address>,
    pub supported_models: Vec<String>,
}

/// The error that an `Error(message)` event records: no job id, no timestamp.
pub open spec fn is_synthetic_error(e: WorkError, message: String) -> bool {
    &&& e.id@ == Seq::<char>::empty()
    &&& e.error == message
    &&& e.timestamp == 0
}

impl State {
    /// The state a provider starts in: unbound, with its one capability tag.
    pub open spec fn is_initial(self) -> bool {
        &&& self.state is Unbound
        &&& self.coordinator is None
        &&& self.supported_models@.len() == 1
        &&& self.supported_models@[0]@ == "clip-vit-base-patch16"@
    }

    /// An unbound provider holds no coordinator. (The converse is not kept:
    /// an error while unbound leaves a failed provider without one.)
    pub open spec fn wf(self) -> bool {
        self.state is Unbound ==> self.coordinator is None
    }

    /// Whether the transition table has an entry for this state and event.
    pub open spec fn accepts(self, e: ProviderEvent) -> bool {
        match e {
            ProviderEvent::RegisterWithCoordinator(_) => true,
            ProviderEvent::GoOnline(_) => true,
            ProviderEvent::Kicked => true,
            ProviderEvent::Error(_) => true,
            ProviderEvent::GoOffline => self.state is Idle,
            ProviderEvent::StartWork(_) => self.state is Idle || self.state is Failed,
            ProviderEvent::CompleteWork(res) => self.state matches ProviderState::Working {
                request,
                ..
            } && request.id@ == res.id@,
            ProviderEvent::FailWork { error } => self.state matches ProviderState::Working {
                request,
                ..
            } && request.id@ == error.id@,
            ProviderEvent::UpdateProgress(_) => self.state is Working,
        }
    }

    /// `t` is the state that the transition table gives for `self` and `e`.
    pub open spec fn steps_to(self, e: ProviderEvent, t: State) -> bool {
        &&& self.accepts(e)
        &&& t.supported_models == self.supported_models
        &&& match e {
            ProviderEvent::RegisterWithCoordinator(a) => t.state is Idle && t.coordinator == Some(
                a,
            ),
            ProviderEvent::GoOnline(a) => t.state is Idle && t.coordinator == Some(a),
            ProviderEvent::Kicked => t.state is Unbound && t.coordinator is None,
            ProviderEvent::Error(m) => {
                &&& t.coordinator == self.coordinator
                &&& t.state matches ProviderState::Failed { error } && is_synthetic_error(error, m)
            },
            ProviderEvent::GoOffline => t.state is Offline && t.coordinator == self.coordinator,
            ProviderEvent::StartWork(r) => {
                &&& t.coordinator == self.coordinator
                &&& self.state is Idle ==> t.state == ProviderState::Working {
                    request: r,
                    progress: None,
                }
                &&& self.state is Failed ==> t.state is Idle
            },
            ProviderEvent::CompleteWork(_) => t.state is Idle && t.coordinator == self.coordinator,
            ProviderEvent::FailWork { error } => t.state == ProviderState::Failed { error }
                && t.coordinator == self.coordinator,
            ProviderEvent::UpdateProgress(p) => {
                &&& t.coordinator == self.coordinator
                &&& self.state matches ProviderState::Working { request, .. } && t.state
                    == ProviderState::Working { request, progress: Some(p) }
            },
        }
    }

    pub fn new() -> (r: Self)
        ensures
            r.is_initial(),
            r.wf(),
    {
        let model: String = "clip-vit-base-patch16".to_owned();
        let mut models: Vec<String> = Vec::new();
        models.push(model);
        State { state: ProviderState::Unbound, coordinator: None, supported_models: models }
    }

    /// The state to run with after a restart: the decoded snapshot if there is
    /// one, else a fresh state.
    pub fn restore(decoded: Option<State>) -> (r: Self)
        ensures
            decoded matches Some(s) ==> r == s,
            decoded is None ==> r.is_initial(),
    {
        match decoded {
            Some(s) => s,
            None => State::new(),
        }
    }

    fn reject(&self, event: ProviderEvent) -> (r: Result<(), InvalidTransition>)
        ensures
            r == Err::<(), _>(InvalidTransition { state: self.state, event }),
    {
        Err(InvalidTransition { state: self.state.copied(), event })
    }

    /// Applies one event. An event that the table does not accept for the
    /// current state fails and leaves the state as it was.
    pub fn transition(&mut self, event: ProviderEvent) -> (r: Result<(), InvalidTransition>)
        ensures
            r is Ok <==> old(self).accepts(event),
            r is Ok ==> old(self).steps_to(event, *final(self)),
            r is Err ==> *final(self) == *old(self),
            r is Err ==> r == Err::<(), _>(
                InvalidTransition { state: old(self).state, event },
            ),
    {
        match event {
            ProviderEvent::RegisterWithCoordinator(addr) => {
                self.coordinator = Some(addr);
                self.state = ProviderState::Idle;
                Ok(())
            },
            ProviderEvent::GoOnline(addr) => {
                self.coordinator = Some(addr);
                self.state = ProviderState::Idle;
                Ok(())
            },
            ProviderEvent::Kicked => {
                self.coordinator = None;
                self.state = ProviderState::Unbound;
                Ok(())
            },
            ProviderEvent::Error(message) => {
                let error = WorkError { id: String::new(), error: message, timestamp: 0 };
                self.state = ProviderState::Failed { error };
                Ok(())
            },
            ProviderEvent::GoOffline => {
                if matches!(self.state, ProviderState::Idle) {
                    self.state = ProviderState::Offline;
                    Ok(())
                } else {
                    self.reject(ProviderEvent::GoOffline)
                }
            },
            ProviderEvent::StartWork(request) => {
                if matches!(self.state, ProviderState::Idle) {
                    self.state = ProviderState::Working { request, progress: None };
                    Ok(())
                } else if matches!(self.state, ProviderState::Failed { .. }) {
                    self.state = ProviderState::Idle;
                    Ok(())
                } else {
                    self.reject(ProviderEvent::StartWork(request))
                }
            },
            ProviderEvent::CompleteWork(result) => {
                let same = match &self.state {
                    ProviderState::Working { request, .. } => request.id == result.id,
                    _ => false,
                };
                if same {
                    self.state = ProviderState::Idle;
                    Ok(())
                } else {
                    self.reject(ProviderEvent::CompleteWork(result))
                }
            },
            ProviderEvent::FailWork { error } => {
                let same = match &self.state {
                    ProviderState::Working { request, .. } => request.id == error.id,
                    _ => false,
                };
                if same {
                    self.state = ProviderState::Failed { error };
                    Ok(())
                } else {
                    self.reject(ProviderEvent::FailWork { error })
                }
            },
            ProviderEvent::UpdateProgress(p) => {
                let mut current = ProviderState::Unbound;
                std::mem::swap(&mut current, &mut self.state);
                match current {
                    ProviderState::Working { request, .. } => {
                        self.state = ProviderState::Working { request, progress: Some(p) };
                        Ok(())
                    },
                    other => {
                        self.state = other;
                        self.reject(ProviderEvent::UpdateProgress(p))
                    },
                }
            },
        }
    }
}

} // verus!
