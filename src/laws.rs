use vstd::prelude::*;
use crate::machine::State;
use crate::types::{ProviderEvent, ProviderState, WorkError, WorkRequest, WorkResult};

verus! {

/// A (state, event) pair that the transition table does not list leads
/// nowhere: no state is a successor of it.
pub proof fn lemma_unlisted_pairs_fail(s: State, e: ProviderEvent)
    requires
        !s.accepts(e),
    ensures
        forall|t: State| !#[trigger] s.steps_to(e, t),
{
}

/// A job is completed or failed exactly when the outcome carries the id of
/// the job in flight.
pub proof fn lemma_outcome_needs_matching_id(
    s: State,
    request: WorkRequest,
    progress: Option<u32>,
    result: WorkResult,
    error: WorkError,
)
    requires
        s.state == (ProviderState::Working { request, progress }),
    ensures
        s.accepts(ProviderEvent::CompleteWork(result)) <==> request.id@ == result.id@,
        s.accepts(ProviderEvent::FailWork { error }) <==> request.id@ == error.id@,
{
}

/// `Kicked` and `Error` are accepted in every state, and lead to `Unbound`
/// and to `Failed` respectively.
pub proof fn lemma_escapes_from_every_state(s: State, message: String)
    ensures
        s.accepts(ProviderEvent::Kicked),
        s.accepts(ProviderEvent::Error(message)),
        forall|t: State| #[trigger]
            s.steps_to(ProviderEvent::Kicked, t) ==> t.state is Unbound && t.coordinator is None,
        forall|t: State| #[trigger]
            s.steps_to(ProviderEvent::Error(message), t) ==> t.state is Failed,
{
}

/// Reporting the same progress twice leaves the state as the first report did.
pub proof fn lemma_progress_idempotent(s: State, p: u32, t: State, u: State)
    requires
        s.steps_to(ProviderEvent::UpdateProgress(p), t),
        t.steps_to(ProviderEvent::UpdateProgress(p), u),
    ensures
        u == t,
{
}

/// Only an idle or failed provider takes work: a second job while working is
/// refused, as is any job while offline or unbound.
pub proof fn lemma_work_taken_only_when_free(s: State, request: WorkRequest)
    ensures
        s.accepts(ProviderEvent::StartWork(request)) <==> (s.state is Idle || s.state is Failed),
{
}

/// Every transition keeps an unbound provider without a coordinator.
pub proof fn lemma_transitions_keep_wf(s: State, e: ProviderEvent, t: State)
    requires
        s.wf(),
        s.steps_to(e, t),
    ensures
        t.wf(),
{
}

} // verus!
