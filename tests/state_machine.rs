use provider::{
    Address, InvalidTransition, ProviderEvent, ProviderState, State, WorkError, WorkRequest,
    WorkResult,
};

fn coordinator() -> Address {
    Address {
        node: "pertinent.os".to_string(),
        process: "coordinator:coordinator:haeceity.os".to_string(),
    }
}

fn request(id: &str) -> WorkRequest {
    WorkRequest {
        id: id.to_string(),
        model: "clip-vit-base-patch16".to_string(),
        uri: "https://example.org/a.png".to_string(),
        timestamp: 1700000000,
    }
}

fn result(id: &str) -> WorkResult {
    WorkResult { id: id.to_string(), embeddings: vec![0.5f32.to_bits(), 1.0f32.to_bits()], timestamp: 5 }
}

fn error(id: &str) -> WorkError {
    WorkError { id: id.to_string(), error: "boom".to_string(), timestamp: 6 }
}

fn working(id: &str) -> State {
    let mut s = State::new();
    s.transition(ProviderEvent::RegisterWithCoordinator(coordinator())).unwrap();
    s.transition(ProviderEvent::StartWork(request(id))).unwrap();
    s
}

fn with_state(state: ProviderState) -> State {
    let mut s = State::new();
    s.state = state;
    s
}

fn all_states() -> Vec<ProviderState> {
    vec![
        ProviderState::Unbound,
        ProviderState::Idle,
        ProviderState::Offline,
        ProviderState::Working { request: request("1"), progress: None },
        ProviderState::Failed { error: error("1") },
    ]
}

#[test]
fn new_state_is_unbound_with_default_model() {
    let s = State::new();
    assert_eq!(s.state, ProviderState::Unbound);
    assert_eq!(s.coordinator, None);
    assert_eq!(s.supported_models, vec!["clip-vit-base-patch16".to_string()]);
}

#[test]
fn scenario_register_work_progress_complete() {
    let mut s = State::new();
    s.transition(ProviderEvent::RegisterWithCoordinator(coordinator())).unwrap();
    assert_eq!(s.state, ProviderState::Idle);
    assert_eq!(s.coordinator, Some(coordinator()));
    s.transition(ProviderEvent::StartWork(request("1"))).unwrap();
    assert_eq!(s.state, ProviderState::Working { request: request("1"), progress: None });
    s.transition(ProviderEvent::UpdateProgress(50)).unwrap();
    assert_eq!(s.state, ProviderState::Working { request: request("1"), progress: Some(50) });
    s.transition(ProviderEvent::CompleteWork(result("1"))).unwrap();
    assert_eq!(s.state, ProviderState::Idle);
    assert_eq!(s.coordinator, Some(coordinator()));
}

#[test]
fn scenario_fail_with_wrong_id_is_rejected() {
    let mut s = working("7");
    let before = s.clone();
    let r = s.transition(ProviderEvent::FailWork { error: error("5") });
    assert_eq!(
        r,
        Err(InvalidTransition {
            state: before.state.clone(),
            event: ProviderEvent::FailWork { error: error("5") },
        })
    );
    assert_eq!(s, before);
    assert_eq!(s.state, ProviderState::Working { request: request("7"), progress: None });
}

#[test]
fn complete_with_wrong_id_is_rejected() {
    let mut s = working("7");
    let before = s.clone();
    assert!(s.transition(ProviderEvent::CompleteWork(result("8"))).is_err());
    assert_eq!(s, before);
}

#[test]
fn fail_with_matching_id_fails_the_job() {
    let mut s = working("7");
    s.transition(ProviderEvent::FailWork { error: error("7") }).unwrap();
    assert_eq!(s.state, ProviderState::Failed { error: error("7") });
}

#[test]
fn scenario_second_assignment_while_working_is_rejected() {
    let mut s = working("1");
    let before = s.clone();
    assert!(s.transition(ProviderEvent::StartWork(request("2"))).is_err());
    assert_eq!(s, before);
}

#[test]
fn offline_and_unbound_refuse_work() {
    for st in [ProviderState::Offline, ProviderState::Unbound] {
        let mut s = with_state(st);
        let before = s.clone();
        assert!(s.transition(ProviderEvent::StartWork(request("1"))).is_err());
        assert_eq!(s, before);
    }
}

#[test]
fn failed_goes_idle_on_start_work() {
    let mut s = with_state(ProviderState::Failed { error: error("1") });
    s.transition(ProviderEvent::StartWork(request("2"))).unwrap();
    assert_eq!(s.state, ProviderState::Idle);
}

#[test]
fn unlisted_pairs_fail_and_keep_state() {
    let unlisted = [
        (ProviderState::Unbound, ProviderEvent::GoOffline),
        (ProviderState::Offline, ProviderEvent::GoOffline),
        (ProviderState::Idle, ProviderEvent::UpdateProgress(3)),
        (ProviderState::Idle, ProviderEvent::CompleteWork(result("1"))),
        (ProviderState::Offline, ProviderEvent::FailWork { error: error("1") }),
        (ProviderState::Failed { error: error("1") }, ProviderEvent::UpdateProgress(1)),
        (ProviderState::Working { request: request("1"), progress: None }, ProviderEvent::GoOffline),
    ];
    for (st, ev) in unlisted {
        let mut s = with_state(st);
        let before = s.clone();
        let r = s.transition(ev.clone());
        assert_eq!(r, Err(InvalidTransition { state: before.state.clone(), event: ev }));
        assert_eq!(s, before);
    }
}

#[test]
fn kicked_and_error_escape_every_state() {
    for st in all_states() {
        let mut s = with_state(st.clone());
        s.coordinator = Some(coordinator());
        s.transition(ProviderEvent::Kicked).unwrap();
        assert_eq!(s.state, ProviderState::Unbound);
        assert_eq!(s.coordinator, None);

        let mut s = with_state(st);
        s.transition(ProviderEvent::Error("lost".to_string())).unwrap();
        assert_eq!(
            s.state,
            ProviderState::Failed {
                error: WorkError { id: String::new(), error: "lost".to_string(), timestamp: 0 }
            }
        );
    }
}

#[test]
fn register_and_go_online_bind_from_every_state() {
    for st in all_states() {
        let mut s = with_state(st.clone());
        s.transition(ProviderEvent::GoOnline(coordinator())).unwrap();
        assert_eq!(s.state, ProviderState::Idle);
        assert_eq!(s.coordinator, Some(coordinator()));
        let mut s = with_state(st);
        s.transition(ProviderEvent::RegisterWithCoordinator(coordinator())).unwrap();
        assert_eq!(s.state, ProviderState::Idle);
        assert_eq!(s.coordinator, Some(coordinator()));
    }
}

#[test]
fn idle_goes_offline() {
    let mut s = with_state(ProviderState::Idle);
    s.transition(ProviderEvent::GoOffline).unwrap();
    assert_eq!(s.state, ProviderState::Offline);
}

#[test]
fn progress_twice_is_idempotent() {
    let mut s = working("3");
    s.transition(ProviderEvent::UpdateProgress(40)).unwrap();
    let once = s.clone();
    s.transition(ProviderEvent::UpdateProgress(40)).unwrap();
    assert_eq!(s, once);
    assert_eq!(s.state, ProviderState::Working { request: request("3"), progress: Some(40) });
}

#[test]
fn restore_keeps_snapshot_or_falls_back() {
    let snapshot = working("9");
    assert_eq!(State::restore(Some(snapshot.clone())), snapshot);
    assert_eq!(State::restore(None), State::new());
}
