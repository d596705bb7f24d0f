use jarvis_supervisor::error::{ProtocolFault, SupervisorError};
use jarvis_supervisor::probe::{classify_status, is_success, liveness, HttpOutcome};
use jarvis_supervisor::supervisor::{
    AppState, LaunchOutcome, Phase, StartPlan, StopPlan, TerminateOutcome,
    VerifyCommit,
};

fn launched() -> (AppState, u64) {
    let mut s = AppState::new();
    assert_eq!(s.begin_start(), StartPlan::Launch);
    let ticket = s.commit_launch(LaunchOutcome::Spawned).unwrap();
    (s, ticket)
}

fn answered(code: u16, body: &str) -> HttpOutcome {
    HttpOutcome::Answered { code, body: body.as_bytes().to_vec() }
}

#[test]
fn new_state_is_stopped() {
    let s = AppState::new();
    assert!(!s.is_running());
    assert!(!s.has_child());
    assert_eq!(s.phase(), Phase::Stopped);
    assert!(s.can_launch());
}

#[test]
fn start_twice_spawns_once() {
    let (s, ticket) = launched();
    assert_eq!(ticket, 0);
    assert!(s.is_running());
    assert_eq!(s.phase(), Phase::Starting);
    assert_eq!(s.begin_start(), StartPlan::AlreadyRunning);
    assert_eq!(s.begin_stop(), StopPlan::Terminate { ticket: 0 });
}

#[test]
fn stop_without_child_succeeds() {
    let s = AppState::new();
    assert_eq!(s.begin_stop(), StopPlan::NothingToStop);
    assert!(!s.is_running());
}

#[test]
fn stop_then_start_again() {
    let (mut s, ticket) = launched();
    assert_eq!(s.commit_stop(TerminateOutcome::Terminated), Ok(()));
    assert!(!s.is_running());
    assert!(!s.has_child());
    assert_eq!(s.phase(), Phase::Stopped);
    assert_eq!(s.begin_stop(), StopPlan::NothingToStop);
    assert_eq!(s.begin_start(), StartPlan::Launch);
    assert_eq!(
        s.commit_launch(LaunchOutcome::Spawned),
        Ok(ticket + 1)
    );
    assert!(s.is_running());
}

#[test]
fn stale_verification_after_stop() {
    let (mut s, ticket) = launched();
    assert_eq!(s.commit_stop(TerminateOutcome::Terminated), Ok(()));
    assert_eq!(s.commit_verification(ticket, true), VerifyCommit::Stale);
    assert!(!s.is_running());
    assert_eq!(s.phase(), Phase::Stopped);
}

#[test]
fn stale_verification_after_restart() {
    let (mut s, old_ticket) = launched();
    assert_eq!(s.commit_stop(TerminateOutcome::Terminated), Ok(()));
    let new_ticket = s.commit_launch(LaunchOutcome::Spawned).unwrap();
    assert_ne!(new_ticket, old_ticket);
    assert_eq!(s.commit_verification(old_ticket, false), VerifyCommit::Stale);
    assert!(s.is_running());
    assert_eq!(s.phase(), Phase::Starting);
    assert_eq!(s.commit_verification(new_ticket, true), VerifyCommit::Confirmed);
    assert_eq!(s.phase(), Phase::Running);
}

#[test]
fn status_leaves_running_flag() {
    let (s, _) = launched();
    for _ in 0..3 {
        let _ = classify_status(HttpOutcome::Transport("connection refused".to_string()));
        let _ = classify_status(answered(500, ""));
        let _ = classify_status(answered(200, "{\"ok\":true}"));
        assert!(s.is_running());
    }
    let idle = AppState::new();
    let _ = classify_status(answered(200, "{}"));
    assert!(!idle.is_running());
}

#[test]
fn missing_artifact_keeps_stopped() {
    let mut s = AppState::new();
    assert_eq!(
        s.commit_launch(LaunchOutcome::ArtifactMissing),
        Err(SupervisorError::MissingArtifact)
    );
    assert!(!s.is_running());
    assert!(!s.has_child());
    assert_eq!(s.begin_start(), StartPlan::Launch);
}

#[test]
fn spawn_failure_keeps_stopped() {
    let mut s = AppState::new();
    assert_eq!(
        s.commit_launch(LaunchOutcome::SpawnFailed("no such program".to_string())),
        Err(SupervisorError::SpawnError("no such program".to_string()))
    );
    assert!(!s.is_running());
    assert_eq!(s.phase(), Phase::Stopped);
}

#[test]
fn silent_child_crashes_then_stops() {
    let (mut s, ticket) = launched();
    let probe = HttpOutcome::Transport("timed out".to_string());
    assert_eq!(s.commit_liveness(ticket, &probe), VerifyCommit::Crashed);
    assert!(!s.is_running());
    assert!(s.has_child());
    assert_eq!(s.phase(), Phase::Crashed);
    assert_eq!(s.begin_start(), StartPlan::AlreadyRunning);
    assert_eq!(s.begin_stop(), StopPlan::Terminate { ticket });
    assert_eq!(s.commit_stop(TerminateOutcome::Terminated), Ok(()));
    assert!(!s.has_child());
    assert_eq!(s.phase(), Phase::Stopped);
}

#[test]
fn live_child_is_confirmed() {
    let (mut s, ticket) = launched();
    assert_eq!(s.commit_liveness(ticket, &answered(200, "hello")), VerifyCommit::Confirmed);
    assert!(s.is_running());
    assert_eq!(s.phase(), Phase::Running);
}

#[test]
fn liveness_error_status_crashes() {
    let (mut s, ticket) = launched();
    assert_eq!(s.commit_liveness(ticket, &answered(404, "")), VerifyCommit::Crashed);
    assert_eq!(s.phase(), Phase::Crashed);
}

#[test]
fn failed_terminate_keeps_handle() {
    let (mut s, ticket) = launched();
    assert_eq!(
        s.commit_stop(TerminateOutcome::Failed("permission denied".to_string())),
        Err(SupervisorError::TerminateError("permission denied".to_string()))
    );
    assert!(s.has_child());
    assert!(s.is_running());
    assert_eq!(s.begin_stop(), StopPlan::Terminate { ticket });
    assert_eq!(s.commit_stop(TerminateOutcome::Terminated), Ok(()));
    assert!(!s.has_child());
}

#[test]
fn interleaved_start_stop_race() {
    // start, stop, start again, then both verifications land late
    let (mut s, first) = launched();
    assert_eq!(s.commit_stop(TerminateOutcome::Terminated), Ok(()));
    let second = s.commit_launch(LaunchOutcome::Spawned).unwrap();
    assert_eq!(s.commit_stop(TerminateOutcome::Terminated), Ok(()));
    assert_eq!(s.commit_verification(second, true), VerifyCommit::Stale);
    assert_eq!(s.commit_verification(first, true), VerifyCommit::Stale);
    assert_eq!(s.phase(), Phase::Stopped);
    assert!(!s.is_running());
    assert!(!s.has_child());
}

#[test]
fn status_http_500_is_protocol_error() {
    let s = AppState::new();
    assert_eq!(
        classify_status(answered(500, "Internal Server Error")).unwrap_err(),
        SupervisorError::ProtocolError(ProtocolFault::Status(500))
    );
    assert!(!s.is_running());
}

#[test]
fn status_transport_failure() {
    assert_eq!(
        classify_status(HttpOutcome::Transport("connection refused".to_string())).unwrap_err(),
        SupervisorError::TransportError("connection refused".to_string())
    );
}

#[test]
fn status_undecodable_body() {
    match classify_status(answered(200, "not json")) {
        Err(SupervisorError::ProtocolError(ProtocolFault::Decode(msg))) => assert!(!msg.is_empty()),
        other => panic!("unexpected status result {:?}", other),
    }
    assert!(matches!(
        classify_status(answered(200, "")),
        Err(SupervisorError::ProtocolError(ProtocolFault::Decode(_)))
    ));
}

#[test]
fn status_forwards_payload() {
    let payload = classify_status(answered(200, " {\"state\":\"ready\",\"load\":3} ")).unwrap();
    assert_eq!(payload["state"], "ready");
    assert_eq!(payload["load"], 3);
    let empty = classify_status(answered(299, "[]")).unwrap();
    assert!(empty.as_array().unwrap().is_empty());
}

#[test]
fn success_class_bounds() {
    assert!(!is_success(199));
    assert!(is_success(200));
    assert!(is_success(299));
    assert!(!is_success(300));
    assert!(!is_success(500));
    assert_eq!(classify_status(answered(300, "{}")).unwrap_err(),
        SupervisorError::ProtocolError(ProtocolFault::Status(300)));
}

#[test]
fn liveness_classification() {
    assert!(liveness(&answered(204, "")));
    assert!(!liveness(&answered(503, "")));
    assert!(!liveness(&HttpOutcome::Transport("refused".to_string())));
}
