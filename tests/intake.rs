use human_index_prover::error::ServiceError;
use human_index_prover::intake::{AdmissionPolicy, IntakeAction, IntakeEvent, IntakePhase, MessageHandling};
use human_index_prover::messages::{JobRun, ProofData, ProofMetrics, ResponseStatus};

fn metrics() -> ProofMetrics {
    ProofMetrics {
        received_at: String::new(),
        started_at: String::new(),
        completed_at: String::new(),
        duration_ms: 0,
    }
}

fn ended(result: Option<Result<ProofData, ServiceError>>, elapsed_ms: u64) -> IntakeEvent {
    IntakeEvent::JobEnded { request_id: "r1".into(), run: JobRun { result, elapsed_ms }, metrics: metrics() }
}

fn count(actions: &[IntakeAction], f: fn(&IntakeAction) -> bool) -> usize {
    actions.iter().filter(|a| f(a)).count()
}

fn drive(policy: AdmissionPolicy, events: Vec<IntakeEvent>) -> (MessageHandling, Vec<IntakeAction>) {
    let (mut h, first) = MessageHandling::start(policy, 60);
    let mut actions = vec![first];
    for e in events {
        actions.push(h.handle(e));
    }
    (h, actions)
}

#[test]
fn accepted_message_is_acked_once_before_work_and_released_once() {
    let data = ProofData { proof: "p".into(), public_inputs: "v".into(), verification_key: "k".into(), human_index: 1 };
    let cases = vec![
        ended(Some(Ok(data)), 10),
        ended(Some(Err(ServiceError::ProofGeneration("x".into()))), 10),
        ended(None, 60_000),
    ];
    for end in cases {
        let (h, actions) = drive(
            AdmissionPolicy::BlockAndWait,
            vec![IntakeEvent::PermitGranted, IntakeEvent::Acknowledged, end, IntakeEvent::Published],
        );
        assert!(matches!(actions[0], IntakeAction::AcquirePermit { wait: true }));
        assert!(matches!(actions[1], IntakeAction::Acknowledge));
        assert!(matches!(actions[2], IntakeAction::Orchestrate { timeout_secs: 60 }));
        assert!(matches!(actions[3], IntakeAction::Publish { .. }));
        assert!(matches!(actions[4], IntakeAction::ReleasePermit));
        assert_eq!(count(&actions, |a| matches!(a, IntakeAction::Acknowledge)), 1);
        assert_eq!(count(&actions, |a| matches!(a, IntakeAction::ReleasePermit)), 1);
        assert_eq!(h.phase, IntakePhase::Finished);
        assert!(!h.holds_permit);
    }
}

#[test]
fn timed_out_job_publishes_timeout() {
    let (_, actions) = drive(
        AdmissionPolicy::BlockAndWait,
        vec![IntakeEvent::PermitGranted, IntakeEvent::Acknowledged, ended(None, 60_000)],
    );
    match &actions[3] {
        IntakeAction::Publish { response } => {
            assert_eq!(response.status, ResponseStatus::Timeout);
            assert_eq!(response.request_id, "r1");
            assert_eq!(response.error.as_ref().unwrap().message, "Proof generation timed out after 60 seconds");
        }
        other => panic!("unexpected {:?}", other),
    }
}

#[test]
fn ack_failure_releases_without_running_or_publishing() {
    let (h, actions) = drive(
        AdmissionPolicy::BlockAndWait,
        vec![IntakeEvent::PermitGranted, IntakeEvent::AckFailed("broker down".into()), IntakeEvent::Published],
    );
    assert!(matches!(actions[2], IntakeAction::ReleasePermit));
    assert!(matches!(actions[3], IntakeAction::Stop));
    assert_eq!(count(&actions, |a| matches!(a, IntakeAction::Orchestrate { .. })), 0);
    assert_eq!(count(&actions, |a| matches!(a, IntakeAction::Publish { .. })), 0);
    assert_eq!(h.phase, IntakePhase::Finished);
}

#[test]
fn full_gate_under_reject_policy_returns_message() {
    let (h, actions) = drive(AdmissionPolicy::RejectWhenFull, vec![IntakeEvent::PermitRefused]);
    assert!(matches!(actions[0], IntakeAction::AcquirePermit { wait: false }));
    assert!(matches!(actions[1], IntakeAction::ReturnMessage));
    assert_eq!(count(&actions, |a| matches!(a, IntakeAction::Acknowledge)), 0);
    assert_eq!(count(&actions, |a| matches!(a, IntakeAction::ReleasePermit)), 0);
    assert!(!h.holds_permit);
}

#[test]
fn unreadable_request_releases_without_publishing() {
    let (_, actions) = drive(
        AdmissionPolicy::BlockAndWait,
        vec![
            IntakeEvent::PermitGranted,
            IntakeEvent::Acknowledged,
            IntakeEvent::RequestUnreadable("expected value".into()),
        ],
    );
    assert!(matches!(actions[3], IntakeAction::ReleasePermit));
    assert_eq!(count(&actions, |a| matches!(a, IntakeAction::Publish { .. })), 0);
}

#[test]
fn publish_failure_still_releases_permit() {
    let data = ProofData { proof: "p".into(), public_inputs: "v".into(), verification_key: "k".into(), human_index: 1 };
    let (h, actions) = drive(
        AdmissionPolicy::BlockAndWait,
        vec![
            IntakeEvent::PermitGranted,
            IntakeEvent::Acknowledged,
            ended(Some(Ok(data)), 5),
            IntakeEvent::PublishFailed("topic gone".into()),
        ],
    );
    assert!(matches!(actions[4], IntakeAction::ReleasePermit));
    assert!(!h.holds_permit);
}
