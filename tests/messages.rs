use human_index_prover::error::ServiceError;
use human_index_prover::messages::{
    job_response, JobRun, ProofData, ProofMetrics, ProverResponse, ResponseStatus,
};

fn metrics() -> ProofMetrics {
    ProofMetrics {
        received_at: "2024-01-01T00:00:00+00:00".to_string(),
        started_at: "2024-01-01T00:00:01+00:00".to_string(),
        completed_at: "2024-01-01T00:00:05+00:00".to_string(),
        duration_ms: 5000,
    }
}

fn data() -> ProofData {
    ProofData {
        proof: "cA==".to_string(),
        public_inputs: "cHY=".to_string(),
        verification_key: "dms=".to_string(),
        human_index: 242,
    }
}

#[test]
fn error_types_name_each_kind() {
    assert_eq!(ServiceError::PubSub("x".into()).error_type(), "PubSubError");
    assert_eq!(ServiceError::ProofGeneration("x".into()).error_type(), "ProofGenerationError");
    assert_eq!(ServiceError::Serialization("x".into()).error_type(), "SerializationError");
    assert_eq!(ServiceError::Io("x".into()).error_type(), "IoError");
    assert_eq!(ServiceError::Config("x".into()).error_type(), "ConfigError");
    assert_eq!(ServiceError::Timeout("x".into()).error_type(), "TimeoutError");
    assert_eq!(ServiceError::Shutdown.error_type(), "ShutdownError");
    assert_eq!(ServiceError::WorkspaceCreation("x".into()).error_type(), "WorkspaceError");
    assert_eq!(ServiceError::SetupMissing("x".into()).error_type(), "SetupMissingError");
    assert_eq!(ServiceError::ArtifactMissing("proof".into()).error_type(), "ArtifactError");
    assert_eq!(ServiceError::ArtifactParse("x".into()).error_type(), "ArtifactError");
}

#[test]
fn error_messages_carry_their_detail() {
    assert_eq!(ServiceError::PubSub("down".into()).message(), "Pub/Sub error: down");
    assert_eq!(
        ServiceError::ProofGeneration("engine crashed".into()).message(),
        "Proof generation failed: engine crashed"
    );
    assert_eq!(ServiceError::Config("bad".into()).message(), "Configuration error: bad");
    assert_eq!(ServiceError::Shutdown.message(), "Shutdown signal received");
    assert_eq!(
        ServiceError::SetupMissing("vm_pk".into()).message(),
        "Setup artifacts missing: vm_pk"
    );
    assert_eq!(ServiceError::ArtifactMissing("proof".into()).message(), "Artifact missing: proof");
}

#[test]
fn constructors_set_status_and_fields() {
    let s = ProverResponse::success("r1".into(), data(), metrics());
    assert_eq!(s.status, ResponseStatus::Success);
    assert_eq!(s.request_id, "r1");
    assert!(s.error.is_none());
    assert_eq!(s.proof_data.unwrap().human_index, 242);
    let t = ProverResponse::timeout("r2".into(), "late".into(), None);
    assert_eq!(t.status, ResponseStatus::Timeout);
    let e = t.error.unwrap();
    assert_eq!(e.error_type, "TimeoutError");
    assert_eq!(e.message, "late");
    assert!(t.metrics.is_none());
}

#[test]
fn finished_run_in_time_is_success() {
    let run = JobRun { result: Some(Ok(data())), elapsed_ms: 4000 };
    let r = job_response("r1".into(), run, 3600, metrics());
    assert_eq!(r.status, ResponseStatus::Success);
    assert_eq!(r.request_id, "r1");
    assert_eq!(r.proof_data.unwrap().proof, "cA==");
    assert!(r.error.is_none());
    assert_eq!(r.metrics.unwrap().duration_ms, 5000);
}

#[test]
fn failed_run_in_time_is_failure() {
    let run = JobRun {
        result: Some(Err(ServiceError::SetupMissing("no vm_pk".into()))),
        elapsed_ms: 10,
    };
    let r = job_response("r1".into(), run, 3600, metrics());
    assert_eq!(r.status, ResponseStatus::Failed);
    assert!(r.proof_data.is_none());
    let e = r.error.unwrap();
    assert_eq!(e.error_type, "SetupMissingError");
    assert_eq!(e.message, "Setup artifacts missing: no vm_pk");
    assert!(e.details.is_none());
}

#[test]
fn run_cut_off_by_deadline_is_timeout() {
    let run = JobRun { result: None, elapsed_ms: 3_600_000 };
    let r = job_response("r1".into(), run, 3600, metrics());
    assert_eq!(r.status, ResponseStatus::Timeout);
    let e = r.error.unwrap();
    assert_eq!(e.error_type, "TimeoutError");
    assert_eq!(e.message, "Proof generation timed out after 3600 seconds");
}

#[test]
fn run_past_deadline_is_timeout_even_when_it_succeeded() {
    let run = JobRun { result: Some(Ok(data())), elapsed_ms: 2001 };
    let r = job_response("r1".into(), run, 2, metrics());
    assert_eq!(r.status, ResponseStatus::Timeout);
    assert!(r.proof_data.is_none());
    assert_eq!(r.error.unwrap().message, "Proof generation timed out after 2 seconds");
    let failed = JobRun { result: Some(Err(ServiceError::ProofGeneration("x".into()))), elapsed_ms: 2001 };
    assert_eq!(job_response("r1".into(), failed, 2, metrics()).status, ResponseStatus::Timeout);
    let on_time = JobRun { result: Some(Ok(data())), elapsed_ms: 2000 };
    assert_eq!(job_response("r1".into(), on_time, 2, metrics()).status, ResponseStatus::Success);
}
