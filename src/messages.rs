//! The job request, the proof artifacts and the response published for a job.
use vstd::prelude::*;
use crate::error::{ServiceError, error_type_name, error_text};
use crate::human_index::{HumanIndexPublicInputs, VerificationResults};
use crate::text::{decimal, decimal_text};

verus! {

/// A request for one proof.
#[derive(Clone, Debug)]
pub struct ProverRequest {
    /// Unique per job; names the job's workspace.
    pub request_id: String,
    pub verification_results: VerificationResults,
    pub public_inputs: HumanIndexPublicInputs,
}

/// The artifacts of a finished proof, each base64-encoded.
#[derive(Clone, Debug)]
pub struct ProofData {
    pub proof: String,
    pub public_inputs: String,
    pub verification_key: String,
    /// The index the proof attests.
    pub human_index: u32,
}

/// The error reported in a failed or timed-out outcome.
#[derive(Clone, Debug)]
pub struct ProofError {
    pub error_type: String,
    pub message: String,
    pub details: Option<String>,
}

/// When a job was received, started and completed (RFC 3339), and how long
/// it took from receipt to completion. Descriptive only.
#[derive(Clone, Debug)]
pub struct ProofMetrics {
    pub received_at: String,
    pub started_at: String,
    pub completed_at: String,
    pub duration_ms: u64,
}

/// Which of the three outcomes a response reports.
#[derive(Clone, Copy, Debug, PartialEq, Eq, Structural)]
pub enum ResponseStatus {
    Success,
    Failed,
    Timeout,
}

/// The outcome of one job, as published.
#[derive(Clone, Debug)]
pub struct ProverResponse {
    pub status: ResponseStatus,
    pub request_id: String,
    pub proof_data: Option<ProofData>,
    pub error: Option<ProofError>,
    pub metrics: Option<ProofMetrics>,
}

impl ProverResponse {
    /// A successful outcome carrying the proof artifacts.
    pub fn success(request_id: String, proof_data: ProofData, metrics: ProofMetrics) -> (r: Self)
        ensures
            r.status == ResponseStatus::Success,
            r.request_id == request_id,
            r.proof_data == Some(proof_data),
            r.error is None,
            r.metrics == Some(metrics),
    {
        ProverResponse {
            status: ResponseStatus::Success,
            request_id,
            proof_data: Some(proof_data),
            error: None,
            metrics: Some(metrics),
        }
    }

    /// A failed outcome carrying the error.
    pub fn failed(request_id: String, error: ProofError, metrics: Option<ProofMetrics>) -> (r: Self)
        ensures
            r.status == ResponseStatus::Failed,
            r.request_id == request_id,
            r.proof_data is None,
            r.error == Some(error),
            r.metrics == metrics,
    {
        ProverResponse {
            status: ResponseStatus::Failed,
            request_id,
            proof_data: None,
            error: Some(error),
            metrics,
        }
    }

    /// A timed-out outcome carrying the message.
    pub fn timeout(request_id: String, message: String, metrics: Option<ProofMetrics>) -> (r: Self)
        ensures
            r.status == ResponseStatus::Timeout,
            r.request_id == request_id,
            r.proof_data is None,
            r.error matches Some(e) && e.error_type@ == "TimeoutError"@ && e.message == message
                && e.details is None,
            r.metrics == metrics,
    {
        let error = ProofError {
            error_type: String::from_str("TimeoutError"),
            message,
            details: None,
        };
        ProverResponse { status: ResponseStatus::Timeout, request_id, proof_data: None, error: Some(error), metrics }
    }
}

/// How a job's run ended: with the orchestration's result, or with none when
/// the deadline fired first; and how long it ran.
#[derive(Clone, Debug)]
pub struct JobRun {
    pub result: Option<Result<ProofData, ServiceError>>,
    pub elapsed_ms: u64,
}

/// A run is timed out when the deadline fired first, or when it ran longer
/// than the deadline.
pub open spec fn deadline_passed(run: JobRun, timeout_secs: u64) -> bool {
    run.result is None || run.elapsed_ms > timeout_secs * 1000
}

/// The message of a timed-out outcome.
pub open spec fn timeout_text(timeout_secs: u64) -> Seq<char> {
    "Proof generation timed out after "@ + decimal(timeout_secs as nat) + " seconds"@
}

/// `r` is the outcome to publish for the job `request_id` whose run was
/// `run`, under a deadline of `timeout_secs`. A run past its deadline is
/// reported as timed out, never as a success or a failure.
pub open spec fn response_matches(
    r: ProverResponse,
    request_id: String,
    run: JobRun,
    timeout_secs: u64,
    metrics: ProofMetrics,
) -> bool {
    &&& r.request_id == request_id
    &&& r.metrics == Some(metrics)
    &&& deadline_passed(run, timeout_secs) ==> {
        &&& r.status == ResponseStatus::Timeout
        &&& r.proof_data is None
        &&& r.error matches Some(e) && e.error_type@ == "TimeoutError"@ && e.message@ == timeout_text(
            timeout_secs,
        ) && e.details is None
    }
    &&& !deadline_passed(run, timeout_secs) ==> match run.result {
        Some(Ok(d)) => r.status == ResponseStatus::Success && r.proof_data == Some(d)
            && r.error is None,
        Some(Err(e)) => {
            &&& r.status == ResponseStatus::Failed
            &&& r.proof_data is None
            &&& r.error matches Some(pe) && pe.error_type@ == error_type_name(e) && pe.message@
                == error_text(e) && pe.details is None
        },
        None => false,
    }
}

/// The outcome to publish for a job's run.
pub fn job_response(request_id: String, run: JobRun, timeout_secs: u64, metrics: ProofMetrics) -> (r:
    ProverResponse)
    ensures
        response_matches(r, request_id, run, timeout_secs, metrics),
{
    let late = (run.elapsed_ms as u128) > (timeout_secs as u128) * 1000;
    match run.result {
        Some(result) if !late => match result {
            Ok(data) => ProverResponse::success(request_id, data, metrics),
            Err(e) => {
                let error = ProofError { error_type: e.error_type(), message: e.message(), details: None };
                ProverResponse::failed(request_id, error, Some(metrics))
            },
        },
        _ => {
            let message = String::from_str("Proof generation timed out after ").concat(
                decimal_text(timeout_secs).as_str(),
            ).concat(" seconds");
            ProverResponse::timeout(request_id, message, Some(metrics))
        },
    }
}

/// A job that runs past its deadline is reported as timed out, never as a
/// success or a generic failure.
pub proof fn lemma_late_job_times_out(
    r: ProverResponse,
    request_id: String,
    run: JobRun,
    timeout_secs: u64,
    metrics: ProofMetrics,
)
    requires
        response_matches(r, request_id, run, timeout_secs, metrics),
        run.result is None || run.elapsed_ms > timeout_secs * 1000,
    ensures
        r.status == ResponseStatus::Timeout,
        r.status != ResponseStatus::Success,
        r.status != ResponseStatus::Failed,
        r.proof_data is None,
{
}

} // verus!
