use std::sync::Arc;

use human_index_prover::error::ServiceError;
use human_index_prover::human_index::{HumanIndexPublicInputs, VerificationResults};
use human_index_prover::messages::ProverRequest;
use human_index_prover::orchestrator::OrchestratorAction;
use human_index_prover::prover::{CachedElf, ProofGenerator};

#[test]
fn load_keeps_image_bytes() {
    let elf = CachedElf::load("/elf", Ok(vec![0x7f, b'E', b'L', b'F'])).unwrap();
    assert_eq!(elf.data, vec![0x7f, b'E', b'L', b'F']);
}

#[test]
fn load_failure_names_path_and_cause() {
    let r = CachedElf::load("/missing", Err("No such file or directory".into()));
    assert!(matches!(r, Err(ServiceError::Io(m)) if m == "Failed to load ELF file from /missing: No such file or directory"));
}

#[test]
fn generator_starts_jobs_in_its_base() {
    let elf = Arc::new(CachedElf::load("/elf", Ok(vec![1, 2, 3])).unwrap());
    let generator = ProofGenerator::new(elf.clone(), "/work".into());
    assert_eq!(generator.cached_elf.data, vec![1, 2, 3]);
    let request = ProverRequest {
        request_id: "abc".into(),
        verification_results: VerificationResults { recaptcha_score: 7500, sms_verified: 1, bio_verified: 1 },
        public_inputs: HumanIndexPublicInputs { w1: 1500, w2: 2000, w3: 2500, w4: 4000, expected_output: 0 },
    };
    let (job, first) = generator.begin_job(request);
    assert!(matches!(first, OrchestratorAction::CreateWorkspace { path } if path == "/work/abc"));
    assert_eq!(job.human_index, 242);
    assert_eq!(job.public_inputs.expected_output, 242);
}
