//! The program image shared by all jobs, and the generator that starts jobs
//! against it.
use vstd::prelude::*;
use std::sync::Arc;
use crate::error::ServiceError;
use crate::messages::ProverRequest;
use crate::orchestrator::{begun, Orchestration, OrchestratorAction};

verus! {

/// The program the proving engine runs, loaded once and shared read-only.
pub struct CachedElf {
    pub data: Vec<u8>,
}

impl CachedElf {
    /// Keeps the image read from `elf_path`; a failed read is fatal to the
    /// service and reported with the path and the reader's message.
    pub fn load(elf_path: &str, contents: Result<Vec<u8>, String>) -> (r: Result<Self, ServiceError>)
        ensures
            contents matches Ok(bytes) ==> (r matches Ok(c) && c.data@ == bytes@),
            contents matches Err(m) ==> (r matches Err(ServiceError::Io(e)) && e@
                == "Failed to load ELF file from "@ + elf_path@ + ": "@ + m@),
    {
        match contents {
            Ok(data) => Ok(CachedElf { data }),
            Err(m) => Err(
                ServiceError::Io(
                    String::from_str("Failed to load ELF file from ").concat(elf_path).concat(
                        ": ",
                    ).concat(m.as_str()),
                ),
            ),
        }
    }
}

/// Starts proving jobs against a shared program image, in a base directory.
pub struct ProofGenerator {
    pub cached_elf: Arc<CachedElf>,
    /// The absolute base directory of the shared setup artifacts and the
    /// workspaces.
    pub output_base_dir: String,
}

impl ProofGenerator {
    pub fn new(cached_elf: Arc<CachedElf>, output_base_dir: String) -> (r: Self)
        ensures
            r.cached_elf == cached_elf,
            r.output_base_dir == output_base_dir,
    {
        ProofGenerator { cached_elf, output_base_dir }
    }

    /// Starts the job for `request` in this generator's base directory.
    pub fn begin_job(&self, request: ProverRequest) -> (r: (Orchestration, OrchestratorAction))
        ensures
            begun(self.output_base_dir, request, r.0, r.1),
    {
        Orchestration::begin(self.output_base_dir.clone(), request)
    }
}

} // verus!
