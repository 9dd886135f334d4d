//! The job orchestrator: the decisions of one proving job, as a state machine.
//!
//! The machine asks for one action at a time (make the workspace, check and
//! link the shared setup artifacts, run the engine, read its output, remove
//! the workspace) and is told how each went. The caller performs the actions.
use vstd::prelude::*;
use crate::artifacts::{extract_proof_data, extracted};
use crate::error::ServiceError;
use crate::human_index::{
    checked_human_index,
    human_index,
    HumanIndexPublicInputs,
    VerificationResults,
};
use crate::messages::{ProofData, ProverRequest};
use crate::text::same_text;

verus! {

/// The file name of the shared proving key.
pub open spec fn proving_key_name() -> Seq<char> {
    seq!['v', 'm', '_', 'p', 'k']
}

/// The file name of the shared verification key.
pub open spec fn verification_key_name() -> Seq<char> {
    seq!['v', 'm', '_', 'v', 'k']
}

/// The file name of the engine's output document.
pub open spec fn output_document_name() -> Seq<char> {
    "inputs.json"@
}

/// The path of `name` inside the directory `dir`.
pub open spec fn join(dir: Seq<char>, name: Seq<char>) -> Seq<char> {
    dir + seq!['/'] + name
}

/// Whether `name` names one entry directly inside a directory and is not
/// the name of a shared setup artifact.
pub open spec fn valid_workspace_name(name: Seq<char>) -> bool {
    &&& name.len() > 0
    &&& forall|i: int| 0 <= i < name.len() ==> #[trigger] name[i] != '/'
    &&& name != seq!['.']
    &&& name != seq!['.', '.']
    &&& name != proving_key_name()
    &&& name != verification_key_name()
}

/// Where a job stands.
#[derive(Clone, Copy, Debug, PartialEq, Eq, Structural)]
pub enum Phase {
    Creating,
    CheckingSetup,
    Linking,
    Proving,
    Reading,
    Removing,
    Done,
}

/// The order in which a job passes through its phases.
pub open spec fn phase_rank(p: Phase) -> nat {
    match p {
        Phase::Creating => 0,
        Phase::CheckingSetup => 1,
        Phase::Linking => 2,
        Phase::Proving => 3,
        Phase::Reading => 4,
        Phase::Removing => 5,
        Phase::Done => 6,
    }
}

/// What the machine asks its caller to do next.
#[derive(Clone, Debug)]
pub enum OrchestratorAction {
    /// Make the job's workspace directory.
    CreateWorkspace { path: String },
    /// Check that both shared setup artifacts exist.
    CheckSetup { proving_key: String, verification_key: String },
    /// Link both shared setup artifacts into the workspace (links, not copies).
    LinkSetup {
        proving_key: String,
        proving_key_link: String,
        verification_key: String,
        verification_key_link: String,
    },
    /// Run the proving engine in the workspace on these inputs.
    RunEngine {
        workspace: String,
        private_inputs: VerificationResults,
        public_inputs: HumanIndexPublicInputs,
        regenerate_setup: bool,
    },
    /// Read the engine's output document and report its text.
    ReadArtifacts { path: String },
    /// Remove the workspace and all it holds.
    RemoveWorkspace { path: String },
    /// Nothing more: the outcome is final.
    Finish,
}

/// How the last action went.
#[derive(Clone, Debug)]
pub enum StepReport {
    Done,
    Failed(String),
    Text(String),
}

/// One proving job.
pub struct Orchestration {
    /// The absolute base directory that holds the shared setup artifacts and
    /// the workspaces.
    pub base: String,
    pub request_id: String,
    pub private_inputs: VerificationResults,
    /// The request's weights, with the derived index as expected output.
    pub public_inputs: HumanIndexPublicInputs,
    /// The index derived from the inputs.
    pub human_index: u32,
    pub phase: Phase,
    /// Set once the job's result is known.
    pub outcome: Option<Result<ProofData, ServiceError>>,
}

/// The job's workspace: the entry named by the request id inside the base.
pub open spec fn workspace(o: Orchestration) -> Seq<char> {
    join(o.base@, o.request_id@)
}

impl Orchestration {
    /// The outcome is known exactly from the removal of the workspace on; a
    /// job that got past its start has a valid workspace name.
    pub open spec fn wf(&self) -> bool {
        &&& (self.phase == Phase::Removing || self.phase == Phase::Done) <==> self.outcome is Some
        &&& self.phase != Phase::Done ==> valid_workspace_name(self.request_id@)
    }
}

/// The two states describe the same job.
pub open spec fn same_job(s: Orchestration, t: Orchestration) -> bool {
    &&& t.base == s.base
    &&& t.request_id == s.request_id
    &&& t.private_inputs == s.private_inputs
    &&& t.public_inputs == s.public_inputs
    &&& t.human_index == s.human_index
}

pub open spec fn creates(s: Orchestration, a: OrchestratorAction) -> bool {
    a matches OrchestratorAction::CreateWorkspace { path } && path@ == workspace(s)
}

pub open spec fn checks_setup(s: Orchestration, a: OrchestratorAction) -> bool {
    a matches OrchestratorAction::CheckSetup { proving_key, verification_key } && proving_key@
        == join(s.base@, proving_key_name()) && verification_key@ == join(
        s.base@,
        verification_key_name(),
    )
}

pub open spec fn links_setup(s: Orchestration, a: OrchestratorAction) -> bool {
    a matches OrchestratorAction::LinkSetup {
        proving_key,
        proving_key_link,
        verification_key,
        verification_key_link,
    } && proving_key@ == join(s.base@, proving_key_name()) && proving_key_link@ == join(
        workspace(s),
        proving_key_name(),
    ) && verification_key@ == join(s.base@, verification_key_name()) && verification_key_link@
        == join(workspace(s), verification_key_name())
}

pub open spec fn runs_engine(s: Orchestration, a: OrchestratorAction) -> bool {
    a matches OrchestratorAction::RunEngine {
        workspace: w,
        private_inputs,
        public_inputs,
        regenerate_setup,
    } && w@ == workspace(s) && private_inputs == s.private_inputs && public_inputs
        == s.public_inputs && !regenerate_setup
}

pub open spec fn reads_output(s: Orchestration, a: OrchestratorAction) -> bool {
    a matches OrchestratorAction::ReadArtifacts { path } && path@ == join(
        workspace(s),
        output_document_name(),
    )
}

pub open spec fn removes(s: Orchestration, a: OrchestratorAction) -> bool {
    a matches OrchestratorAction::RemoveWorkspace { path } && path@ == workspace(s)
}

/// The result of a job whose output could not be read.
pub open spec fn output_unreadable(x: Result<ProofData, ServiceError>) -> bool {
    x matches Err(ServiceError::ArtifactMissing(f)) && f@ == output_document_name()
}

/// After a failed step the job goes to removal with `e` as its outcome.
pub open spec fn fails_with(
    s: Orchestration,
    t: Orchestration,
    a: OrchestratorAction,
    e: ServiceError,
) -> bool {
    t.phase == Phase::Removing && t.outcome == Some(Err::<ProofData, ServiceError>(e)) && removes(
        s,
        a,
    )
}

/// One step of a job: from `s`, told `report` of the last action, the job
/// moves to `t` and asks for `a`.
pub open spec fn advances(
    s: Orchestration,
    report: StepReport,
    t: Orchestration,
    a: OrchestratorAction,
) -> bool {
    &&& same_job(s, t)
    &&& match s.phase {
        Phase::Creating => match report {
            StepReport::Failed(m) => fails_with(s, t, a, ServiceError::WorkspaceCreation(m)),
            _ => t.phase == Phase::CheckingSetup && t.outcome is None && checks_setup(s, a),
        },
        Phase::CheckingSetup => match report {
            StepReport::Failed(m) => fails_with(s, t, a, ServiceError::SetupMissing(m)),
            _ => t.phase == Phase::Linking && t.outcome is None && links_setup(s, a),
        },
        Phase::Linking => match report {
            StepReport::Failed(m) => fails_with(s, t, a, ServiceError::ProofGeneration(m)),
            _ => t.phase == Phase::Proving && t.outcome is None && runs_engine(s, a),
        },
        Phase::Proving => match report {
            StepReport::Failed(m) => fails_with(s, t, a, ServiceError::ProofGeneration(m)),
            _ => t.phase == Phase::Reading && t.outcome is None && reads_output(s, a),
        },
        Phase::Reading => {
            &&& t.phase == Phase::Removing
            &&& removes(s, a)
            &&& t.outcome matches Some(x) && match report {
                StepReport::Text(text) => extracted(x, text@, s.human_index),
                _ => output_unreadable(x),
            }
        },
        Phase::Removing => t.phase == Phase::Done && t.outcome == s.outcome
            && a is Finish,
        Phase::Done => t.phase == Phase::Done && t.outcome == s.outcome && a is Finish,
    }
}

fn proving_key_file() -> (r: &'static str)
    ensures
        r@ == proving_key_name(),
{
    proof {
        reveal_strlit("vm_pk");
    }
    "vm_pk"
}

fn verification_key_file() -> (r: &'static str)
    ensures
        r@ == verification_key_name(),
{
    proof {
        reveal_strlit("vm_vk");
    }
    "vm_vk"
}

/// The path of `name` inside `dir`.
pub fn join_path(dir: &str, name: &str) -> (r: String)
    ensures
        r@ == join(dir@, name@),
{
    proof {
        reveal_strlit("/");
    }
    assert("/"@ =~= seq!['/']);
    String::from_str(dir).concat("/").concat(name)
}

/// Whether `name` can name a job's workspace.
pub fn is_valid_workspace_name(name: &str) -> (r: bool)
    ensures
        r == valid_workspace_name(name@),
{
    let n = name.unicode_len();
    if n == 0 {
        return false;
    }
    let mut i: usize = 0;
    while i < n
        invariant
            n == name@.len(),
            i <= n,
            forall|j: int| 0 <= j < i ==> #[trigger] name@[j] != '/',
        decreases n - i,
    {
        if name.get_char(i) == '/' {
            return false;
        }
        i = i + 1;
    }
    proof {
        reveal_strlit(".");
        reveal_strlit("..");
    }
    assert("."@ =~= seq!['.']);
    assert(".."@ =~= seq!['.', '.']);
    !(same_text(name, ".") || same_text(name, "..") || same_text(name, proving_key_file())
        || same_text(name, verification_key_file()))
}

/// `o` and `a` are how a job for `request` in `base` starts. A request id
/// that cannot name a workspace, or inputs whose index does not fit in a
/// `u32`, end the job at once without touching anything; else the job asks
/// for its workspace.
pub open spec fn begun(
    base: String,
    request: ProverRequest,
    o: Orchestration,
    a: OrchestratorAction,
) -> bool {
    let index = human_index(request.verification_results, request.public_inputs);
    &&& o.wf()
    &&& o.base == base
    &&& o.request_id == request.request_id
    &&& o.private_inputs == request.verification_results
    &&& !valid_workspace_name(request.request_id@) ==> {
        &&& o.phase == Phase::Done
        &&& a is Finish
        &&& o.outcome matches Some(Err(ServiceError::WorkspaceCreation(_)))
    }
    &&& valid_workspace_name(request.request_id@) && index > u32::MAX ==> {
        &&& o.phase == Phase::Done
        &&& a is Finish
        &&& o.outcome matches Some(Err(ServiceError::ProofGeneration(_)))
    }
    &&& valid_workspace_name(request.request_id@) && index <= u32::MAX ==> {
        &&& o.phase == Phase::Creating
        &&& o.outcome is None
        &&& o.human_index as nat == index
        &&& o.public_inputs == (HumanIndexPublicInputs {
            expected_output: o.human_index,
            ..request.public_inputs
        })
        &&& creates(o, a)
    }
}

impl Orchestration {
    /// Starts a job in `base`.
    pub fn begin(base: String, request: ProverRequest) -> (r: (Orchestration, OrchestratorAction))
        ensures
            begun(base, request, r.0, r.1),
    {
        let ProverRequest { request_id, verification_results, public_inputs } = request;
        let valid = is_valid_workspace_name(request_id.as_str());
        let index = checked_human_index(&verification_results, &public_inputs);
        let (phase, outcome, derived) = if !valid {
            (
                Phase::Done,
                Some(
                    Err(
                        ServiceError::WorkspaceCreation(
                            String::from_str("request id cannot name a workspace"),
                        ),
                    ),
                ),
                0,
            )
        } else {
            match index {
                Some(v) => (Phase::Creating, None, v),
                None => (
                    Phase::Done,
                    Some(
                        Err(
                            ServiceError::ProofGeneration(
                                String::from_str("human index does not fit in 32 bits"),
                            ),
                        ),
                    ),
                    0,
                ),
            }
        };
        let public_inputs = HumanIndexPublicInputs { expected_output: derived, ..public_inputs };
        let action = if phase == Phase::Creating {
            OrchestratorAction::CreateWorkspace {
                path: join_path(base.as_str(), request_id.as_str()),
            }
        } else {
            OrchestratorAction::Finish
        };
        let o = Orchestration {
            base,
            request_id,
            private_inputs: verification_results,
            public_inputs,
            human_index: derived,
            phase,
            outcome,
        };
        (o, action)
    }

    fn workspace_path(&self) -> (r: String)
        ensures
            r@ == workspace(*self),
    {
        join_path(self.base.as_str(), self.request_id.as_str())
    }

    fn fail(&mut self, e: ServiceError) -> (a: OrchestratorAction)
        ensures
            same_job(*old(self), *final(self)),
            fails_with(*old(self), *final(self), a, e),
    {
        self.phase = Phase::Removing;
        self.outcome = Some(Err(e));
        OrchestratorAction::RemoveWorkspace { path: self.workspace_path() }
    }

    /// Takes the report of the last action and gives the next action.
    pub fn advance(&mut self, report: StepReport) -> (a: OrchestratorAction)
        requires
            old(self).wf(),
        ensures
            final(self).wf(),
            advances(*old(self), report, *final(self), a),
    {
        match self.phase {
            Phase::Creating => match report {
                StepReport::Failed(m) => self.fail(ServiceError::WorkspaceCreation(m)),
                _ => {
                    self.phase = Phase::CheckingSetup;
                    OrchestratorAction::CheckSetup {
                        proving_key: join_path(self.base.as_str(), proving_key_file()),
                        verification_key: join_path(self.base.as_str(), verification_key_file()),
                    }
                },
            },
            Phase::CheckingSetup => match report {
                StepReport::Failed(m) => self.fail(ServiceError::SetupMissing(m)),
                _ => {
                    self.phase = Phase::Linking;
                    let ws = self.workspace_path();
                    OrchestratorAction::LinkSetup {
                        proving_key: join_path(self.base.as_str(), proving_key_file()),
                        proving_key_link: join_path(ws.as_str(), proving_key_file()),
                        verification_key: join_path(self.base.as_str(), verification_key_file()),
                        verification_key_link: join_path(ws.as_str(), verification_key_file()),
                    }
                },
            },
            Phase::Linking => match report {
                StepReport::Failed(m) => self.fail(ServiceError::ProofGeneration(m)),
                _ => {
                    self.phase = Phase::Proving;
                    OrchestratorAction::RunEngine {
                        workspace: self.workspace_path(),
                        private_inputs: self.private_inputs,
                        public_inputs: self.public_inputs,
                        regenerate_setup: false,
                    }
                },
            },
            Phase::Proving => match report {
                StepReport::Failed(m) => self.fail(ServiceError::ProofGeneration(m)),
                _ => {
                    self.phase = Phase::Reading;
                    let ws = self.workspace_path();
                    OrchestratorAction::ReadArtifacts { path: join_path(ws.as_str(), "inputs.json") }
                },
            },
            Phase::Reading => {
                let result = match report {
                    StepReport::Text(text) => extract_proof_data(text.as_str(), self.human_index),
                    _ => Err(ServiceError::ArtifactMissing(String::from_str("inputs.json"))),
                };
                self.phase = Phase::Removing;
                self.outcome = Some(result);
                OrchestratorAction::RemoveWorkspace { path: self.workspace_path() }
            },
            Phase::Removing => {
                self.phase = Phase::Done;
                OrchestratorAction::Finish
            },
            Phase::Done => OrchestratorAction::Finish,
        }
    }

    /// The job's final result.
    pub fn into_outcome(self) -> (r: Result<ProofData, ServiceError>)
        requires
            self.wf(),
            self.phase == Phase::Done,
        ensures
            self.outcome == Some(r),
    {
        match self.outcome {
            Some(r) => r,
            None => Err(ServiceError::ProofGeneration(String::from_str("job has no outcome"))),
        }
    }
}

} // verus!
