//! Properties of every run of the job orchestrator.
use vstd::prelude::*;
use crate::error::ServiceError;
use crate::orchestrator::{
    advances, creates, join, links_setup, proving_key_name, phase_rank, removes, same_job,
    valid_workspace_name, verification_key_name, workspace, Orchestration, OrchestratorAction,
    Phase, StepReport,
};

verus! {

/// A run of a job: `states[i]`, told `reports[i]`, moves to `states[i + 1]`
/// and asks for `actions[i + 1]`; `actions[0]` is what the job first asked
/// for.
pub open spec fn is_run(
    states: Seq<Orchestration>,
    reports: Seq<StepReport>,
    actions: Seq<OrchestratorAction>,
) -> bool {
    &&& states.len() == reports.len() + 1
    &&& actions.len() == states.len()
    &&& forall|i: int| 0 <= i < reports.len() ==> #[trigger] step_at(states, reports, actions, i)
}

/// Step `i` of a run.
pub open spec fn step_at(
    states: Seq<Orchestration>,
    reports: Seq<StepReport>,
    actions: Seq<OrchestratorAction>,
    i: int,
) -> bool {
    advances(states[i], reports[i], states[i + 1], actions[i + 1])
}

/// Removing `p` removes `q`: `q` is `p` or lies below it.
pub open spec fn affects(p: Seq<char>, q: Seq<char>) -> bool {
    q == p || (q.len() > p.len() && q.subrange(0, p.len() as int + 1) == p.push('/'))
}

/// The paths an action creates, writes or removes.
pub open spec fn mutated_paths(a: OrchestratorAction) -> Seq<Seq<char>> {
    match a {
        OrchestratorAction::CreateWorkspace { path } => seq![path@],
        OrchestratorAction::LinkSetup { proving_key_link, verification_key_link, .. } => seq![
            proving_key_link@,
            verification_key_link@,
        ],
        OrchestratorAction::RunEngine { workspace, .. } => seq![workspace@],
        OrchestratorAction::RemoveWorkspace { path } => seq![path@],
        _ => Seq::empty(),
    }
}

/// The action creates, writes or removes nothing that holds a shared setup
/// artifact of `base`.
pub open spec fn spares_setup(base: Seq<char>, a: OrchestratorAction) -> bool {
    forall|k: int|
        0 <= k < mutated_paths(a).len() ==> !affects(
            #[trigger] mutated_paths(a)[k],
            join(base, proving_key_name()),
        ) && !affects(mutated_paths(a)[k], join(base, verification_key_name()))
}

proof fn lemma_same_job_throughout(
    states: Seq<Orchestration>,
    reports: Seq<StepReport>,
    actions: Seq<OrchestratorAction>,
    i: int,
)
    requires
        is_run(states, reports, actions),
        0 <= i < states.len(),
    ensures
        same_job(states[0], states[i]),
    decreases i,
{
    if i > 0 {
        lemma_same_job_throughout(states, reports, actions, i - 1);
        assert(step_at(states, reports, actions, i - 1));
    }
}

proof fn lemma_rank_grows(
    states: Seq<Orchestration>,
    reports: Seq<StepReport>,
    actions: Seq<OrchestratorAction>,
    j: int,
    l: int,
)
    requires
        is_run(states, reports, actions),
        0 <= j < l < states.len(),
        states[j].phase != Phase::Done,
    ensures
        phase_rank(states[l].phase) > phase_rank(states[j].phase),
    decreases l - j,
{
    assert(step_at(states, reports, actions, l - 1));
    if l - 1 > j {
        lemma_rank_grows(states, reports, actions, j, l - 1);
    }
}

proof fn lemma_removal_by(
    states: Seq<Orchestration>,
    reports: Seq<StepReport>,
    actions: Seq<OrchestratorAction>,
    i: int,
)
    requires
        is_run(states, reports, actions),
        states[0].phase == Phase::Creating,
        0 <= i < states.len(),
    ensures
        states[i].phase == Phase::Removing || states[i].phase == Phase::Done ==> exists|k: int|
            0 < k <= i && removes(states[0], #[trigger] actions[k]) && forall|j: int|
                k < j <= i ==> actions[j] is Finish,
    decreases i,
{
    if i > 0 {
        lemma_removal_by(states, reports, actions, i - 1);
        lemma_same_job_throughout(states, reports, actions, i - 1);
        let s = states[i - 1];
        assert(step_at(states, reports, actions, i - 1));
        if s.phase == Phase::Removing || s.phase == Phase::Done {
            let k = choose|k: int|
                0 < k <= i - 1 && removes(states[0], #[trigger] actions[k]) && forall|j: int|
                    k < j <= i - 1 ==> actions[j] is Finish;
            assert(forall|j: int| k < j <= i ==> actions[j] is Finish);
            assert(removes(states[0], actions[k]));
        } else if states[i].phase == Phase::Removing {
            assert(workspace(s) == workspace(states[0]));
            assert(removes(states[0], actions[i]));
        }
    }
}

/// A job that has finished has removed its workspace, and asked for nothing
/// after that removal: whether it succeeded or failed at any step, no
/// workspace is left behind. (A job abandoned at its deadline is driven to
/// the end in the background and ends the same way.)
pub proof fn lemma_workspace_removed_when_done(
    states: Seq<Orchestration>,
    reports: Seq<StepReport>,
    actions: Seq<OrchestratorAction>,
)
    requires
        is_run(states, reports, actions),
        states[0].phase == Phase::Creating,
        states.last().phase == Phase::Done,
    ensures
        exists|k: int|
            0 < k < actions.len() && removes(states[0], #[trigger] actions[k]) && forall|j: int|
                k < j < actions.len() ==> actions[j] is Finish,
{
    lemma_removal_by(states, reports, actions, states.len() - 1);
}

proof fn lemma_outcome_kept(
    states: Seq<Orchestration>,
    reports: Seq<StepReport>,
    actions: Seq<OrchestratorAction>,
    i: int,
    j: int,
)
    requires
        is_run(states, reports, actions),
        0 <= i <= j < states.len(),
        states[i].phase == Phase::Removing,
    ensures
        states[j].outcome == states[i].outcome,
        states[j].phase == Phase::Removing || states[j].phase == Phase::Done,
    decreases j - i,
{
    if j > i {
        lemma_outcome_kept(states, reports, actions, i, j - 1);
        assert(step_at(states, reports, actions, j - 1));
    }
}

/// When the shared setup artifacts are found missing, the job links nothing
/// into its workspace, and its outcome is the setup-missing error from then
/// on.
pub proof fn lemma_missing_setup_links_nothing(
    states: Seq<Orchestration>,
    reports: Seq<StepReport>,
    actions: Seq<OrchestratorAction>,
    i: int,
)
    requires
        is_run(states, reports, actions),
        states[0].phase == Phase::Creating,
        creates(states[0], actions[0]),
        0 <= i < reports.len(),
        states[i].phase == Phase::CheckingSetup,
        reports[i] is Failed,
    ensures
        forall|j: int| 0 <= j < actions.len() ==> !(#[trigger] actions[j] is LinkSetup),
        forall|j: int|
            i < j < states.len() ==> #[trigger] states[j].outcome == Some(
                Err::<crate::messages::ProofData, ServiceError>(
                    ServiceError::SetupMissing(reports[i]->Failed_0),
                ),
            ),
{
    assert(step_at(states, reports, actions, i));
    assert forall|j: int| 0 <= j < actions.len() implies !(#[trigger] actions[j] is LinkSetup) by {
        if j > 0 {
            assert(step_at(states, reports, actions, j - 1));
            if actions[j] is LinkSetup {
                assert(states[j - 1].phase == Phase::CheckingSetup);
                if j - 1 < i {
                    lemma_rank_grows(states, reports, actions, j - 1, i);
                } else if j - 1 > i {
                    lemma_rank_grows(states, reports, actions, i, j - 1);
                }
            }
        }
    }
    assert forall|j: int| i < j < states.len() implies #[trigger] states[j].outcome == Some(
        Err::<crate::messages::ProofData, ServiceError>(
            ServiceError::SetupMissing(reports[i]->Failed_0),
        ),
    ) by {
        lemma_outcome_kept(states, reports, actions, i + 1, j);
    }
}

proof fn lemma_no_slash_in_key_names()
    ensures
        forall|i: int|
            0 <= i < proving_key_name().len() ==> #[trigger] proving_key_name()[i] != '/',
        forall|i: int|
            0 <= i < verification_key_name().len() ==> #[trigger] verification_key_name()[i] != '/',
{
}

/// Two different names without `/` name entries of a directory that do not
/// hold one another.
pub proof fn lemma_sibling_unaffected(dir: Seq<char>, a: Seq<char>, b: Seq<char>)
    requires
        a != b,
        forall|i: int| 0 <= i < a.len() ==> #[trigger] a[i] != '/',
        forall|i: int| 0 <= i < b.len() ==> #[trigger] b[i] != '/',
    ensures
        !affects(join(dir, a), join(dir, b)),
{
    let p = join(dir, a);
    let q = join(dir, b);
    let o = dir.len() + 1;
    if q == p {
        assert(p.len() == o + a.len());
        assert(q.len() == o + b.len());
        assert(a.len() == b.len());
        assert forall|i: int| 0 <= i < a.len() implies a[i] == b[i] by {
            assert(p[o + i] == a[i]);
            assert(q[o + i] == b[i]);
        }
        assert(a =~= b);
    }
    if q.len() > p.len() && q.subrange(0, p.len() as int + 1) == p.push('/') {
        assert(q.subrange(0, p.len() as int + 1)[p.len() as int] == '/');
        assert(q[p.len() as int] == b[a.len() as int]);
    }
}

proof fn lemma_deeper_unaffected(dir: Seq<char>, name: Seq<char>, key: Seq<char>)
    requires
        name.len() > 0,
    ensures
        !affects(join(join(dir, name), key), join(dir, key)),
{
}

/// Every action of a job spares the shared setup artifacts: what the job
/// makes, writes or removes is its workspace or lies inside it, never a
/// shared artifact nor anything that holds one.
pub proof fn lemma_step_spares_setup(
    s: Orchestration,
    report: StepReport,
    t: Orchestration,
    a: OrchestratorAction,
)
    requires
        s.wf(),
        advances(s, report, t, a),
    ensures
        spares_setup(s.base@, a),
{
    if s.phase != Phase::Done && s.phase != Phase::Removing {
        lemma_no_slash_in_key_names();
        lemma_sibling_unaffected(s.base@, s.request_id@, proving_key_name());
        lemma_sibling_unaffected(s.base@, s.request_id@, verification_key_name());
        lemma_deeper_unaffected(s.base@, s.request_id@, proving_key_name());
        lemma_deeper_unaffected(s.base@, s.request_id@, verification_key_name());
        assert(!affects(join(workspace(s), verification_key_name()), join(s.base@, proving_key_name())));
        assert(!affects(join(workspace(s), proving_key_name()), join(s.base@, verification_key_name())));
    }
}

/// The first action of a job spares the shared setup artifacts too.
pub proof fn lemma_start_spares_setup(o: Orchestration, a: OrchestratorAction)
    requires
        o.wf(),
        o.phase == Phase::Creating,
        creates(o, a),
    ensures
        spares_setup(o.base@, a),
{
    lemma_no_slash_in_key_names();
    lemma_sibling_unaffected(o.base@, o.request_id@, proving_key_name());
    lemma_sibling_unaffected(o.base@, o.request_id@, verification_key_name());
}

/// Two jobs with different request ids in one base have workspaces that do
/// not hold one another, and both link the very same shared artifacts.
pub proof fn lemma_jobs_share_setup_not_workspaces(
    s1: Orchestration,
    a1: OrchestratorAction,
    s2: Orchestration,
    a2: OrchestratorAction,
)
    requires
        s1.base == s2.base,
        s1.request_id@ != s2.request_id@,
        valid_workspace_name(s1.request_id@),
        valid_workspace_name(s2.request_id@),
        links_setup(s1, a1),
        links_setup(s2, a2),
    ensures
        !affects(workspace(s1), workspace(s2)),
        !affects(workspace(s2), workspace(s1)),
        a1->LinkSetup_proving_key@ == a2->LinkSetup_proving_key@,
        a1->LinkSetup_verification_key@ == a2->LinkSetup_verification_key@,
{
    lemma_sibling_unaffected(s1.base@, s1.request_id@, s2.request_id@);
    lemma_sibling_unaffected(s1.base@, s2.request_id@, s1.request_id@);
}

} // verus!
