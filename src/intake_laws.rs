//! Properties of every run of the message handler.
use vstd::prelude::*;
use crate::intake::{handles, intake_rank, IntakeAction, IntakeEvent, IntakePhase, MessageHandling};

verus! {

/// A run of the handling of one message: `states[i]`, told `events[i]`,
/// moves to `states[i + 1]` and asks for `actions[i + 1]`; `actions[0]` is
/// the first request, for a permit.
pub open spec fn is_intake_run(
    states: Seq<MessageHandling>,
    events: Seq<IntakeEvent>,
    actions: Seq<IntakeAction>,
) -> bool {
    &&& states.len() == events.len() + 1
    &&& actions.len() == states.len()
    &&& states[0].phase == IntakePhase::Admitting
    &&& states[0].wf()
    &&& actions[0] is AcquirePermit
    &&& forall|i: int| 0 <= i < events.len() ==> #[trigger] intake_step_at(states, events, actions, i)
}

/// Step `i` of a run.
pub open spec fn intake_step_at(
    states: Seq<MessageHandling>,
    events: Seq<IntakeEvent>,
    actions: Seq<IntakeAction>,
    i: int,
) -> bool {
    handles(states[i], events[i], states[i + 1], actions[i + 1])
}

proof fn lemma_rank_grows(
    states: Seq<MessageHandling>,
    events: Seq<IntakeEvent>,
    actions: Seq<IntakeAction>,
    j: int,
    l: int,
)
    requires
        is_intake_run(states, events, actions),
        0 <= j < l < states.len(),
    ensures
        states[j].phase != IntakePhase::Finished ==> intake_rank(states[l].phase) > intake_rank(
            states[j].phase,
        ),
        states[j].phase == IntakePhase::Finished ==> states[l].phase == IntakePhase::Finished,
    decreases l - j,
{
    assert(intake_step_at(states, events, actions, l - 1));
    if l - 1 > j {
        lemma_rank_grows(states, events, actions, j, l - 1);
    }
}

/// An acknowledgment is asked for exactly when the handling has just been
/// admitted.
proof fn lemma_ack_marks_admission(
    states: Seq<MessageHandling>,
    events: Seq<IntakeEvent>,
    actions: Seq<IntakeAction>,
    j: int,
)
    requires
        is_intake_run(states, events, actions),
        0 <= j < actions.len(),
    ensures
        actions[j] is Acknowledge <==> states[j].phase == IntakePhase::Acknowledging,
{
    if j > 0 {
        assert(intake_step_at(states, events, actions, j - 1));
    }
}

/// A release is asked for only on a step from a phase that holds a permit.
proof fn lemma_release_leaves_permit(
    states: Seq<MessageHandling>,
    events: Seq<IntakeEvent>,
    actions: Seq<IntakeAction>,
    j: int,
)
    requires
        is_intake_run(states, events, actions),
        0 <= j < actions.len(),
        actions[j] is ReleasePermit,
    ensures
        j > 0,
        states[j - 1].phase != IntakePhase::Admitting,
        states[j - 1].phase != IntakePhase::Finished,
        states[j].phase == IntakePhase::Finished,
{
    assert(intake_step_at(states, events, actions, j - 1));
}

proof fn lemma_release_follows(
    states: Seq<MessageHandling>,
    events: Seq<IntakeEvent>,
    actions: Seq<IntakeAction>,
    i: int,
    l: int,
)
    requires
        is_intake_run(states, events, actions),
        0 <= i <= l < states.len(),
        states[i].phase == IntakePhase::Acknowledging,
        states[l].phase == IntakePhase::Finished,
    ensures
        exists|m: int| i < m <= l && #[trigger] actions[m] is ReleasePermit,
    decreases l - i,
{
    assert(intake_step_at(states, events, actions, l - 1));
    if states[l - 1].phase == IntakePhase::Finished {
        lemma_release_follows(states, events, actions, i, l - 1);
    } else {
        if l - 1 > i {
            lemma_rank_grows(states, events, actions, i, l - 1);
        }
        assert(actions[l] is ReleasePermit);
    }
}

/// Whether the job ends in success, failure or timeout: the message is
/// acknowledged at most once, and once the job is admitted it is
/// acknowledged before its orchestration is asked for; the permit is
/// released at most once, and a handling that finishes after admission has
/// released it.
pub proof fn lemma_ack_once_before_work(
    states: Seq<MessageHandling>,
    events: Seq<IntakeEvent>,
    actions: Seq<IntakeAction>,
)
    requires
        is_intake_run(states, events, actions),
    ensures
        forall|i: int, j: int|
            0 <= i < j < actions.len() ==> !(#[trigger] actions[i] is Acknowledge
                && #[trigger] actions[j] is Acknowledge),
        forall|j: int|
            0 <= j < actions.len() && #[trigger] actions[j] is Orchestrate ==> j >= 1
                && actions[j - 1] is Acknowledge,
        forall|i: int, j: int|
            0 <= i < j < actions.len() ==> !(#[trigger] actions[i] is ReleasePermit
                && #[trigger] actions[j] is ReleasePermit),
        forall|i: int|
            0 <= i < actions.len() && #[trigger] actions[i] is Acknowledge && states.last().phase
                == IntakePhase::Finished ==> exists|m: int|
                i < m < actions.len() && #[trigger] actions[m] is ReleasePermit,
{
    assert forall|i: int, j: int|
        0 <= i < j < actions.len() implies !(#[trigger] actions[i] is Acknowledge
        && #[trigger] actions[j] is Acknowledge) by {
        lemma_ack_marks_admission(states, events, actions, i);
        lemma_ack_marks_admission(states, events, actions, j);
        lemma_rank_grows(states, events, actions, i, j);
    }
    assert forall|j: int| 0 <= j < actions.len() && #[trigger] actions[j] is Orchestrate implies j
        >= 1 && actions[j - 1] is Acknowledge by {
        if j == 0 {
        } else {
            assert(intake_step_at(states, events, actions, j - 1));
            lemma_ack_marks_admission(states, events, actions, j - 1);
        }
    }
    assert forall|i: int, j: int|
        0 <= i < j < actions.len() implies !(#[trigger] actions[i] is ReleasePermit
        && #[trigger] actions[j] is ReleasePermit) by {
        if actions[i] is ReleasePermit && actions[j] is ReleasePermit {
            lemma_release_leaves_permit(states, events, actions, i);
            lemma_release_leaves_permit(states, events, actions, j);
            if i < j - 1 {
                lemma_rank_grows(states, events, actions, i, j - 1);
            }
        }
    }
    assert forall|i: int|
        0 <= i < actions.len() && #[trigger] actions[i] is Acknowledge && states.last().phase
            == IntakePhase::Finished implies exists|m: int|
        i < m < actions.len() && #[trigger] actions[m] is ReleasePermit by {
        lemma_ack_marks_admission(states, events, actions, i);
        lemma_release_follows(states, events, actions, i, states.len() - 1);
    }
}

} // verus!
