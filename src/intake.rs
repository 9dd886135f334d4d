//! The handling of one broker message, as a state machine: admit the job,
//! acknowledge the message, run the job under its deadline, publish the
//! outcome, release the permit.
use vstd::prelude::*;
use crate::messages::{job_response, response_matches, JobRun, ProofMetrics, ProverResponse};

verus! {

/// What to do when the admission gate is full.
#[derive(Clone, Copy, Debug, PartialEq, Eq, Structural)]
pub enum AdmissionPolicy {
    /// Wait until a permit is free.
    BlockAndWait,
    /// Hand the message back to the broker at once.
    RejectWhenFull,
}

/// Where the handling of a message stands.
#[derive(Clone, Copy, Debug, PartialEq, Eq, Structural)]
pub enum IntakePhase {
    Admitting,
    Acknowledging,
    Running,
    Publishing,
    Finished,
}

pub open spec fn intake_rank(p: IntakePhase) -> nat {
    match p {
        IntakePhase::Admitting => 0,
        IntakePhase::Acknowledging => 1,
        IntakePhase::Running => 2,
        IntakePhase::Publishing => 3,
        IntakePhase::Finished => 4,
    }
}

/// What the handler asks its caller to do next.
#[derive(Clone, Debug)]
pub enum IntakeAction {
    /// Take a permit from the admission pool, waiting for one or not.
    AcquirePermit { wait: bool },
    /// Acknowledge the message to the broker.
    Acknowledge,
    /// Hand the message back to the broker for redelivery.
    ReturnMessage,
    /// Decode the request and run the job under this deadline.
    Orchestrate { timeout_secs: u64 },
    /// Publish the job's outcome.
    Publish { response: ProverResponse },
    /// Give the permit back to its pool.
    ReleasePermit,
    /// Nothing more.
    Stop,
}

/// What happened since the last action.
#[derive(Clone, Debug)]
pub enum IntakeEvent {
    PermitGranted,
    PermitRefused,
    Acknowledged,
    AckFailed(String),
    /// The message did not hold a readable request.
    RequestUnreadable(String),
    JobEnded { request_id: String, run: JobRun, metrics: ProofMetrics },
    Published,
    PublishFailed(String),
}

/// The handling of one message.
pub struct MessageHandling {
    pub policy: AdmissionPolicy,
    pub timeout_secs: u64,
    pub phase: IntakePhase,
    /// Whether an admission permit is held for this message.
    pub holds_permit: bool,
}

impl MessageHandling {
    /// A permit is held exactly between admission and the end.
    pub open spec fn wf(&self) -> bool {
        self.holds_permit <==> (self.phase == IntakePhase::Acknowledging || self.phase
            == IntakePhase::Running || self.phase == IntakePhase::Publishing)
    }
}

/// The message is done with: the permit, if any, goes back.
pub open spec fn finishes(t: MessageHandling, a: IntakeAction, release: bool) -> bool {
    &&& t.phase == IntakePhase::Finished
    &&& !t.holds_permit
    &&& if release {
        a is ReleasePermit
    } else {
        a is ReturnMessage
    }
}

/// One step: from `s`, told `e`, the handling moves to `t` and asks for `a`.
pub open spec fn handles(s: MessageHandling, e: IntakeEvent, t: MessageHandling, a: IntakeAction) -> bool {
    &&& t.policy == s.policy
    &&& t.timeout_secs == s.timeout_secs
    &&& match s.phase {
        IntakePhase::Admitting => if e is PermitGranted {
            t.phase == IntakePhase::Acknowledging && t.holds_permit && a is Acknowledge
        } else {
            finishes(t, a, false)
        },
        IntakePhase::Acknowledging => if e is Acknowledged {
            t.phase == IntakePhase::Running && t.holds_permit && a == (IntakeAction::Orchestrate {
                timeout_secs: s.timeout_secs,
            })
        } else {
            finishes(t, a, true)
        },
        IntakePhase::Running => match e {
            IntakeEvent::JobEnded { request_id, run, metrics } => {
                &&& t.phase == IntakePhase::Publishing
                &&& t.holds_permit
                &&& a matches IntakeAction::Publish { response } && response_matches(
                    response,
                    request_id,
                    run,
                    s.timeout_secs,
                    metrics,
                )
            },
            _ => finishes(t, a, true),
        },
        IntakePhase::Publishing => finishes(t, a, true),
        IntakePhase::Finished => t.phase == IntakePhase::Finished && !t.holds_permit && a is Stop,
    }
}

impl MessageHandling {
    /// Starts handling a message: the first step is to ask for a permit.
    pub fn start(policy: AdmissionPolicy, timeout_secs: u64) -> (r: (MessageHandling, IntakeAction))
        ensures
            r.0.wf(),
            r.0.policy == policy,
            r.0.timeout_secs == timeout_secs,
            r.0.phase == IntakePhase::Admitting,
            r.1 == (IntakeAction::AcquirePermit { wait: policy == AdmissionPolicy::BlockAndWait }),
    {
        let wait = match policy {
            AdmissionPolicy::BlockAndWait => true,
            AdmissionPolicy::RejectWhenFull => false,
        };
        (
            MessageHandling { policy, timeout_secs, phase: IntakePhase::Admitting, holds_permit: false },
            IntakeAction::AcquirePermit { wait },
        )
    }

    fn finish(&mut self, release: bool) -> (a: IntakeAction)
        ensures
            final(self).policy == old(self).policy,
            final(self).timeout_secs == old(self).timeout_secs,
            finishes(*final(self), a, release),
    {
        self.phase = IntakePhase::Finished;
        self.holds_permit = false;
        if release {
            IntakeAction::ReleasePermit
        } else {
            IntakeAction::ReturnMessage
        }
    }

    /// Takes what happened and gives the next action.
    pub fn handle(&mut self, e: IntakeEvent) -> (a: IntakeAction)
        requires
            old(self).wf(),
        ensures
            final(self).wf(),
            handles(*old(self), e, *final(self), a),
    {
        match self.phase {
            IntakePhase::Admitting => match e {
                IntakeEvent::PermitGranted => {
                    self.phase = IntakePhase::Acknowledging;
                    self.holds_permit = true;
                    IntakeAction::Acknowledge
                },
                _ => self.finish(false),
            },
            IntakePhase::Acknowledging => match e {
                IntakeEvent::Acknowledged => {
                    self.phase = IntakePhase::Running;
                    IntakeAction::Orchestrate { timeout_secs: self.timeout_secs }
                },
                _ => self.finish(true),
            },
            IntakePhase::Running => match e {
                IntakeEvent::JobEnded { request_id, run, metrics } => {
                    self.phase = IntakePhase::Publishing;
                    IntakeAction::Publish {
                        response: job_response(request_id, run, self.timeout_secs, metrics),
                    }
                },
                _ => self.finish(true),
            },
            IntakePhase::Publishing => self.finish(true),
            IntakePhase::Finished => IntakeAction::Stop,
        }
    }
}

} // verus!
