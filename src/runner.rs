//! The native-service run as a state machine: from the current phase and the
//! outcome of the last piece of outside work to the next phase and the next
//! piece of work. The host performs each action and hands back its outcome.
use crate::status::running_record;
use crate::status::running_status;
use crate::status::stopped_record;
use crate::status::stopped_status;
use crate::status::ServiceState;
use crate::status::ServiceStatusRecord;
use vstd::prelude::*;

verus! {

/// How a native run ended.
#[derive(Clone, Copy, Debug, PartialEq, Eq, Structural)]
pub enum RunOutcome {
    /// The body succeeded and the final status was reported.
    Completed,
    /// The body failed; the final status carries a nonzero exit code.
    BodyFailed,
    /// The manager refused the control handler; the body never ran.
    HandlerRegistrationFailed,
    /// The manager refused a status report.
    StatusReportFailed,
}

/// Where a native run stands.
#[derive(Clone, Copy, Debug, PartialEq, Eq, Structural)]
pub enum RunPhase {
    /// The dispatcher has not called the entrypoint yet.
    Idle,
    /// Waiting for the control handler to be registered.
    Registering,
    /// Waiting for the manager to take the running report.
    ReportingRunning,
    /// The body is executing.
    BodyRunning,
    /// Waiting for the manager to take the stopped report.
    ReportingStopped { body_ok: bool },
    /// Nothing more happens.
    Finished { outcome: RunOutcome },
}

/// The outcome of the last piece of outside work.
#[derive(Clone, Copy, Debug, PartialEq, Eq, Structural)]
pub enum RunEvent {
    /// The dispatcher called the entrypoint.
    Dispatched,
    HandlerRegistered { ok: bool },
    StatusReported { ok: bool },
    BodyReturned { ok: bool },
}

/// The next piece of work for the host.
#[derive(Clone, Copy, Debug, PartialEq, Eq, Structural)]
pub enum RunAction {
    /// Register the control handler under the service's name.
    RegisterHandler,
    /// Send this record to the manager.
    ReportStatus(ServiceStatusRecord),
    /// Call the service body with the shutdown consumer and the arguments.
    InvokeBody,
    /// The run is over with this outcome.
    Finish(RunOutcome),
    /// The event does not fit the current phase and is ignored.
    Ignore,
}

/// The next phase and action, given the current phase and an event.
pub open spec fn step_spec(phase: RunPhase, event: RunEvent) -> (RunPhase, RunAction) {
    match (phase, event) {
        (RunPhase::Idle, RunEvent::Dispatched) => (RunPhase::Registering, RunAction::RegisterHandler),
        (RunPhase::Registering, RunEvent::HandlerRegistered { ok }) => if ok {
            (RunPhase::ReportingRunning, RunAction::ReportStatus(running_record()))
        } else {
            (
                RunPhase::Finished { outcome: RunOutcome::HandlerRegistrationFailed },
                RunAction::Finish(RunOutcome::HandlerRegistrationFailed),
            )
        },
        (RunPhase::ReportingRunning, RunEvent::StatusReported { ok }) => if ok {
            (RunPhase::BodyRunning, RunAction::InvokeBody)
        } else {
            (
                RunPhase::Finished { outcome: RunOutcome::StatusReportFailed },
                RunAction::Finish(RunOutcome::StatusReportFailed),
            )
        },
        (RunPhase::BodyRunning, RunEvent::BodyReturned { ok }) => (
            RunPhase::ReportingStopped { body_ok: ok },
            RunAction::ReportStatus(stopped_record(ok)),
        ),
        (RunPhase::ReportingStopped { body_ok }, RunEvent::StatusReported { ok }) => {
            let outcome = if !ok {
                RunOutcome::StatusReportFailed
            } else if body_ok {
                RunOutcome::Completed
            } else {
                RunOutcome::BodyFailed
            };
            (RunPhase::Finished { outcome }, RunAction::Finish(outcome))
        },
        _ => (phase, RunAction::Ignore),
    }
}

/// Whether an action reports the stopped state.
pub open spec fn reports_stopped(a: RunAction) -> bool {
    match a {
        RunAction::ReportStatus(rec) => rec.current_state == ServiceState::Stopped,
        _ => false,
    }
}

/// Whether `a` occurs among the first `n` entries of `h`.
pub open spec fn occurs_before(h: Seq<RunAction>, n: int, a: RunAction) -> bool {
    exists|i: int| 0 <= i < n && h[i] == a
}

/// The ordering that every run keeps: the body starts only after the running
/// report, and the stopped report comes only in answer to the body's return,
/// after the body started.
pub open spec fn ordered_history(actions: Seq<RunAction>, events: Seq<RunEvent>) -> bool {
    &&& actions.len() == events.len()
    &&& forall|j: int|
        0 <= j < actions.len() && #[trigger] actions[j] == RunAction::InvokeBody ==> occurs_before(
            actions,
            j,
            RunAction::ReportStatus(running_record()),
        )
    &&& forall|j: int|
        0 <= j < actions.len() && reports_stopped(#[trigger] actions[j]) ==> {
            &&& occurs_before(actions, j, RunAction::InvokeBody)
            &&& events[j] is BodyReturned
        }
}

/// The state of one native run of a named service.
pub struct SimpleServiceRunner {
    service_name: String,
    phase: RunPhase,
    actions: Ghost<Seq<RunAction>>,
    events: Ghost<Seq<RunEvent>>,
}

/// A run of `service_name` that has not started.
pub fn make_simple_service_runner(service_name: String) -> (r: SimpleServiceRunner)
    ensures
        r.wf(),
        r.phase() == RunPhase::Idle,
        r.name() == service_name@,
        r.actions() == Seq::<RunAction>::empty(),
{
    SimpleServiceRunner {
        service_name,
        phase: RunPhase::Idle,
        actions: Ghost(Seq::empty()),
        events: Ghost(Seq::empty()),
    }
}

impl SimpleServiceRunner {
    pub closed spec fn phase(&self) -> RunPhase {
        self.phase
    }

    pub closed spec fn name(&self) -> Seq<char> {
        self.service_name@
    }

    /// Every action handed out so far, in order.
    pub closed spec fn actions(&self) -> Seq<RunAction> {
        self.actions@
    }

    /// Every event received so far, in order.
    pub closed spec fn events(&self) -> Seq<RunEvent> {
        self.events@
    }

    pub closed spec fn wf(&self) -> bool {
        &&& ordered_history(self.actions@, self.events@)
        &&& (self.phase is ReportingRunning || self.phase is BodyRunning
            || self.phase is ReportingStopped) ==> occurs_before(
            self.actions@,
            self.actions@.len() as int,
            RunAction::ReportStatus(running_record()),
        )
        &&& (self.phase is BodyRunning || self.phase is ReportingStopped) ==> occurs_before(
            self.actions@,
            self.actions@.len() as int,
            RunAction::InvokeBody,
        )
    }

    /// Every run keeps the ordering of `ordered_history`.
    pub proof fn lemma_history_ordered(&self)
        requires
            self.wf(),
        ensures
            ordered_history(self.actions(), self.events()),
    {
    }

    pub fn service_name(&self) -> (r: &String)
        ensures
            r@ == self.name(),
    {
        &self.service_name
    }

    pub fn current_phase(&self) -> (r: RunPhase)
        ensures
            r == self.phase(),
    {
        self.phase
    }

    /// Take the outcome of the last piece of work and hand out the next one.
    pub fn step(&mut self, event: RunEvent) -> (r: RunAction)
        requires
            old(self).wf(),
        ensures
            final(self).wf(),
            (final(self).phase(), r) == step_spec(old(self).phase(), event),
            final(self).name() == old(self).name(),
            final(self).actions() == old(self).actions().push(r),
            final(self).events() == old(self).events().push(event),
    {
        let (next, action) = match (self.phase, event) {
            (RunPhase::Idle, RunEvent::Dispatched) => (RunPhase::Registering, RunAction::RegisterHandler),
            (RunPhase::Registering, RunEvent::HandlerRegistered { ok }) => if ok {
                (RunPhase::ReportingRunning, RunAction::ReportStatus(running_status()))
            } else {
                (
                    RunPhase::Finished { outcome: RunOutcome::HandlerRegistrationFailed },
                    RunAction::Finish(RunOutcome::HandlerRegistrationFailed),
                )
            },
            (RunPhase::ReportingRunning, RunEvent::StatusReported { ok }) => if ok {
                (RunPhase::BodyRunning, RunAction::InvokeBody)
            } else {
                (
                    RunPhase::Finished { outcome: RunOutcome::StatusReportFailed },
                    RunAction::Finish(RunOutcome::StatusReportFailed),
                )
            },
            (RunPhase::BodyRunning, RunEvent::BodyReturned { ok }) => (
                RunPhase::ReportingStopped { body_ok: ok },
                RunAction::ReportStatus(stopped_status(ok)),
            ),
            (RunPhase::ReportingStopped { body_ok }, RunEvent::StatusReported { ok }) => {
                let outcome = if !ok {
                    RunOutcome::StatusReportFailed
                } else if body_ok {
                    RunOutcome::Completed
                } else {
                    RunOutcome::BodyFailed
                };
                (RunPhase::Finished { outcome }, RunAction::Finish(outcome))
            },
            _ => (self.phase, RunAction::Ignore),
        };
        let ghost old_actions = self.actions@;
        let ghost old_events = self.events@;
        let ghost old_phase = self.phase;
        self.phase = next;
        self.actions = Ghost(old_actions.push(action));
        self.events = Ghost(old_events.push(event));
        proof {
            let h = self.actions@;
            let n = old_actions.len() as int;
            assert forall|j: int| 0 <= j < h.len() && #[trigger] h[j] == RunAction::InvokeBody
                implies occurs_before(h, j, RunAction::ReportStatus(running_record())) by {
                if j < n {
                    assert(old_actions[j] == RunAction::InvokeBody);
                    let i = choose|i: int| 0 <= i < j && old_actions[i] == RunAction::ReportStatus(running_record());
                    assert(h[i] == old_actions[i]);
                } else {
                    let i = choose|i: int| 0 <= i < n && old_actions[i] == RunAction::ReportStatus(running_record());
                    assert(h[i] == old_actions[i]);
                }
            }
            assert forall|j: int| 0 <= j < h.len() && reports_stopped(#[trigger] h[j]) implies {
                &&& occurs_before(h, j, RunAction::InvokeBody)
                &&& self.events@[j] is BodyReturned
            } by {
                if j < n {
                    assert(reports_stopped(old_actions[j]));
                    let i = choose|i: int| 0 <= i < j && old_actions[i] == RunAction::InvokeBody;
                    assert(h[i] == old_actions[i]);
                } else {
                    assert(old_phase is BodyRunning);
                    let i = choose|i: int| 0 <= i < n && old_actions[i] == RunAction::InvokeBody;
                    assert(h[i] == old_actions[i]);
                }
            }
            if old_phase is ReportingRunning || old_phase is BodyRunning || old_phase is ReportingStopped {
                let i = choose|i: int| 0 <= i < n && old_actions[i] == RunAction::ReportStatus(running_record());
                assert(h[i] == old_actions[i]);
            }
            if old_phase is BodyRunning || old_phase is ReportingStopped {
                let i = choose|i: int| 0 <= i < n && old_actions[i] == RunAction::InvokeBody;
                assert(h[i] == old_actions[i]);
            }
            if action == RunAction::ReportStatus(running_record()) {
                assert(h[n] == action);
            }
            if action == RunAction::InvokeBody {
                assert(h[n] == action);
            }
        }
        action
    }
}

} // verus!
