//! The status records reported to the service manager.
use vstd::prelude::*;

verus! {

/// The exit code reported when the service body failed.
pub const BODY_FAILURE_EXIT_CODE: u32 = 1;

/// The lifecycle phase of a service as the manager sees it.
#[derive(Clone, Copy, Debug, PartialEq, Eq, Structural)]
pub enum ServiceState {
    StartPending,
    Running,
    StopPending,
    Stopped,
}

/// One status report. The service always runs in its own process and reports
/// no process id.
#[derive(Clone, Copy, Debug, PartialEq, Eq, Structural)]
pub struct ServiceStatusRecord {
    pub current_state: ServiceState,
    /// Whether the manager may send a stop request.
    pub accepts_stop: bool,
    pub exit_code: u32,
    pub checkpoint: u32,
    pub wait_hint_ms: u64,
}

/// The report sent once the control handler is ready: running, stop accepted.
pub open spec fn running_record() -> ServiceStatusRecord {
    ServiceStatusRecord {
        current_state: ServiceState::Running,
        accepts_stop: true,
        exit_code: 0,
        checkpoint: 0,
        wait_hint_ms: 0,
    }
}

/// The report sent after the body returned: stopped, nothing accepted, and an
/// exit code of zero exactly when the body succeeded.
pub open spec fn stopped_record(body_ok: bool) -> ServiceStatusRecord {
    ServiceStatusRecord {
        current_state: ServiceState::Stopped,
        accepts_stop: false,
        exit_code: if body_ok { 0 } else { BODY_FAILURE_EXIT_CODE },
        checkpoint: 0,
        wait_hint_ms: 0,
    }
}

pub fn running_status() -> (r: ServiceStatusRecord)
    ensures
        r == running_record(),
{
    ServiceStatusRecord {
        current_state: ServiceState::Running,
        accepts_stop: true,
        exit_code: 0,
        checkpoint: 0,
        wait_hint_ms: 0,
    }
}

pub fn stopped_status(body_ok: bool) -> (r: ServiceStatusRecord)
    ensures
        r == stopped_record(body_ok),
{
    ServiceStatusRecord {
        current_state: ServiceState::Stopped,
        accepts_stop: false,
        exit_code: if body_ok { 0 } else { BODY_FAILURE_EXIT_CODE },
        checkpoint: 0,
        wait_hint_ms: 0,
    }
}

} // verus!
