//! Run one service body either as a plain foreground process or under a native
//! service manager, with the control-event policy, the status state machine and
//! the one-time dispatch registration proved correct.
use vstd::prelude::*;

pub mod control;
pub mod registry;
pub mod runner;
pub mod shutdown;
pub mod status;

pub use control::default_event_handler;
pub use registry::set_service_main;
pub use registry::FFIServiceMainError;
pub use runner::make_simple_service_runner;
pub use shutdown::ShutdownConsumer;
pub use shutdown::ShutdownProducer;

use registry::registered;
use registry::DispatchRegistry;
use runner::RunOutcome;
use shutdown::shutdown_channel;

verus! {

#[verifier::external_type_specification]
#[verifier::external_body]
pub struct ExAnyhowError(anyhow::Error);

#[verifier::external_type_specification]
#[verifier::external_body]
pub struct ExCtrlcError(ctrlc::Error);

/// Why a run failed.
#[derive(Debug)]
pub enum ServiceError {
    /// The execution context could not be determined.
    EnvironmentDetection,
    /// A native-service entrypoint was already registered in this process.
    AlreadyRegistered,
    /// The termination-signal handler could not be installed.
    SignalInstall,
    /// The manager refused the control handler.
    ControlHandlerRegister,
    /// The manager refused a status report.
    StatusReport,
    /// The service body returned this error.
    Body(anyhow::Error),
}

/// Which runner hosts the body.
#[derive(Clone, Copy, Debug, PartialEq, Eq, Structural)]
pub enum RunMode {
    /// Under the native service manager.
    NativeService,
    /// As a plain foreground process.
    Foreground,
}

/// The choice of runner for a detection result: `None` when detection failed.
pub open spec fn mode_for(detected: Option<bool>) -> Option<RunMode> {
    match detected {
        Some(true) => Some(RunMode::NativeService),
        Some(false) => Some(RunMode::Foreground),
        None => None,
    }
}

/// Choose the runner from whether the process was started by the service
/// manager (`None`: detection failed, which is fatal). Platforms without a
/// service manager always detect `false`.
pub fn universal_service_main(detected: Option<bool>) -> (r: Result<RunMode, ServiceError>)
    ensures
        match mode_for(detected) {
            Some(mode) => r matches Ok(m) && m == mode,
            None => r matches Err(ServiceError::EnvironmentDetection),
        },
{
    match detected {
        Some(true) => Ok(RunMode::NativeService),
        Some(false) => Ok(RunMode::Foreground),
        None => Err(ServiceError::EnvironmentDetection),
    }
}

/// Relies on ctrlc::set_handler: on success, the closure runs on every
/// termination signal from then on; it only signals the producer.
#[verifier::external_body]
fn install_termination_handler(mut producer: ShutdownProducer) -> Result<(), ctrlc::Error> {
    ctrlc::set_handler(move || producer.signal())
}

/// Whether `r` is the run's result for a body that, called with `consumer`,
/// `args` and no start parameters, may return what `r` carries: `Ok` for its
/// `Ok`, `Body(e)` for its `Err(e)`, and nothing else.
pub open spec fn passes_body_result<F>(
    service_main: F,
    consumer: ShutdownConsumer,
    args: Vec<String>,
    r: Result<(), ServiceError>,
) -> bool where
    F: FnOnce(ShutdownConsumer, Vec<String>, Option<Vec<String>>) -> Result<(), anyhow::Error>,
 {
    match r {
        Ok(()) => service_main.ensures((consumer, args, None::<Vec<String>>), Ok(())),
        Err(ServiceError::Body(e)) => service_main.ensures((consumer, args, None::<Vec<String>>), Err(e)),
        Err(_) => false,
    }
}

/// The rest of a foreground run once the termination handler was or was not
/// installed: without it the body is never called and the run fails with
/// `SignalInstall`; with it the body is called with `consumer`, `args` and no
/// start parameters, and its result is the run's result.
pub fn run_installed<F>(
    installed: bool,
    consumer: ShutdownConsumer,
    args: Vec<String>,
    service_main: F,
) -> (r: Result<(), ServiceError>) where
    F: FnOnce(ShutdownConsumer, Vec<String>, Option<Vec<String>>) -> Result<(), anyhow::Error>,

    requires
        service_main.requires((consumer, args, None::<Vec<String>>)),
    ensures
        !installed ==> r matches Err(ServiceError::SignalInstall),
        installed ==> passes_body_result(service_main, consumer, args, r),
{
    if !installed {
        return Err(ServiceError::SignalInstall);
    }
    match service_main(consumer, args, None) {
        Ok(u) => Ok(u),
        Err(e) => Err(ServiceError::Body(e)),
    }
}

/// Run `service_main` as a plain foreground process: a termination signal asks
/// it to stop. Once the handler is installed, the body is called with a fresh
/// consumer, `args` and no start parameters, and its result is the run's result.
pub fn run_simple_nonservice<F>(
    _service_name: String,
    args: Vec<String>,
    service_main: F,
) -> (r: Result<(), ServiceError>) where
    F: FnOnce(ShutdownConsumer, Vec<String>, Option<Vec<String>>) -> Result<(), anyhow::Error>,

    requires
        forall|c: ShutdownConsumer| #[trigger] service_main.requires((c, args, None::<Vec<String>>)),
    ensures
        r matches Err(ServiceError::SignalInstall) || exists|c: ShutdownConsumer|
            c.observed() is None && #[trigger] passes_body_result(service_main, c, args, r),
{
    let (producer, consumer) = shutdown_channel();
    let installed = install_termination_handler(producer).is_ok();
    let ghost c = consumer;
    let ghost a = args;
    let r = run_installed(installed, consumer, args, service_main);
    assert(!installed ==> r matches Err(ServiceError::SignalInstall));
    assert(installed ==> passes_body_result(service_main, c, a, r));
    r
}

/// The result a native run hands back for how it ended; `body_error` is the
/// body's own error, which a failed body's run passes on unchanged.
pub fn native_run_result(outcome: RunOutcome, body_error: Option<anyhow::Error>) -> (r: Result<(), ServiceError>)
    requires
        outcome is BodyFailed ==> body_error is Some,
    ensures
        match outcome {
            RunOutcome::Completed => r is Ok,
            RunOutcome::BodyFailed => r matches Err(ServiceError::Body(e)) && Some(e) == body_error,
            RunOutcome::HandlerRegistrationFailed => r matches Err(ServiceError::ControlHandlerRegister),
            RunOutcome::StatusReportFailed => r matches Err(ServiceError::StatusReport),
        },
{
    match outcome {
        RunOutcome::Completed => Ok(()),
        RunOutcome::BodyFailed => match body_error {
            Some(e) => Err(ServiceError::Body(e)),
            None => Err(ServiceError::StatusReport),
        },
        RunOutcome::HandlerRegistrationFailed => Err(ServiceError::ControlHandlerRegister),
        RunOutcome::StatusReportFailed => Err(ServiceError::StatusReport),
    }
}

/// Prepare a native-service run: register `entry` as the process's dispatch
/// entrypoint. Only one native run per process is possible; a second one
/// fails with `AlreadyRegistered` and leaves the first entrypoint in place.
pub fn run_simple_service<T>(registry: &mut DispatchRegistry<T>, entry: T) -> (r: Result<(), ServiceError>)
    ensures
        final(registry).entry() == registered(old(registry).entry(), entry).0,
        old(registry).entry() is None <==> r is Ok,
        r is Err ==> r matches Err(ServiceError::AlreadyRegistered),
{
    match set_service_main(registry, entry) {
        Ok(()) => Ok(()),
        Err(_) => Err(ServiceError::AlreadyRegistered),
    }
}

} // verus!
