use std::time::Duration;
use universal_service::control::ControlEvent;
use universal_service::control::ControlResponse;
use universal_service::default_event_handler;
use universal_service::make_simple_service_runner;
use universal_service::runner::RunAction;
use universal_service::runner::RunEvent;
use universal_service::runner::RunOutcome;
use universal_service::runner::RunPhase;
use universal_service::shutdown::shutdown_channel;
use universal_service::shutdown::ShutdownConsumer;
use universal_service::shutdown::WaitOutcome;
use universal_service::status::running_status;
use universal_service::status::stopped_status;
use universal_service::status::ServiceState;
use universal_service::status::BODY_FAILURE_EXIT_CODE;

fn waiting_body(mut consumer: ShutdownConsumer, start_params: Option<Vec<String>>) -> bool {
    assert_eq!(start_params, Some(vec![]));
    loop {
        match consumer.wait(Duration::from_millis(10)) {
            WaitOutcome::Signaled | WaitOutcome::Closed => return true,
            WaitOutcome::TimedOut => (),
        }
    }
}

#[test]
fn simulated_dispatch_stops_on_stop_event() {
    let mut runner = make_simple_service_runner("test_service".to_owned());
    assert_eq!(runner.service_name(), "test_service");
    assert_eq!(runner.current_phase(), RunPhase::Idle);
    assert_eq!(runner.step(RunEvent::Dispatched), RunAction::RegisterHandler);

    let (producer, consumer) = shutdown_channel();
    let mut handler = default_event_handler(producer);
    let running = runner.step(RunEvent::HandlerRegistered { ok: true });
    assert_eq!(running, RunAction::ReportStatus(running_status()));
    assert_eq!(runner.step(RunEvent::StatusReported { ok: true }), RunAction::InvokeBody);

    assert_eq!(handler.handle(ControlEvent::Stop), ControlResponse::Acknowledged);
    let ok = waiting_body(consumer, Some(vec![]));

    let stopped = runner.step(RunEvent::BodyReturned { ok });
    match stopped {
        RunAction::ReportStatus(record) => {
            assert_eq!(record.current_state, ServiceState::Stopped);
            assert_eq!(record.exit_code, 0);
            assert!(!record.accepts_stop);
        }
        other => panic!("unexpected action {:?}", other),
    }
    assert_eq!(
        runner.step(RunEvent::StatusReported { ok: true }),
        RunAction::Finish(RunOutcome::Completed)
    );
    assert_eq!(
        runner.current_phase(),
        RunPhase::Finished { outcome: RunOutcome::Completed }
    );
}

#[test]
fn running_status_accepts_stop() {
    let record = running_status();
    assert_eq!(record.current_state, ServiceState::Running);
    assert!(record.accepts_stop);
    assert_eq!(record.exit_code, 0);
    assert_eq!(record.checkpoint, 0);
    assert_eq!(record.wait_hint_ms, 0);
}

#[test]
fn failed_body_reports_nonzero_exit_code() {
    assert_eq!(stopped_status(false).exit_code, BODY_FAILURE_EXIT_CODE);
    assert_ne!(BODY_FAILURE_EXIT_CODE, 0);
    assert_eq!(stopped_status(true).exit_code, 0);

    let mut runner = make_simple_service_runner("svc".to_owned());
    runner.step(RunEvent::Dispatched);
    runner.step(RunEvent::HandlerRegistered { ok: true });
    runner.step(RunEvent::StatusReported { ok: true });
    assert_eq!(
        runner.step(RunEvent::BodyReturned { ok: false }),
        RunAction::ReportStatus(stopped_status(false))
    );
    assert_eq!(
        runner.step(RunEvent::StatusReported { ok: true }),
        RunAction::Finish(RunOutcome::BodyFailed)
    );
}

#[test]
fn refused_handler_never_runs_body() {
    let mut runner = make_simple_service_runner("svc".to_owned());
    runner.step(RunEvent::Dispatched);
    assert_eq!(
        runner.step(RunEvent::HandlerRegistered { ok: false }),
        RunAction::Finish(RunOutcome::HandlerRegistrationFailed)
    );
    assert_eq!(runner.step(RunEvent::StatusReported { ok: true }), RunAction::Ignore);
    assert_eq!(runner.step(RunEvent::BodyReturned { ok: true }), RunAction::Ignore);
}

#[test]
fn refused_running_report_never_runs_body() {
    let mut runner = make_simple_service_runner("svc".to_owned());
    runner.step(RunEvent::Dispatched);
    runner.step(RunEvent::HandlerRegistered { ok: true });
    assert_eq!(
        runner.step(RunEvent::StatusReported { ok: false }),
        RunAction::Finish(RunOutcome::StatusReportFailed)
    );
    assert_eq!(
        runner.current_phase(),
        RunPhase::Finished { outcome: RunOutcome::StatusReportFailed }
    );
}

#[test]
fn refused_stopped_report_is_reported() {
    let mut runner = make_simple_service_runner("svc".to_owned());
    runner.step(RunEvent::Dispatched);
    runner.step(RunEvent::HandlerRegistered { ok: true });
    runner.step(RunEvent::StatusReported { ok: true });
    runner.step(RunEvent::BodyReturned { ok: true });
    assert_eq!(
        runner.step(RunEvent::StatusReported { ok: false }),
        RunAction::Finish(RunOutcome::StatusReportFailed)
    );
}

#[test]
fn body_return_before_running_report_is_ignored() {
    let mut runner = make_simple_service_runner("svc".to_owned());
    assert_eq!(runner.step(RunEvent::BodyReturned { ok: true }), RunAction::Ignore);
    assert_eq!(runner.current_phase(), RunPhase::Idle);
    runner.step(RunEvent::Dispatched);
    assert_eq!(runner.step(RunEvent::BodyReturned { ok: true }), RunAction::Ignore);
    assert_eq!(runner.current_phase(), RunPhase::Registering);
}
