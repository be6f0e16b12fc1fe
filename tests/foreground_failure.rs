use universal_service::run_simple_nonservice;
use universal_service::shutdown::ShutdownConsumer;
use universal_service::ServiceError;

#[test]
fn foreground_body_error_is_the_result() {
    let result = run_simple_nonservice(
        "test_service".to_owned(),
        vec![],
        |_consumer: ShutdownConsumer, _launch: Vec<String>, _start: Option<Vec<String>>| {
            Err(anyhow::Error::msg("body failed"))
        },
    );
    match result {
        Err(ServiceError::Body(e)) => assert_eq!(e.to_string(), "body failed"),
        other => panic!("unexpected result {:?}", other),
    }
}
