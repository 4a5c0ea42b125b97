use nyanpasu_ipc::client::Operation;
use nyanpasu_ipc::envelope::{
    expect_data, expect_unit, finish, is_success, unwrap_reply, ClientError, Envelope, Reply,
};

fn answered(status: u16, body: Result<Envelope<u32>, String>) -> Reply<u32> {
    Reply::Answered { status, body }
}

fn ok_with(data: Option<u32>) -> Reply<u32> {
    answered(200, Ok(Envelope::Success { data }))
}

#[test]
fn success_range_is_two_hundreds() {
    assert!(!is_success(199));
    assert!(is_success(200));
    assert!(is_success(299));
    assert!(!is_success(300));
    assert!(!is_success(500));
}

#[test]
fn data_is_returned_on_success() {
    assert!(matches!(expect_data(ok_with(Some(7))), Ok(7)));
}

#[test]
fn missing_data_is_a_contract_violation() {
    assert!(matches!(expect_data(ok_with(None)), Err(ClientError::MissingData)));
    for op in [Operation::Status, Operation::LogsInspect, Operation::LogsRetrieve] {
        assert!(matches!(finish(op, ok_with(None)), Err(ClientError::MissingData)));
    }
}

#[test]
fn unit_operations_accept_a_success_without_data() {
    assert!(matches!(expect_unit(ok_with(None)), Ok(())));
    assert!(matches!(expect_unit(ok_with(Some(3))), Ok(())));
    assert!(matches!(finish(Operation::CoreStop, ok_with(Some(3))), Ok(None)));
}

#[test]
fn malformed_reply_is_an_encoding_error_for_every_operation() {
    for op in [
        Operation::Status,
        Operation::CoreStop,
        Operation::CoreRestart,
        Operation::LogsInspect,
        Operation::LogsRetrieve,
        Operation::CoreStart,
    ] {
        let r = finish(op, answered(200, Err(String::from("expected value at line 1"))));
        match r {
            Err(ClientError::Encoding(reason)) => assert_eq!(reason, "expected value at line 1"),
            other => panic!("unexpected outcome {:?}", other),
        }
    }
}

#[test]
fn not_running_surfaces_as_application_error() {
    let reply = answered(
        200,
        Ok(Envelope::Failure {
            code: String::from("NOT_RUNNING"),
            message: String::from("core is not running"),
        }),
    );
    match expect_unit(reply) {
        Err(ClientError::Application { code, message }) => {
            assert_eq!(code, "NOT_RUNNING");
            assert_eq!(message, "core is not running");
        }
        other => panic!("unexpected outcome {:?}", other),
    }
}

#[test]
fn unreachable_service_is_a_transport_error() {
    let reply: Reply<u32> = Reply::Unreachable { reason: String::from("connection refused") };
    assert!(matches!(unwrap_reply(reply), Err(ClientError::Transport(r)) if r == "connection refused"));
}

#[test]
fn status_outside_success_range_is_a_protocol_error() {
    assert!(matches!(expect_data(answered(503, Ok(Envelope::Success { data: Some(1) }))), Err(ClientError::Status(503))));
    assert!(matches!(expect_unit(answered(404, Err(String::from("x")))), Err(ClientError::Status(404))));
}
